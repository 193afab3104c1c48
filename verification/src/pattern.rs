//! Regular expressions, matched by the `regex` crate. What a pattern matches
//! is not derived here: the results get names, and the contracts of the two
//! calls are believed, not proved.

use vstd::prelude::*;

verus! {

/// The pattern of a terminal escape sequence that sets a colour or erases a
/// line.
pub const ANSI_ESCAPE: &'static str = "\\x1B\\[[0-9;]*[mK]";

/// The pattern of an address: a scheme, and everything up to the next
/// whitespace.
pub const URL_PATTERN: &'static str = "(https?://\\S+)";

/// The pattern of a model identifier: a name, a colon and a revision number.
pub const MODEL_ID_PATTERN: &'static str = "([A-Za-z0-9_\\-\\.]+:[0-9]+)";

/// Whether `pattern` is one of the three patterns that the library searches
/// with.
pub open spec fn is_library_pattern(pattern: Seq<char>) -> bool {
    pattern == ANSI_ESCAPE@ || pattern == URL_PATTERN@ || pattern == MODEL_ID_PATTERN@
}

/// The error with which `regex` refuses a pattern.
#[verifier::external_type_specification]
#[verifier::external_body]
pub struct ExPatternError(regex::Error);

/// What the first capture group of `pattern` holds in the first match of
/// `pattern` in `haystack`; `None` where there is no match, the pattern has
/// no such group, or the group took no part in the match.
pub uninterp spec fn first_capture(pattern: Seq<char>, haystack: Seq<char>) -> Option<Seq<char>>;

/// `haystack` with every match of `pattern`, from left to right and without
/// overlap, replaced by the expansion of `replacement`.
pub uninterp spec fn replaced_all(
    pattern: Seq<char>,
    haystack: Seq<char>,
    replacement: Seq<char>,
) -> Seq<char>;

/// Compiles `pattern` with `Regex::new`, searches `haystack` with
/// `Regex::captures` and reads group 1 of the match with `Captures::get`.
///
/// Believed: a search with a pattern that compiled depends on the pattern and
/// the haystack alone, so its result is `first_capture` of the two; and
/// `regex` compiles each of the library's three patterns, which are made of
/// classes, escaped punctuation and repetition only. Of other patterns
/// nothing is claimed: their error is handed on.
#[verifier::external_body]
pub(crate) fn capture_first(pattern: &str, haystack: &str) -> (found: Result<
    Option<String>,
    regex::Error,
>)
    ensures
        found matches Ok(text) ==> text.deep_view() == first_capture(pattern@, haystack@),
        is_library_pattern(pattern@) ==> found is Ok,
{
    let compiled = regex::Regex::new(pattern)?;
    match compiled.captures(haystack) {
        Some(groups) => match groups.get(1) {
            Some(group) => Ok(Some(group.as_str().to_string())),
            None => Ok(None),
        },
        None => Ok(None),
    }
}

/// Compiles `pattern` with `Regex::new` and rewrites `haystack` with
/// `Regex::replace_all`.
///
/// Believed: with a pattern that compiled the rewritten text depends on the
/// three arguments alone, so it is `replaced_all` of them; and `regex`
/// compiles each of the library's three patterns. Of other patterns nothing
/// is claimed: their error is handed on.
#[verifier::external_body]
pub(crate) fn replace_all(pattern: &str, haystack: &str, replacement: &str) -> (out: Result<
    String,
    regex::Error,
>)
    ensures
        out matches Ok(text) ==> text@ == replaced_all(pattern@, haystack@, replacement@),
        is_library_pattern(pattern@) ==> out is Ok,
{
    let compiled = regex::Regex::new(pattern)?;
    Ok(compiled.replace_all(haystack, replacement).into_owned())
}

} // verus!
