//! Reading fields out of the console text that the program prints.
//!
//! The text is meant for people: it is coloured, padded and unversioned. Each
//! extraction below is a rule with a fallback, stated over the characters of
//! the text.

use crate::error::{Failure, Field, FoundryError};
use vstd::pervasive::unreached;
use crate::pattern::{
    capture_first, first_capture, replace_all, replaced_all, ANSI_ESCAPE, MODEL_ID_PATTERN,
    URL_PATTERN,
};
use crate::text::{
    all_of, append, ascii_lowercased, contains, drop_class, find, free_of, from_chars, has,
    has_no_capital, is_ascii_alphanumeric, lemma_found_as_written, to_ascii_lowercase,
    lemma_drop_class_is_prefix, lemma_position_from, lemma_row_is_a_line,
    lemma_skip_class_strips, lemma_tokens_before_gap, lemma_tokens_exist,
    lemma_trimmed_is_identity, lemma_word_is_last_token, lines, occurs_at, position, skip_class,
    slice, split_lines, split_whitespace, string_views, to_chars, tokens, trim, trim_end,
    trim_start, trimmed, views, CharClass,
};
use crate::unicode::{is_whitespace, lowercased, to_lowercase};
use vstd::prelude::*;

verus! {

/// What separates the scheme of an address from the rest.
pub open spec fn scheme_separator() -> Seq<char> {
    "://"@
}

/// The path under which the service answers inference requests.
pub open spec fn version_segment() -> Seq<char> {
    "/v1"@
}

/// `text` without terminal escape sequences.
pub open spec fn sanitized(text: Seq<char>) -> Seq<char> {
    replaced_all(ANSI_ESCAPE@, text, ""@)
}

/// What `normalized` keeps of an address: scheme, host and port where the
/// address has a scheme separator and a slash after it; else the address
/// without the slashes at its end.
pub open spec fn origin(url: Seq<char>) -> Seq<char> {
    match position(url, scheme_separator()) {
        Some(at) => match position(url.skip(at + 3), "/"@) {
            Some(slash) => url.take(at + 3 + slash),
            None => drop_class(url, CharClass::Slash),
        },
        None => drop_class(url, CharClass::Slash),
    }
}

/// The address of the inference endpoint on the host that `url` names.
pub open spec fn normalized(url: Seq<char>) -> Seq<char> {
    origin(url) + version_segment()
}

/// Whether `text` ends with the version segment.
pub open spec fn ends_with_version_segment(text: Seq<char>) -> bool {
    text.len() >= 3 && text.skip(text.len() - 3) == version_segment()
}

/// The endpoint that a matched address stands for: the address without full
/// stops and commas at its end, normalized.
pub open spec fn endpoint_of_match(raw: Seq<char>) -> Seq<char> {
    normalized(drop_class(raw, CharClass::Punctuation))
}

/// The endpoint that `line` reports, if it holds an address.
pub open spec fn endpoint_in_line(line: Seq<char>) -> Option<Seq<char>> {
    match first_capture(URL_PATTERN@, line) {
        Some(raw) => Some(endpoint_of_match(raw)),
        None => None,
    }
}

/// The endpoint that the first of `rows` with an address reports.
pub open spec fn first_endpoint(rows: Seq<Seq<char>>) -> Option<Seq<char>>
    decreases rows.len(),
{
    if rows.len() == 0 {
        None
    } else {
        match endpoint_in_line(rows[0]) {
            Some(url) => Some(url),
            None => first_endpoint(rows.skip(1)),
        }
    }
}

/// The endpoint that the console text `output` reports.
pub open spec fn endpoint_url(output: Seq<char>) -> Option<Seq<char>> {
    first_endpoint(lines(sanitized(output)))
}

/// Whether `c` is one of the four coloured circles that mark the state of a
/// model in a listing.
pub open spec fn is_status_glyph(c: char) -> bool {
    c == '\u{1F7E2}' || c == '\u{1F7E1}' || c == '\u{1F7E0}' || c == '\u{1F534}'
}

/// The state that a listing shows for a model.
#[derive(Clone, Copy, Debug, PartialEq, Eq, Structural)]
pub enum StatusIndicator {
    /// The listing shows no state that is known.
    Unknown,
    /// The model is being loaded.
    Loading,
    /// The model answers.
    Ready,
    /// The model has stopped.
    Stopped,
}

/// A row of a listing of models, as far as it is read.
#[derive(Clone, Debug, PartialEq, Eq)]
pub struct ModelDescriptor {
    /// The short name of the model: the first column.
    pub alias: String,
    /// The identifier of the model: the last column.
    pub resolved_id: String,
    /// The state that the glyph at the beginning of the row stands for.
    pub status_indicator: StatusIndicator,
}

/// A `ModelDescriptor` as a mathematical value.
pub struct ModelRow {
    pub alias: Seq<char>,
    pub resolved_id: Seq<char>,
    pub status_indicator: StatusIndicator,
}

impl View for ModelDescriptor {
    type V = ModelRow;

    open spec fn view(&self) -> ModelRow {
        ModelRow {
            alias: self.alias@,
            resolved_id: self.resolved_id@,
            status_indicator: self.status_indicator,
        }
    }
}

impl DeepView for ModelDescriptor {
    type V = ModelRow;

    open spec fn deep_view(&self) -> ModelRow {
        self@
    }
}

/// The state that a status glyph stands for: green for ready, yellow for
/// loading, red for stopped. The orange circle, and any other character,
/// stands for no known state.
pub open spec fn indicated(glyph: char) -> StatusIndicator {
    if glyph == '\u{1F7E2}' {
        StatusIndicator::Ready
    } else if glyph == '\u{1F7E1}' {
        StatusIndicator::Loading
    } else if glyph == '\u{1F534}' {
        StatusIndicator::Stopped
    } else {
        StatusIndicator::Unknown
    }
}

/// What a row of a listing says of a model. A row counts where, trimmed, it
/// begins with a status glyph and has two columns or more behind the glyph
/// and whatever else is no letter or digit.
pub open spec fn model_row(line: Seq<char>) -> Option<ModelRow> {
    let row = trimmed(line);
    let columns = tokens(skip_class(row, CharClass::NotAlphanumeric));
    if row.len() > 0 && is_status_glyph(row[0]) && columns.len() >= 2 {
        Some(
            ModelRow {
                alias: columns[0],
                resolved_id: columns.last(),
                status_indicator: indicated(row[0]),
            },
        )
    } else {
        None
    }
}

/// The model identifier in a row of a listing: the last column of a row that
/// begins with a status glyph and has two columns or more.
pub open spec fn glyph_row_id(line: Seq<char>) -> Option<Seq<char>> {
    match model_row(line) {
        Some(row) => Some(row.resolved_id),
        None => None,
    }
}

/// The identifier in the first of `rows` that has one.
pub open spec fn first_glyph_id(rows: Seq<Seq<char>>) -> Option<Seq<char>>
    decreases rows.len(),
{
    if rows.len() == 0 {
        None
    } else {
        match glyph_row_id(rows[0]) {
            Some(id) => Some(id),
            None => first_glyph_id(rows.skip(1)),
        }
    }
}

/// The identifier that `clean`, a text without escape sequences, reports: that
/// of the first row with a status glyph, else the first name with a revision.
pub open spec fn model_id_in(clean: Seq<char>) -> Option<Seq<char>> {
    match first_glyph_id(lines(clean)) {
        Some(id) => Some(id),
        None => first_capture(MODEL_ID_PATTERN@, clean),
    }
}

/// The model identifier that the console text `output` reports.
pub open spec fn model_id(output: Seq<char>) -> Option<Seq<char>> {
    model_id_in(sanitized(output))
}

/// The model name in a line of a model listing: the first column, unless the
/// line is blank, a header or a divider.
pub open spec fn listed_name(line: Seq<char>) -> Option<Seq<char>> {
    if trimmed(line).len() > 0 && !contains(line, "NAME"@) && !contains(line, "--------"@)
        && tokens(line).len() > 0 {
        Some(tokens(line)[0])
    } else {
        None
    }
}

/// The model names in `rows`, in order.
pub open spec fn listed_names(rows: Seq<Seq<char>>) -> Seq<Seq<char>>
    decreases rows.len(),
{
    if rows.len() == 0 {
        Seq::<Seq<char>>::empty()
    } else {
        match listed_name(rows.last()) {
            Some(name) => listed_names(rows.drop_last()).push(name),
            None => listed_names(rows.drop_last()),
        }
    }
}

/// The first line of `output` without the whitespace around it; empty where
/// `output` has no line.
pub open spec fn first_line(output: Seq<char>) -> Seq<char> {
    if lines(output).len() > 0 {
        trimmed(lines(output)[0])
    } else {
        Seq::<char>::empty()
    }
}

/// Whether `phrase` stands in `text` as it is written, or with the ASCII
/// capital letters of the text made small.
pub open spec fn says(text: Seq<char>, phrase: Seq<char>) -> bool {
    contains(text, phrase) || contains(ascii_lowercased(text), phrase)
}

/// A text that says a phrase without capital letters mentions it.
pub proof fn lemma_said_is_mentioned(text: Seq<char>, phrase: Seq<char>)
    requires
        says(text, phrase),
        has_no_capital(phrase),
    ensures
        mentions(text, phrase),
{
    if contains(text, phrase) {
        lemma_found_as_written(text, phrase);
    }
}

/// Whether `phrase` stands in `text` when capital letters are made small:
/// the ASCII capital letters alone, or all of them, as lowercasing does.
pub open spec fn mentions(text: Seq<char>, phrase: Seq<char>) -> bool {
    contains(ascii_lowercased(text), phrase) || contains(lowercased(text), phrase)
}

/// Whether one of `rows`, in lowercase, holds the lowercase form of `name`.
pub open spec fn some_row_names(rows: Seq<Seq<char>>, name: Seq<char>) -> bool {
    exists|k: int| 0 <= k < rows.len() && #[trigger] contains(lowercased(rows[k]), lowercased(name))
}

/// What `normalized` keeps of an address is the beginning of that address.
pub proof fn lemma_origin_is_prefix(url: Seq<char>)
    ensures
        origin(url).is_prefix_of(url),
{
    lemma_drop_class_is_prefix(url, CharClass::Slash);
    match position(url, scheme_separator()) {
        Some(at) => {
            lemma_position_from(url, scheme_separator(), 0);
            reveal_strlit("://");
            match position(url.skip(at + 3), "/"@) {
                Some(slash) => {
                    lemma_position_from(url.skip(at + 3), "/"@, 0);
                },
                None => {},
            }
        },
        None => {},
    }
}

/// A normalized address ends with the version segment.
pub proof fn lemma_normalized_ends_with_version_segment(url: Seq<char>)
    ensures
        ends_with_version_segment(normalized(url)),
{
    reveal_strlit("/v1");
    let whole = normalized(url);
    assert(whole.skip(whole.len() - 3) =~= version_segment());
}

/// Normalizing discards the path of an address: behind the scheme separator
/// of the address, the normalized form has no slash but the one that begins
/// the version segment.
pub proof fn lemma_normalized_has_no_other_path(url: Seq<char>, at: int)
    requires
        position(url, scheme_separator()) == Some(at),
    ensures
        forall|k: int| at + 3 <= k < normalized(url).len() - 3 ==> normalized(url)[k] != '/',
{
    reveal_strlit("://");
    reveal_strlit("/");
    reveal_strlit("/v1");
    lemma_position_from(url, scheme_separator(), 0);
    lemma_origin_is_prefix(url);
    let rest = url.skip(at + 3);
    lemma_position_from(rest, "/"@, 0);
    let kept = origin(url);
    assert forall|k: int| at + 3 <= k < normalized(url).len() - 3 implies normalized(url)[k]
        != '/' by {
        assert(normalized(url)[k] == kept[k]);
        assert(kept[k] == url[k]);
        assert(url[k] == rest[k - at - 3]);
        if rest[k - at - 3] == '/' {
            assert(rest.subrange(k - at - 3, k - at - 3 + 1) =~= "/"@);
            assert(occurs_at(rest, "/"@, k - at - 3));
        }
    }
}

/// The endpoint of a text is that of its first line with an address: where
/// row `k` holds an address and no row before it does, the endpoint is the
/// one that row `k` reports.
pub proof fn lemma_first_endpoint_is_first(rows: Seq<Seq<char>>, k: int)
    requires
        0 <= k < rows.len(),
        endpoint_in_line(rows[k]) is Some,
        forall|j: int| 0 <= j < k ==> endpoint_in_line(#[trigger] rows[j]) is None,
    ensures
        first_endpoint(rows) == endpoint_in_line(rows[k]),
    decreases k,
{
    if k > 0 {
        assert(endpoint_in_line(rows[0]) is None);
        let rest = rows.skip(1);
        assert forall|j: int| 0 <= j < k - 1 implies endpoint_in_line(#[trigger] rest[j])
            is None by {
            assert(rest[j] == rows[j + 1]);
        }
        lemma_first_endpoint_is_first(rest, k - 1);
    }
}

/// Where no row holds an address there is no endpoint.
pub proof fn lemma_no_endpoint_without_address(rows: Seq<Seq<char>>)
    requires
        forall|j: int| 0 <= j < rows.len() ==> endpoint_in_line(#[trigger] rows[j]) is None,
    ensures
        first_endpoint(rows) is None,
    decreases rows.len(),
{
    if rows.len() > 0 {
        assert(endpoint_in_line(rows[0]) is None);
        let rest = rows.skip(1);
        assert forall|j: int| 0 <= j < rest.len() implies endpoint_in_line(#[trigger] rest[j])
            is None by {
            assert(rest[j] == rows[j + 1]);
        }
        lemma_no_endpoint_without_address(rest);
    }
}

/// A listing with a row of a model reports the identifier of its first such
/// row: where row `k` is one of a model and no row before it is, the
/// identifier is the last column of row `k`, whatever else the listing holds.
pub proof fn lemma_model_id_is_last_column_of_first_row(clean: Seq<char>, k: int)
    requires
        0 <= k < lines(clean).len(),
        model_row(lines(clean)[k]) is Some,
        forall|j: int| 0 <= j < k ==> model_row(#[trigger] lines(clean)[j]) is None,
    ensures
        model_id_in(clean) == Some(model_row(lines(clean)[k])->0.resolved_id),
{
    lemma_first_glyph_id_is_first(lines(clean), k);
}

/// A console text with a row of a model reports the identifier of its first
/// such row: where, after the escape sequences are removed, line `k` is a
/// row of a model and no line before it is, the identifier is the last
/// column of line `k`, whatever else the text holds.
pub proof fn lemma_model_id_of_output_is_last_column(output: Seq<char>, k: int)
    requires
        0 <= k < lines(sanitized(output)).len(),
        model_row(lines(sanitized(output))[k]) is Some,
        forall|j: int| 0 <= j < k ==> model_row(#[trigger] lines(sanitized(output))[j]) is None,
    ensures
        model_id(output) == Some(model_row(lines(sanitized(output))[k])->0.resolved_id),
{
    lemma_model_id_is_last_column_of_first_row(sanitized(output), k);
}

/// A row of a listing as the program prints it: a status glyph, what stands
/// between it and the first column, the columns before the last, a gap, and
/// the last column.
pub open spec fn printed_row(
    glyph: char,
    lead: Seq<char>,
    columns: Seq<char>,
    gap: Seq<char>,
    id: Seq<char>,
) -> Seq<char> {
    seq![glyph] + lead + columns + gap + id
}

/// Whether the parts make up a row of a model: the glyph is a status glyph,
/// no letter or digit stands before the first column, which begins with
/// one, the gap is whitespace and not empty, and the last column is a word.
pub open spec fn is_printed_row(
    glyph: char,
    lead: Seq<char>,
    columns: Seq<char>,
    gap: Seq<char>,
    id: Seq<char>,
) -> bool {
    &&& is_status_glyph(glyph)
    &&& all_of(lead, CharClass::NotAlphanumeric)
    &&& columns.len() > 0
    &&& is_ascii_alphanumeric(columns[0])
    &&& gap.len() > 0
    &&& all_of(gap, CharClass::Whitespace)
    &&& id.len() > 0
    &&& free_of(id, CharClass::Whitespace)
}

/// A row that begins with a status glyph and has an alias and an identifier
/// is read as a row of a model, and its identifier is its last column,
/// however many columns stand between.
pub proof fn lemma_printed_row_gives_last_column(
    glyph: char,
    lead: Seq<char>,
    columns: Seq<char>,
    gap: Seq<char>,
    id: Seq<char>,
)
    requires
        is_printed_row(glyph, lead, columns, gap, id),
    ensures
        model_row(printed_row(glyph, lead, columns, gap, id)) matches Some(found)
            && found.resolved_id == id,
{
    let row = printed_row(glyph, lead, columns, gap, id);
    let prefix = seq![glyph] + lead;
    let rest = columns + gap + id;
    assert(row =~= prefix + rest);
    assert(row[0] == glyph);
    assert(row.last() == id[id.len() - 1]);
    assert(!is_whitespace(id[id.len() - 1]));
    lemma_trimmed_is_identity(row);
    assert(all_of(prefix, CharClass::NotAlphanumeric)) by {
        assert forall|j: int| 0 <= j < prefix.len() implies CharClass::NotAlphanumeric.holds(
            #[trigger] prefix[j],
        ) by {
            if j > 0 {
                assert(prefix[j] == lead[j - 1]);
            }
        }
    }
    assert(rest[0] == columns[0]);
    lemma_skip_class_strips(prefix, rest, CharClass::NotAlphanumeric);
    lemma_tokens_before_gap(columns, gap);
    lemma_word_is_last_token(columns + gap, id);
    lemma_tokens_exist(columns, 0);
}

/// A listing with a row `<glyph> <alias> … <identifier>` on a line of its
/// own reports that identifier, whatever else the listing holds, where no
/// line before the row is a row of a model. `before` is empty or ends with a
/// line feed, `after` is empty or begins with one, and `clean` is free of
/// escape sequences.
pub proof fn lemma_listing_with_printed_row(
    before: Seq<char>,
    glyph: char,
    lead: Seq<char>,
    columns: Seq<char>,
    gap: Seq<char>,
    id: Seq<char>,
    after: Seq<char>,
)
    requires
        is_printed_row(glyph, lead, columns, gap, id),
        free_of(printed_row(glyph, lead, columns, gap, id), CharClass::LineFeed),
        before.len() > 0 ==> before.last() == '\n',
        after.len() > 0 ==> after[0] == '\n',
        forall|j: int| 0 <= j < lines(before).len() ==> model_row(#[trigger] lines(before)[j])
            is None,
    ensures
        model_id_in(before + printed_row(glyph, lead, columns, gap, id) + after) == Some(id),
{
    let row = printed_row(glyph, lead, columns, gap, id);
    let whole = before + row + after;
    assert(row.last() == id[id.len() - 1]);
    assert(!is_whitespace(id[id.len() - 1]));
    lemma_row_is_a_line(before, row, after);
    lemma_printed_row_gives_last_column(glyph, lead, columns, gap, id);
    let k = lines(before).len() as int;
    assert forall|j: int| 0 <= j < k implies model_row(#[trigger] lines(whole)[j]) is None by {
        assert(lines(whole)[j] == lines(before)[j]);
    }
    lemma_first_glyph_id_is_first(lines(whole), k);
}

/// The identifier that rows report is that of the first row of a model.
pub proof fn lemma_first_glyph_id_is_first(rows: Seq<Seq<char>>, k: int)
    requires
        0 <= k < rows.len(),
        model_row(rows[k]) is Some,
        forall|j: int| 0 <= j < k ==> model_row(#[trigger] rows[j]) is None,
    ensures
        first_glyph_id(rows) == Some(model_row(rows[k])->0.resolved_id),
    decreases k,
{
    if k > 0 {
        assert(model_row(rows[0]) is None);
        let rest = rows.skip(1);
        assert forall|j: int| 0 <= j < k - 1 implies model_row(#[trigger] rest[j]) is None by {
            assert(rest[j] == rows[j + 1]);
        }
        lemma_first_glyph_id_is_first(rest, k - 1);
    }
}

/// The endpoint that rows report ends with the version segment.
pub proof fn lemma_first_endpoint_ends_with_version_segment(rows: Seq<Seq<char>>)
    ensures
        first_endpoint(rows) matches Some(url) ==> ends_with_version_segment(url),
    decreases rows.len(),
{
    if rows.len() > 0 {
        match first_capture(URL_PATTERN@, rows[0]) {
            Some(raw) => {
                lemma_normalized_ends_with_version_segment(
                    drop_class(raw, CharClass::Punctuation),
                );
            },
            None => {
                lemma_first_endpoint_ends_with_version_segment(rows.skip(1));
            },
        }
    }
}

/// Whatever the console text holds, the endpoint read out of it ends with
/// the version segment.
pub proof fn lemma_endpoint_ends_with_version_segment(output: Seq<char>)
    ensures
        endpoint_url(output) matches Some(url) ==> ends_with_version_segment(url),
{
    lemma_first_endpoint_ends_with_version_segment(lines(sanitized(output)));
}

/// Removes the terminal escape sequences from `input`.
pub fn strip_ansi(input: &str) -> (clean: String)
    ensures
        clean@ == sanitized(input@),
{
    match replace_all(ANSI_ESCAPE, input, "") {
        Ok(clean) => clean,
        // The pattern is one of the library's own, which compile.
        Err(_) => unreached(),
    }
}

/// What `normalize_base_url` keeps of an address.
fn origin_of(url: &Vec<char>) -> (kept: Vec<char>)
    ensures
        kept@ == origin(url@),
{
    proof {
        reveal_strlit("://");
        lemma_position_from(url@, scheme_separator(), 0);
    }
    match find(url, &to_chars("://")) {
        Some(at) => {
            let end = url.len();
            assert(at + 3 <= end) by {
                assert(occurs_at(url@, scheme_separator(), at as int));
            }
            let rest = slice(url, at + 3, end);
            assert(rest@ =~= url@.skip(at + 3));
            proof {
                reveal_strlit("/");
                lemma_position_from(rest@, "/"@, 0);
            }
            match find(&rest, &to_chars("/")) {
                Some(slash) => {
                    assert(url@.subrange(0, at + 3 + slash) =~= url@.take(at + 3 + slash));
                    slice(url, 0, at + 3 + slash)
                },
                None => trim_end(url, CharClass::Slash),
            }
        },
        None => trim_end(url, CharClass::Slash),
    }
}

/// Turns an address that the program reports into the address of the
/// inference endpoint on the same host: scheme, host and port are kept, the
/// path is replaced by the version segment.
pub fn normalize_base_url(url: &str) -> (base: String)
    ensures
        base@ == normalized(url@),
        ends_with_version_segment(base@),
{
    let chars = to_chars(url);
    let kept = origin_of(&chars);
    let whole = append(&kept, &to_chars("/v1"));
    proof {
        lemma_normalized_ends_with_version_segment(url@);
    }
    from_chars(&whole)
}

/// The endpoint that the matched address `raw` stands for.
pub fn endpoint_from_match(raw: &str) -> (base: String)
    ensures
        base@ == endpoint_of_match(raw@),
        ends_with_version_segment(base@),
{
    let chars = to_chars(raw);
    let bare = trim_end(&chars, CharClass::Punctuation);
    let kept = origin_of(&bare);
    let whole = append(&kept, &to_chars("/v1"));
    proof {
        lemma_normalized_ends_with_version_segment(bare@);
    }
    from_chars(&whole)
}

/// Finds the first address in `clean`, a text without escape sequences, and
/// returns the endpoint it stands for.
///
/// The text is searched line by line. The result is the endpoint that the
/// first line with an address reports, and `ParseNotFound` exactly where no
/// line holds an address.
pub fn find_endpoint_url(clean: &str) -> (out: Result<String, FoundryError>)
    ensures
        match out {
            Ok(url) => first_endpoint(lines(clean@)) == Some(url@) && ends_with_version_segment(
                url@,
            ),
            Err(e) => e@ == Failure::ParseNotFound(Field::EndpointUrl) && first_endpoint(
                lines(clean@),
            ) is None,
        },
{
    let rows = split_lines(&to_chars(clean));
    let mut i: usize = 0;
    assert(views(rows@).skip(0) =~= views(rows@));
    while i < rows.len()
        invariant
            i <= rows.len(),
            views(rows@) == lines(clean@),
            first_endpoint(views(rows@)) == first_endpoint(views(rows@).skip(i as int)),
        decreases rows.len() - i,
    {
        let line = from_chars(&rows[i]);
        assert(views(rows@).skip(i as int)[0] == line@);
        assert(views(rows@).skip(i as int).skip(1) =~= views(rows@).skip(i + 1));
        match capture_first(URL_PATTERN, line.as_str()) {
            Ok(Some(raw)) => {
                return Ok(endpoint_from_match(raw.as_str()));
            },
            Ok(None) => {},
            Err(_) => {
                // The pattern is one of the library's own, which compile.
                return unreached();
            },
        }
        i += 1;
    }
    Err(FoundryError::ParseNotFound(Field::EndpointUrl))
}

/// Finds the first address in `output` and returns the endpoint it stands
/// for.
///
/// The text is cleaned of escape sequences and then searched as
/// `find_endpoint_url` does. The result is the endpoint of `endpoint_url`,
/// and `ParseNotFound` exactly where no line holds an address.
pub fn extract_endpoint_url(output: &str) -> (out: Result<String, FoundryError>)
    ensures
        match out {
            Ok(url) => endpoint_url(output@) == Some(url@) && ends_with_version_segment(url@),
            Err(e) => e@ == Failure::ParseNotFound(Field::EndpointUrl) && endpoint_url(output@)
                is None,
        },
{
    let clean = strip_ansi(output);
    find_endpoint_url(clean.as_str())
}

/// Tests `c` for being a status glyph.
fn char_is_status_glyph(c: char) -> (b: bool)
    ensures
        b == is_status_glyph(c),
{
    c == '\u{1F7E2}' || c == '\u{1F7E1}' || c == '\u{1F7E0}' || c == '\u{1F534}'
}

/// The state that the status glyph `glyph` stands for.
fn indicator_of(glyph: char) -> (indicator: StatusIndicator)
    ensures
        indicator == indicated(glyph),
{
    if glyph == '\u{1F7E2}' {
        StatusIndicator::Ready
    } else if glyph == '\u{1F7E1}' {
        StatusIndicator::Loading
    } else if glyph == '\u{1F534}' {
        StatusIndicator::Stopped
    } else {
        StatusIndicator::Unknown
    }
}

/// Reads one row of a listing of models.
fn read_model_row(line: &Vec<char>) -> (found: Option<ModelDescriptor>)
    ensures
        found.deep_view() == model_row(line@),
{
    let row = trim(line);
    if row.len() == 0 || !char_is_status_glyph(row[0]) {
        return None;
    }
    let columns = split_whitespace(&trim_start(&row, CharClass::NotAlphanumeric));
    if columns.len() >= 2 {
        let first = &columns[0];
        let last = &columns[columns.len() - 1];
        assert(views(columns@)[0] == first@);
        assert(views(columns@).last() == last@);
        Some(
            ModelDescriptor {
                alias: from_chars(first),
                resolved_id: from_chars(last),
                status_indicator: indicator_of(row[0]),
            },
        )
    } else {
        None
    }
}

/// Reads one row of a listing of models: the alias, the identifier and the
/// state of a model, or `None` where the row is not one of a model.
pub fn parse_model_row(line: &str) -> (found: Option<ModelDescriptor>)
    ensures
        found.deep_view() == model_row(line@),
{
    read_model_row(&to_chars(line))
}

/// The model identifier in the first row of `clean` that begins with a status
/// glyph and has two columns or more. `clean` is a listing without escape
/// sequences.
pub fn glyph_model_id(clean: &str) -> (id: Option<String>)
    ensures
        id.deep_view() == first_glyph_id(lines(clean@)),
{
    let rows = split_lines(&to_chars(clean));
    let mut i: usize = 0;
    assert(views(rows@).skip(0) =~= views(rows@));
    while i < rows.len()
        invariant
            i <= rows.len(),
            views(rows@) == lines(clean@),
            first_glyph_id(views(rows@)) == first_glyph_id(views(rows@).skip(i as int)),
        decreases rows.len() - i,
    {
        assert(views(rows@).skip(i as int)[0] == rows@[i as int]@);
        assert(views(rows@).skip(i as int).skip(1) =~= views(rows@).skip(i + 1));
        match read_model_row(&rows[i]) {
            Some(found) => {
                return Some(found.resolved_id);
            },
            None => {},
        }
        i += 1;
    }
    None
}

/// Finds the identifier of the loaded model in `clean`, a listing without
/// escape sequences.
///
/// The result is the identifier of `model_id_in`: that of the first row of a
/// model, else the first name with a revision in the text; and
/// `ParseNotFound` exactly where there is neither.
pub fn find_model_id(clean: &str) -> (out: Result<String, FoundryError>)
    ensures
        match out {
            Ok(id) => model_id_in(clean@) == Some(id@),
            Err(e) => e@ == Failure::ParseNotFound(Field::ModelId) && model_id_in(clean@) is None,
        },
{
    match glyph_model_id(clean) {
        Some(id) => Ok(id),
        None => match capture_first(MODEL_ID_PATTERN, clean) {
            Ok(Some(id)) => Ok(id),
            Ok(None) => Err(FoundryError::ParseNotFound(Field::ModelId)),
            // The pattern is one of the library's own, which compile.
            Err(_) => unreached(),
        },
    }
}

/// Finds the identifier of the loaded model in `output`, a listing of the
/// models that the service runs.
///
/// The text is cleaned of escape sequences and then searched as
/// `find_model_id` does. The result is the identifier of `model_id`, and
/// `ParseNotFound` exactly where the text holds none.
pub fn extract_model_id(output: &str) -> (out: Result<String, FoundryError>)
    ensures
        match out {
            Ok(id) => model_id(output@) == Some(id@),
            Err(e) => e@ == Failure::ParseNotFound(Field::ModelId) && model_id(output@) is None,
        },
{
    let clean = strip_ansi(output);
    find_model_id(clean.as_str())
}

/// The model name in one line of a model listing.
fn listed_model_name(line: &Vec<char>) -> (name: Option<Vec<char>>)
    ensures
        match name {
            Some(found) => listed_name(line@) == Some(found@),
            None => listed_name(line@) is None,
        },
{
    if trim(line).len() == 0 || has(line, &to_chars("NAME")) || has(line, &to_chars("--------")) {
        return None;
    }
    let columns = split_whitespace(line);
    if columns.len() > 0 {
        let first = &columns[0];
        assert(views(columns@)[0] == first@);
        Some(slice(first, 0, first.len()))
    } else {
        None
    }
}

/// The model names in `listing`, the text of a model listing: the first
/// column of every line that is not blank, a header or a divider.
pub fn extract_model_names(listing: &str) -> (names: Vec<String>)
    ensures
        names.deep_view() == listed_names(lines(listing@)),
{
    let rows = split_lines(&to_chars(listing));
    let mut names: Vec<String> = Vec::new();
    let mut i: usize = 0;
    assert(string_views(names@) =~= listed_names(views(rows@).take(0)));
    while i < rows.len()
        invariant
            i <= rows.len(),
            views(rows@) == lines(listing@),
            string_views(names@) == listed_names(views(rows@).take(i as int)),
        decreases rows.len() - i,
    {
        assert(views(rows@).take(i + 1).drop_last() =~= views(rows@).take(i as int));
        assert(views(rows@).take(i + 1).last() == rows@[i as int]@);
        match listed_model_name(&rows[i]) {
            Some(found) => {
                let ghost before = names@;
                names.push(from_chars(&found));
                assert(string_views(names@) =~= string_views(before).push(found@));
            },
            None => {},
        }
        i += 1;
    }
    assert(views(rows@).take(rows.len() as int) =~= views(rows@));
    assert(names.deep_view() =~= string_views(names@));
    names
}

/// The first line of `output` without the whitespace around it.
pub fn extract_first_line(output: &str) -> (line: String)
    ensures
        line@ == first_line(output@),
{
    let rows = split_lines(&to_chars(output));
    if rows.len() > 0 {
        assert(views(rows@)[0] == rows@[0]@);
        from_chars(&trim(&rows[0]))
    } else {
        String::new()
    }
}

/// Tests whether `phrase` stands somewhere in `text`.
pub fn text_contains(text: &str, phrase: &str) -> (found: bool)
    ensures
        found == contains(text@, phrase@),
{
    has(&to_chars(text), &to_chars(phrase))
}

/// Tests whether `phrase` stands in `text` when capital letters are made
/// small. The ASCII capital letters are looked at by themselves, so that a
/// phrase in the text is found whatever lowercasing does to the characters
/// around it.
pub fn text_mentions(text: &str, phrase: &str) -> (found: bool)
    ensures
        found == mentions(text@, phrase@),
{
    let wanted = to_chars(phrase);
    if has(&to_ascii_lowercase(&to_chars(text)), &wanted) {
        return true;
    }
    let lower = to_lowercase(text);
    has(&to_chars(lower.as_str()), &wanted)
}

/// Tests whether a line of `listing`, in lowercase, holds the lowercase form
/// of `name`.
pub fn listing_names(listing: &str, name: &str) -> (found: bool)
    ensures
        found == some_row_names(lines(listing@), name@),
{
    let wanted = to_chars(to_lowercase(name).as_str());
    let rows = split_lines(&to_chars(listing));
    let mut i: usize = 0;
    while i < rows.len()
        invariant
            i <= rows.len(),
            views(rows@) == lines(listing@),
            wanted@ == lowercased(name@),
            forall|k: int| 0 <= k < i ==> !contains(lowercased(views(rows@)[k]), wanted@),
        decreases rows.len() - i,
    {
        let line = from_chars(&rows[i]);
        assert(views(rows@)[i as int] == line@);
        let lower = to_chars(to_lowercase(line.as_str()).as_str());
        if has(&lower, &wanted) {
            return true;
        }
        i += 1;
    }
    false
}

} // verus!
