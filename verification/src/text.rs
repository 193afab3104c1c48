//! Character sequences: searching, splitting and trimming.
//!
//! The contracts speak of `Seq<char>`; the executable functions work on
//! `Vec<char>`, which `to_chars` and `from_chars` convert from and to strings.

use crate::unicode::{char_is_whitespace, is_whitespace, push_char};
use vstd::prelude::*;

verus! {

/// A set of characters that the splitting and trimming functions look for.
#[derive(Clone, Copy, Debug)]
pub enum CharClass {
    /// Characters with the Unicode `White_Space` property.
    Whitespace,
    /// The line feed.
    LineFeed,
    /// Everything but the ASCII letters and digits.
    NotAlphanumeric,
    /// The slash.
    Slash,
    /// The full stop and the comma.
    Punctuation,
}

/// Whether `c` is an ASCII letter or digit.
pub open spec fn is_ascii_alphanumeric(c: char) -> bool {
    ('a' <= c <= 'z') || ('A' <= c <= 'Z') || ('0' <= c <= '9')
}

impl CharClass {
    /// Whether `c` belongs to the class.
    pub open spec fn holds(self, c: char) -> bool {
        match self {
            CharClass::Whitespace => is_whitespace(c),
            CharClass::LineFeed => c == '\n',
            CharClass::NotAlphanumeric => !is_ascii_alphanumeric(c),
            CharClass::Slash => c == '/',
            CharClass::Punctuation => c == '.' || c == ',',
        }
    }

    /// Tests `c` for membership.
    pub fn test(&self, c: char) -> (b: bool)
        ensures
            b == self.holds(c),
    {
        match self {
            CharClass::Whitespace => char_is_whitespace(c),
            CharClass::LineFeed => c == '\n',
            CharClass::NotAlphanumeric => !((c >= 'a' && c <= 'z') || (c >= 'A' && c <= 'Z') || (c
                >= '0' && c <= '9')),
            CharClass::Slash => c == '/',
            CharClass::Punctuation => c == '.' || c == ',',
        }
    }
}

/// The views of a vector of character vectors, in order.
pub open spec fn views(items: Seq<Vec<char>>) -> Seq<Seq<char>> {
    Seq::new(items.len(), |i: int| items[i]@)
}

/// The views of a vector of strings, in order.
pub open spec fn string_views(items: Seq<String>) -> Seq<Seq<char>> {
    Seq::new(items.len(), |i: int| items[i]@)
}

/// Whether `pattern` stands in `text` at index `at`.
pub open spec fn occurs_at(text: Seq<char>, pattern: Seq<char>, at: int) -> bool {
    &&& 0 <= at
    &&& at + pattern.len() <= text.len()
    &&& text.subrange(at, at + pattern.len()) == pattern
}

/// Whether `pattern` stands somewhere in `text`.
pub open spec fn contains(text: Seq<char>, pattern: Seq<char>) -> bool {
    exists|at: int| occurs_at(text, pattern, at)
}

/// The least index at or after `from` where `pattern` stands in `text`.
pub open spec fn position_from(text: Seq<char>, pattern: Seq<char>, from: int) -> Option<int>
    decreases text.len() + 1 - from,
{
    if from < 0 || from + pattern.len() > text.len() {
        None
    } else if occurs_at(text, pattern, from) {
        Some(from)
    } else {
        position_from(text, pattern, from + 1)
    }
}

/// The least index where `pattern` stands in `text`.
pub open spec fn position(text: Seq<char>, pattern: Seq<char>) -> Option<int> {
    position_from(text, pattern, 0)
}

/// `position_from` finds an occurrence, the first one from `from` on, exactly
/// when there is one.
pub proof fn lemma_position_from(text: Seq<char>, pattern: Seq<char>, from: int)
    requires
        0 <= from,
    ensures
        match position_from(text, pattern, from) {
            Some(at) => {
                &&& from <= at
                &&& occurs_at(text, pattern, at)
                &&& forall|j: int| from <= j < at ==> !occurs_at(text, pattern, j)
            },
            None => forall|j: int| from <= j ==> !occurs_at(text, pattern, j),
        },
    decreases text.len() + 1 - from,
{
    if from + pattern.len() > text.len() {
    } else if occurs_at(text, pattern, from) {
    } else {
        lemma_position_from(text, pattern, from + 1);
    }
}

/// A text contains a pattern exactly when the pattern has a position in it.
pub proof fn lemma_position_contains(text: Seq<char>, pattern: Seq<char>)
    ensures
        contains(text, pattern) <==> position(text, pattern) is Some,
{
    lemma_position_from(text, pattern, 0);
    if contains(text, pattern) {
        let at = choose|at: int| occurs_at(text, pattern, at);
        assert(occurs_at(text, pattern, at));
    }
}

/// `text` without its longest prefix of characters of `class`.
pub open spec fn skip_class(text: Seq<char>, class: CharClass) -> Seq<char>
    decreases text.len(),
{
    if text.len() > 0 && class.holds(text[0]) {
        skip_class(text.skip(1), class)
    } else {
        text
    }
}

/// `text` without its longest suffix of characters of `class`.
pub open spec fn drop_class(text: Seq<char>, class: CharClass) -> Seq<char>
    decreases text.len(),
{
    if text.len() > 0 && class.holds(text.last()) {
        drop_class(text.drop_last(), class)
    } else {
        text
    }
}

/// `text` without leading and trailing whitespace.
pub open spec fn trimmed(text: Seq<char>) -> Seq<char> {
    drop_class(skip_class(text, CharClass::Whitespace), CharClass::Whitespace)
}

/// The pieces that the characters of `class` cut `text` into: one more than
/// there are such characters, and empty where two of them meet.
pub open spec fn pieces(text: Seq<char>, class: CharClass) -> Seq<Seq<char>>
    decreases text.len(),
{
    if text.len() == 0 {
        seq![Seq::<char>::empty()]
    } else {
        let before = pieces(text.drop_last(), class);
        if class.holds(text.last()) {
            before.push(Seq::<char>::empty())
        } else {
            before.drop_last().push(before.last().push(text.last()))
        }
    }
}

/// The pieces of `items` that are not empty, in order.
pub open spec fn nonempty(items: Seq<Seq<char>>) -> Seq<Seq<char>>
    decreases items.len(),
{
    if items.len() == 0 {
        Seq::<Seq<char>>::empty()
    } else if items.last().len() > 0 {
        nonempty(items.drop_last()).push(items.last())
    } else {
        nonempty(items.drop_last())
    }
}

/// The maximal runs of characters of `text` that are not whitespace.
pub open spec fn tokens(text: Seq<char>) -> Seq<Seq<char>> {
    nonempty(pieces(text, CharClass::Whitespace))
}

/// `line` without one carriage return at its end.
pub open spec fn without_carriage_return(line: Seq<char>) -> Seq<char> {
    if line.len() > 0 && line.last() == '\r' {
        line.drop_last()
    } else {
        line
    }
}

/// The lines of `text`. A line ends at a line feed, or at a carriage return
/// and a line feed; what follows the last line feed is a line if it is not
/// empty, and keeps a carriage return at its end.
pub open spec fn lines(text: Seq<char>) -> Seq<Seq<char>> {
    let cut = pieces(text, CharClass::LineFeed);
    let ended = Seq::new((cut.len() - 1) as nat, |i: int| without_carriage_return(cut[i]));
    if cut.last().len() > 0 {
        ended.push(cut.last())
    } else {
        ended
    }
}

/// `pieces` yields at least one piece.
pub proof fn lemma_pieces_len(text: Seq<char>, class: CharClass)
    ensures
        pieces(text, class).len() >= 1,
    decreases text.len(),
{
    if text.len() > 0 {
        lemma_pieces_len(text.drop_last(), class);
    }
}

/// Whether no character of `text` belongs to `class`.
pub open spec fn free_of(text: Seq<char>, class: CharClass) -> bool {
    forall|j: int| 0 <= j < text.len() ==> !class.holds(#[trigger] text[j])
}

/// `skip_class` yields the end of its argument, and what it yields does not
/// begin with a character of the class.
pub proof fn lemma_skip_class_is_suffix(text: Seq<char>, class: CharClass)
    ensures
        skip_class(text, class).len() <= text.len(),
        skip_class(text, class) == text.skip(text.len() - skip_class(text, class).len()),
        skip_class(text, class).len() > 0 ==> !class.holds(skip_class(text, class)[0]),
    decreases text.len(),
{
    if text.len() > 0 && class.holds(text[0]) {
        lemma_skip_class_is_suffix(text.skip(1), class);
        let rest = skip_class(text.skip(1), class);
        assert(text.skip(1).skip(text.skip(1).len() - rest.len()) =~= text.skip(
            text.len() - rest.len(),
        ));
    } else {
        assert(text.skip(0) =~= text);
    }
}

/// `drop_class` yields the beginning of its argument, and what it yields does
/// not end with a character of the class.
pub proof fn lemma_drop_class_is_prefix(text: Seq<char>, class: CharClass)
    ensures
        drop_class(text, class).is_prefix_of(text),
        drop_class(text, class).len() > 0 ==> !class.holds(drop_class(text, class).last()),
    decreases text.len(),
{
    if text.len() > 0 && class.holds(text.last()) {
        lemma_drop_class_is_prefix(text.drop_last(), class);
    }
}

/// A trimmed text neither begins nor ends with whitespace.
pub proof fn lemma_trimmed_has_no_margin(text: Seq<char>)
    ensures
        trimmed(text).len() > 0 ==> !is_whitespace(trimmed(text)[0]) && !is_whitespace(
            trimmed(text).last(),
        ),
{
    let inner = skip_class(text, CharClass::Whitespace);
    lemma_skip_class_is_suffix(text, CharClass::Whitespace);
    lemma_drop_class_is_prefix(inner, CharClass::Whitespace);
    if trimmed(text).len() > 0 {
        assert(trimmed(text)[0] == inner[0]);
    }
}

/// No piece holds a character of the class that cut the text.
pub proof fn lemma_pieces_are_free(text: Seq<char>, class: CharClass)
    ensures
        forall|i: int|
            0 <= i < pieces(text, class).len() ==> free_of(#[trigger] pieces(text, class)[i], class),
    decreases text.len(),
{
    if text.len() > 0 {
        lemma_pieces_are_free(text.drop_last(), class);
        lemma_pieces_len(text.drop_last(), class);
        let before = pieces(text.drop_last(), class);
        let now = pieces(text, class);
        assert forall|i: int| 0 <= i < now.len() implies free_of(#[trigger] now[i], class) by {
            if i < before.len() - 1 {
                assert(now[i] == before[i]);
            } else if class.holds(text.last()) {
                if i < before.len() {
                    assert(now[i] == before[i]);
                }
            } else {
                assert(free_of(before[before.len() - 1], class));
            }
        }
    }
}

/// What `nonempty` keeps is not empty, and free of a class where every item
/// is.
pub proof fn lemma_nonempty_keeps(items: Seq<Seq<char>>, class: CharClass)
    requires
        forall|i: int| 0 <= i < items.len() ==> free_of(#[trigger] items[i], class),
    ensures
        forall|k: int|
            0 <= k < nonempty(items).len() ==> (#[trigger] nonempty(items)[k]).len() > 0
                && free_of(nonempty(items)[k], class),
    decreases items.len(),
{
    if items.len() > 0 {
        let earlier = items.drop_last();
        assert forall|i: int| 0 <= i < earlier.len() implies free_of(
            #[trigger] earlier[i],
            class,
        ) by {
            assert(earlier[i] == items[i]);
        }
        lemma_nonempty_keeps(earlier, class);
        let kept = nonempty(items);
        assert forall|k: int| 0 <= k < kept.len() implies (#[trigger] kept[k]).len() > 0
            && free_of(kept[k], class) by {
            if k < nonempty(earlier).len() {
                assert(kept[k] == nonempty(earlier)[k]);
            } else {
                assert(kept[k] == items[items.len() - 1]);
            }
        }
    }
}

/// A token is a word: it is not empty and holds no whitespace.
pub proof fn lemma_tokens_are_words(text: Seq<char>)
    ensures
        forall|k: int|
            0 <= k < tokens(text).len() ==> (#[trigger] tokens(text)[k]).len() > 0 && free_of(
                tokens(text)[k],
                CharClass::Whitespace,
            ),
{
    lemma_pieces_are_free(text, CharClass::Whitespace);
    lemma_nonempty_keeps(pieces(text, CharClass::Whitespace), CharClass::Whitespace);
}

/// A line holds no line feed.
pub proof fn lemma_lines_hold_no_line_feed(text: Seq<char>)
    ensures
        forall|k: int|
            0 <= k < lines(text).len() ==> free_of(#[trigger] lines(text)[k], CharClass::LineFeed),
{
    lemma_pieces_are_free(text, CharClass::LineFeed);
    lemma_pieces_len(text, CharClass::LineFeed);
    let cut = pieces(text, CharClass::LineFeed);
    assert forall|k: int| 0 <= k < lines(text).len() implies free_of(
        #[trigger] lines(text)[k],
        CharClass::LineFeed,
    ) by {
        if k < cut.len() - 1 {
            assert(free_of(cut[k], CharClass::LineFeed));
            assert(lines(text)[k] == without_carriage_return(cut[k]));
        } else {
            assert(free_of(cut[cut.len() - 1], CharClass::LineFeed));
        }
    }
}

/// Whether every character of `text` belongs to `class`.
pub open spec fn all_of(text: Seq<char>, class: CharClass) -> bool {
    forall|j: int| 0 <= j < text.len() ==> class.holds(#[trigger] text[j])
}

/// What one more character does to the pieces: a character of the class
/// begins a new, empty piece; any other makes the last piece longer.
pub proof fn lemma_pieces_push(text: Seq<char>, c: char, class: CharClass)
    ensures
        pieces(text, class).len() >= 1,
        pieces(text.push(c), class) == if class.holds(c) {
            pieces(text, class).push(Seq::<char>::empty())
        } else {
            pieces(text, class).drop_last().push(pieces(text, class).last().push(c))
        },
{
    lemma_pieces_len(text, class);
    assert(text.push(c).drop_last() =~= text);
}

/// Characters outside the class make the last piece longer and leave the
/// pieces before it as they are.
pub proof fn lemma_pieces_grow(text: Seq<char>, part: Seq<char>, class: CharClass)
    requires
        free_of(part, class),
    ensures
        pieces(text, class).len() >= 1,
        pieces(text + part, class) == pieces(text, class).drop_last().push(
            pieces(text, class).last() + part,
        ),
    decreases part.len(),
{
    lemma_pieces_len(text, class);
    let before = pieces(text, class);
    if part.len() == 0 {
        assert(text + part =~= text);
        assert(before.drop_last().push(before.last() + part) =~= before);
    } else {
        let shorter = part.drop_last();
        let c = part.last();
        assert(free_of(shorter, class)) by {
            assert forall|j: int| 0 <= j < shorter.len() implies !class.holds(
                #[trigger] shorter[j],
            ) by {
                assert(shorter[j] == part[j]);
            }
        }
        lemma_pieces_grow(text, shorter, class);
        lemma_pieces_push(text + shorter, c, class);
        assert(text + part =~= (text + shorter).push(c));
        assert(!class.holds(part[part.len() - 1]));
        let grown = before.drop_last().push(before.last() + shorter);
        assert(grown.drop_last() =~= before.drop_last());
        assert((before.last() + shorter).push(c) =~= before.last() + part);
    }
}

/// Whitespace behind a text adds no token, and leaves the last piece empty.
pub proof fn lemma_tokens_before_gap(text: Seq<char>, gap: Seq<char>)
    requires
        gap.len() > 0,
        all_of(gap, CharClass::Whitespace),
    ensures
        pieces(text + gap, CharClass::Whitespace).len() >= 1,
        pieces(text + gap, CharClass::Whitespace).last() == Seq::<char>::empty(),
        tokens(text + gap) == tokens(text),
    decreases gap.len(),
{
    let class = CharClass::Whitespace;
    let shorter = gap.drop_last();
    let c = gap.last();
    assert(class.holds(gap[gap.len() - 1]));
    assert(text + gap =~= (text + shorter).push(c));
    lemma_pieces_push(text + shorter, c, class);
    let before = pieces(text + shorter, class);
    assert(before.push(Seq::<char>::empty()).drop_last() =~= before);
    if shorter.len() == 0 {
        assert(text + shorter =~= text);
    } else {
        assert(all_of(shorter, class)) by {
            assert forall|j: int| 0 <= j < shorter.len() implies class.holds(
                #[trigger] shorter[j],
            ) by {
                assert(shorter[j] == gap[j]);
            }
        }
        lemma_tokens_before_gap(text, shorter);
    }
}

/// A word behind a text that is empty or ends with whitespace is one more
/// token, the last.
pub proof fn lemma_word_is_last_token(text: Seq<char>, word: Seq<char>)
    requires
        pieces(text, CharClass::Whitespace).last() == Seq::<char>::empty(),
        word.len() > 0,
        free_of(word, CharClass::Whitespace),
    ensures
        tokens(text + word) == tokens(text).push(word),
{
    let class = CharClass::Whitespace;
    lemma_pieces_grow(text, word, class);
    let before = pieces(text, class);
    assert(before.last() + word =~= word);
    let now = before.drop_last().push(word);
    assert(now.drop_last() =~= before.drop_last());
}

/// A text that holds a character that is not whitespace has a token.
pub proof fn lemma_tokens_exist(text: Seq<char>, at: int)
    requires
        0 <= at < text.len(),
        !is_whitespace(text[at]),
    ensures
        tokens(text).len() >= 1,
    decreases text.len(),
{
    let class = CharClass::Whitespace;
    let shorter = text.drop_last();
    let c = text.last();
    assert(shorter.push(c) =~= text);
    lemma_pieces_push(shorter, c, class);
    let before = pieces(shorter, class);
    if class.holds(c) {
        assert(before.push(Seq::<char>::empty()).drop_last() =~= before);
        assert(shorter[at] == text[at]);
        lemma_tokens_exist(shorter, at);
    } else {
        let now = before.drop_last().push(before.last().push(c));
        assert(now.last().len() > 0);
    }
}

/// Characters of the class before a text that does not begin with one are
/// what `skip_class` removes.
pub proof fn lemma_skip_class_strips(prefix: Seq<char>, rest: Seq<char>, class: CharClass)
    requires
        all_of(prefix, class),
        rest.len() > 0 ==> !class.holds(rest[0]),
    ensures
        skip_class(prefix + rest, class) == rest,
    decreases prefix.len(),
{
    if prefix.len() == 0 {
        assert(prefix + rest =~= rest);
    } else {
        let whole = prefix + rest;
        assert(whole[0] == prefix[0]);
        let shorter = prefix.skip(1);
        assert(whole.skip(1) =~= shorter + rest);
        assert(all_of(shorter, class)) by {
            assert forall|j: int| 0 <= j < shorter.len() implies class.holds(
                #[trigger] shorter[j],
            ) by {
                assert(shorter[j] == prefix[j + 1]);
            }
        }
        lemma_skip_class_strips(shorter, rest, class);
    }
}

/// A text that neither begins nor ends with whitespace is its own trimmed
/// form.
pub proof fn lemma_trimmed_is_identity(text: Seq<char>)
    requires
        text.len() > 0,
        !is_whitespace(text[0]),
        !is_whitespace(text.last()),
    ensures
        trimmed(text) == text,
{
}

/// More text behind a text changes none of its pieces but the last.
pub proof fn lemma_pieces_are_stable(text: Seq<char>, more: Seq<char>, class: CharClass)
    ensures
        pieces(text, class).len() >= 1,
        pieces(text + more, class).len() >= pieces(text, class).len(),
        forall|i: int|
            0 <= i < pieces(text, class).len() - 1 ==> #[trigger] pieces(text + more, class)[i]
                == pieces(text, class)[i],
    decreases more.len(),
{
    lemma_pieces_len(text, class);
    if more.len() == 0 {
        assert(text + more =~= text);
    } else {
        let shorter = more.drop_last();
        let c = more.last();
        assert(text + more =~= (text + shorter).push(c));
        lemma_pieces_are_stable(text, shorter, class);
        lemma_pieces_push(text + shorter, c, class);
        let before = pieces(text + shorter, class);
        let now = pieces(text + more, class);
        assert forall|i: int| 0 <= i < pieces(text, class).len() - 1 implies #[trigger] now[i]
            == pieces(text, class)[i] by {
            assert(now[i] == before[i]);
        }
    }
}

/// A row that stands in a text on a line of its own is one of the lines of
/// the text, and the lines before it are the lines of what stands before
/// it. `before` is empty or ends with a line feed, `after` is empty or
/// begins with one.
pub proof fn lemma_row_is_a_line(before: Seq<char>, row: Seq<char>, after: Seq<char>)
    requires
        before.len() > 0 ==> before.last() == '\n',
        after.len() > 0 ==> after[0] == '\n',
        row.len() > 0,
        free_of(row, CharClass::LineFeed),
        row.last() != '\r',
    ensures
        lines(before).len() < lines(before + row + after).len(),
        lines(before + row + after)[lines(before).len() as int] == row,
        forall|j: int|
            0 <= j < lines(before).len() ==> #[trigger] lines(before + row + after)[j] == lines(
                before,
            )[j],
{
    let class = CharClass::LineFeed;
    let head = pieces(before, class);
    lemma_pieces_len(before, class);
    // What stands before the row ends with an empty piece.
    assert(head.last() == Seq::<char>::empty()) by {
        if before.len() > 0 {
            assert(before.drop_last().push('\n') =~= before);
            lemma_pieces_push(before.drop_last(), '\n', class);
        }
    }
    let k = head.len() - 1;
    assert(lines(before).len() == k);
    // With the row the last piece is the row.
    lemma_pieces_grow(before, row, class);
    let with_row = pieces(before + row, class);
    assert(head.last() + row =~= row);
    assert(with_row.len() == k + 1);
    assert(with_row[k] == row);
    assert forall|j: int| 0 <= j < k implies with_row[j] == head[j] by {}
    let whole = before + row + after;
    let cut = pieces(whole, class);
    if after.len() == 0 {
        assert(whole =~= before + row);
    } else {
        let ended = (before + row).push('\n');
        let rest = after.skip(1);
        assert(whole =~= ended + rest);
        lemma_pieces_push(before + row, '\n', class);
        lemma_pieces_are_stable(ended, rest, class);
        assert(pieces(ended, class).len() == k + 2);
        assert forall|j: int| 0 <= j <= k implies cut[j] == with_row[j] by {
            assert(cut[j] == pieces(ended, class)[j]);
        }
    }
    assert(cut.len() >= k + 1);
    assert(cut[k] == row);
    assert forall|j: int| 0 <= j < k implies cut[j] == head[j] by {}
    assert(without_carriage_return(row) == row);
}

/// `c` with an ASCII capital letter made small; any other character as it
/// is.
pub open spec fn ascii_lower(c: char) -> char {
    if 'A' <= c <= 'Z' {
        ((c as u8 + 32) as u8) as char
    } else {
        c
    }
}

/// `text` with its ASCII capital letters made small.
pub open spec fn ascii_lowercased(text: Seq<char>) -> Seq<char> {
    Seq::new(text.len(), |i: int| ascii_lower(text[i]))
}

/// Whether `text` holds no ASCII capital letter.
pub open spec fn has_no_capital(text: Seq<char>) -> bool {
    forall|j: int| 0 <= j < text.len() ==> !('A' <= #[trigger] text[j] <= 'Z')
}

/// A phrase without capital letters that stands in a text stands in it
/// still when the ASCII capital letters of the text are made small.
pub proof fn lemma_found_as_written(text: Seq<char>, phrase: Seq<char>)
    requires
        contains(text, phrase),
        has_no_capital(phrase),
    ensures
        contains(ascii_lowercased(text), phrase),
{
    let at = choose|at: int| occurs_at(text, phrase, at);
    let small = ascii_lowercased(text);
    assert(small.subrange(at, at + phrase.len()) =~= phrase) by {
        assert forall|j: int| 0 <= j < phrase.len() implies small[at + j] == phrase[j] by {
            assert(text.subrange(at, at + phrase.len())[j] == text[at + j]);
        }
    }
    assert(occurs_at(small, phrase, at));
}

/// `text` with its ASCII capital letters made small.
pub fn to_ascii_lowercase(text: &Vec<char>) -> (small: Vec<char>)
    ensures
        small@ == ascii_lowercased(text@),
{
    let mut small: Vec<char> = Vec::new();
    let mut i: usize = 0;
    while i < text.len()
        invariant
            i <= text.len(),
            small@ == ascii_lowercased(text@).take(i as int),
        decreases text.len() - i,
    {
        let c = text[i];
        let folded = if c >= 'A' && c <= 'Z' {
            ((c as u8) + 32) as char
        } else {
            c
        };
        small.push(folded);
        i += 1;
        assert(small@ =~= ascii_lowercased(text@).take(i as int));
    }
    assert(ascii_lowercased(text@).take(text.len() as int) =~= ascii_lowercased(text@));
    small
}

/// The character that stands for the decimal digit `d`.
pub open spec fn digit(d: int) -> char {
    if d == 0 {
        '0'
    } else if d == 1 {
        '1'
    } else if d == 2 {
        '2'
    } else if d == 3 {
        '3'
    } else if d == 4 {
        '4'
    } else if d == 5 {
        '5'
    } else if d == 6 {
        '6'
    } else if d == 7 {
        '7'
    } else if d == 8 {
        '8'
    } else {
        '9'
    }
}

/// The natural number `n` in decimal digits, without leading zeros.
pub open spec fn decimal(n: nat) -> Seq<char>
    decreases n,
{
    if n < 10 {
        seq![digit(n as int)]
    } else {
        decimal(n / 10).push(digit((n % 10) as int))
    }
}

/// The integer `n` in decimal digits, with a minus sign where it is
/// negative.
pub open spec fn signed_decimal(n: int) -> Seq<char> {
    if n < 0 {
        seq!['-'] + decimal((-n) as nat)
    } else {
        decimal(n as nat)
    }
}

/// The character that stands for the decimal digit `d`.
fn digit_char(d: u32) -> (c: char)
    requires
        d < 10,
    ensures
        c == digit(d as int),
{
    if d == 0 {
        '0'
    } else if d == 1 {
        '1'
    } else if d == 2 {
        '2'
    } else if d == 3 {
        '3'
    } else if d == 4 {
        '4'
    } else if d == 5 {
        '5'
    } else if d == 6 {
        '6'
    } else if d == 7 {
        '7'
    } else if d == 8 {
        '8'
    } else {
        '9'
    }
}

/// The number `n` in decimal digits.
pub fn decimal_of(n: u32) -> (digits: Vec<char>)
    ensures
        digits@ == decimal(n as nat),
    decreases n,
{
    if n < 10 {
        let mut digits: Vec<char> = Vec::new();
        digits.push(digit_char(n));
        assert(digits@ =~= seq![digit(n as int)]);
        digits
    } else {
        let mut digits = decimal_of(n / 10);
        digits.push(digit_char(n % 10));
        digits
    }
}

/// The number `n` in decimal digits, with a minus sign where it is negative.
pub fn signed_decimal_of(n: i32) -> (digits: Vec<char>)
    ensures
        digits@ == signed_decimal(n as int),
{
    if n < 0 {
        let size: u32 = if n == i32::MIN {
            2147483648u32
        } else {
            (-n) as u32
        };
        let mut digits: Vec<char> = Vec::new();
        digits.push('-');
        assert(digits@ =~= seq!['-']);
        append(&digits, &decimal_of(size))
    } else {
        decimal_of(n as u32)
    }
}

/// The characters of a string.
pub fn to_chars(text: &str) -> (chars: Vec<char>)
    ensures
        chars@ == text@,
{
    let mut chars: Vec<char> = Vec::new();
    for c in it: text.chars()
        invariant
            chars@ == it.seq().take(it.index()),
    {
        chars.push(c);
    }
    chars
}

/// The string made of `chars`.
pub fn from_chars(chars: &Vec<char>) -> (text: String)
    ensures
        text@ == chars@,
{
    let mut text = String::new();
    let mut i: usize = 0;
    while i < chars.len()
        invariant
            i <= chars.len(),
            text@ == chars@.take(i as int),
        decreases chars.len() - i,
    {
        push_char(&mut text, chars[i]);
        i += 1;
        assert(chars@.take(i as int) == chars@.take(i - 1).push(chars@[i - 1]));
    }
    assert(chars@.take(chars.len() as int) == chars@);
    text
}

/// The characters of `text` from `from` up to `to`.
pub fn slice(text: &Vec<char>, from: usize, to: usize) -> (part: Vec<char>)
    requires
        from <= to <= text.len(),
    ensures
        part@ == text@.subrange(from as int, to as int),
{
    let mut part: Vec<char> = Vec::new();
    let mut i: usize = from;
    while i < to
        invariant
            from <= i <= to <= text.len(),
            part@ == text@.subrange(from as int, i as int),
        decreases to - i,
    {
        part.push(text[i]);
        i += 1;
    }
    part
}

/// `head` followed by `tail`.
pub fn append(head: &Vec<char>, tail: &Vec<char>) -> (joined: Vec<char>)
    ensures
        joined@ == head@ + tail@,
{
    let mut joined: Vec<char> = Vec::new();
    let mut i: usize = 0;
    while i < head.len()
        invariant
            i <= head.len(),
            joined@ == head@.take(i as int),
        decreases head.len() - i,
    {
        joined.push(head[i]);
        i += 1;
    }
    let mut j: usize = 0;
    while j < tail.len()
        invariant
            j <= tail.len(),
            joined@ == head@ + tail@.take(j as int),
        decreases tail.len() - j,
    {
        joined.push(tail[j]);
        j += 1;
    }
    joined
}

/// Tests whether `pattern` stands in `text` at index `at`.
pub fn matches_at(text: &Vec<char>, pattern: &Vec<char>, at: usize) -> (found: bool)
    ensures
        found == occurs_at(text@, pattern@, at as int),
{
    if pattern.len() > text.len() || at > text.len() - pattern.len() {
        return false;
    }
    let mut i: usize = 0;
    while i < pattern.len()
        invariant
            i <= pattern.len(),
            at + pattern.len() <= text.len(),
            forall|k: int| 0 <= k < i ==> text@[at + k] == pattern@[k],
        decreases pattern.len() - i,
    {
        if text[at + i] != pattern[i] {
            proof {
                let part = text@.subrange(at as int, at + pattern.len());
                assert(part[i as int] != pattern@[i as int]);
            }
            return false;
        }
        i += 1;
    }
    assert(text@.subrange(at as int, at + pattern.len()) =~= pattern@);
    true
}

/// The least index where `pattern` stands in `text`.
pub fn find(text: &Vec<char>, pattern: &Vec<char>) -> (found: Option<usize>)
    ensures
        match found {
            Some(at) => position(text@, pattern@) == Some(at as int),
            None => position(text@, pattern@) is None,
        },
{
    let mut at: usize = 0;
    loop
        invariant
            at <= text.len(),
            position(text@, pattern@) == position_from(text@, pattern@, at as int),
        decreases text.len() - at,
    {
        if pattern.len() > text.len() - at {
            return None;
        }
        if matches_at(text, pattern, at) {
            return Some(at);
        }
        assert(at < text.len()) by {
            if at == text.len() {
                assert(text@.subrange(at as int, at + pattern.len()) =~= pattern@);
            }
        }
        at += 1;
    }
}

/// Tests whether `pattern` stands somewhere in `text`.
pub fn has(text: &Vec<char>, pattern: &Vec<char>) -> (found: bool)
    ensures
        found == contains(text@, pattern@),
{
    proof {
        lemma_position_contains(text@, pattern@);
    }
    find(text, pattern).is_some()
}

/// `text` without its longest prefix of characters of `class`.
pub fn trim_start(text: &Vec<char>, class: CharClass) -> (rest: Vec<char>)
    ensures
        rest@ == skip_class(text@, class),
{
    let mut i: usize = 0;
    assert(text@.skip(0) =~= text@);
    while i < text.len()
        invariant
            i <= text.len(),
            skip_class(text@, class) == skip_class(text@.skip(i as int), class),
        decreases text.len() - i,
    {
        if !class.test(text[i]) {
            assert(text@.subrange(i as int, text.len() as int) =~= text@.skip(i as int));
            return slice(text, i, text.len());
        }
        assert(text@.skip(i as int).skip(1) =~= text@.skip(i + 1));
        i += 1;
    }
    assert(text@.subrange(i as int, text.len() as int) =~= text@.skip(i as int));
    slice(text, i, text.len())
}

/// `text` without its longest suffix of characters of `class`.
pub fn trim_end(text: &Vec<char>, class: CharClass) -> (rest: Vec<char>)
    ensures
        rest@ == drop_class(text@, class),
{
    let mut j: usize = text.len();
    assert(text@.take(j as int) =~= text@);
    while j > 0
        invariant
            j <= text.len(),
            drop_class(text@, class) == drop_class(text@.take(j as int), class),
        decreases j,
    {
        if !class.test(text[j - 1]) {
            assert(text@.subrange(0, j as int) =~= text@.take(j as int));
            return slice(text, 0, j);
        }
        assert(text@.take(j as int).drop_last() =~= text@.take(j - 1));
        j -= 1;
    }
    assert(text@.subrange(0, j as int) =~= text@.take(j as int));
    slice(text, 0, j)
}

/// `text` without leading and trailing whitespace.
pub fn trim(text: &Vec<char>) -> (rest: Vec<char>)
    ensures
        rest@ == trimmed(text@),
{
    let start = trim_start(text, CharClass::Whitespace);
    trim_end(&start, CharClass::Whitespace)
}

/// Cuts `text` at every character of `class`.
pub fn split(text: &Vec<char>, class: CharClass) -> (parts: Vec<Vec<char>>)
    ensures
        views(parts@) == pieces(text@, class),
{
    let mut parts: Vec<Vec<char>> = Vec::new();
    let mut current: Vec<char> = Vec::new();
    let mut i: usize = 0;
    assert(views(parts@).push(current@) =~= pieces(text@.take(0), class));
    while i < text.len()
        invariant
            i <= text.len(),
            pieces(text@.take(i as int), class) == views(parts@).push(current@),
        decreases text.len() - i,
    {
        let c = text[i];
        proof {
            assert(text@.take(i + 1).drop_last() =~= text@.take(i as int));
        }
        if class.test(c) {
            let ghost before = parts@;
            parts.push(current);
            current = Vec::new();
            assert(views(parts@) =~= views(before).push(parts@.last()@));
        } else {
            current.push(c);
            assert(views(parts@).push(current@).drop_last() =~= views(parts@));
        }
        i += 1;
    }
    let ghost before = parts@;
    parts.push(current);
    assert(views(parts@) =~= views(before).push(parts@.last()@));
    assert(text@.take(text.len() as int) =~= text@);
    parts
}

/// The maximal runs of characters of `text` that are not whitespace.
pub fn split_whitespace(text: &Vec<char>) -> (words: Vec<Vec<char>>)
    ensures
        views(words@) == tokens(text@),
{
    let mut words: Vec<Vec<char>> = Vec::new();
    let mut current: Vec<char> = Vec::new();
    let mut i: usize = 0;
    assert(views(words@) =~= nonempty(pieces(text@.take(0), CharClass::Whitespace).drop_last()));
    while i < text.len()
        invariant
            i <= text.len(),
            pieces(text@.take(i as int), CharClass::Whitespace).len() >= 1,
            views(words@) == nonempty(
                pieces(text@.take(i as int), CharClass::Whitespace).drop_last(),
            ),
            current@ == pieces(text@.take(i as int), CharClass::Whitespace).last(),
        decreases text.len() - i,
    {
        let c = text[i];
        let ghost cut = pieces(text@.take(i as int), CharClass::Whitespace);
        proof {
            assert(text@.take(i + 1).drop_last() =~= text@.take(i as int));
        }
        if char_is_whitespace(c) {
            assert(cut.push(Seq::<char>::empty()).drop_last() =~= cut);
            if current.len() > 0 {
                let ghost before = words@;
                words.push(current);
                assert(views(words@) =~= views(before).push(words@.last()@));
            }
            current = Vec::new();
        } else {
            current.push(c);
            assert(cut.drop_last().push(cut.last().push(c)).drop_last() =~= cut.drop_last());
        }
        i += 1;
    }
    assert(text@.take(text.len() as int) =~= text@);
    if current.len() > 0 {
        let ghost before = words@;
        words.push(current);
        assert(views(words@) =~= views(before).push(words@.last()@));
    }
    words
}

/// The lines of `text`.
pub fn split_lines(text: &Vec<char>) -> (out: Vec<Vec<char>>)
    ensures
        views(out@) == lines(text@),
{
    let cut = split(text, CharClass::LineFeed);
    proof {
        lemma_pieces_len(text@, CharClass::LineFeed);
    }
    let mut out: Vec<Vec<char>> = Vec::new();
    let mut i: usize = 0;
    while i + 1 < cut.len()
        invariant
            cut.len() >= 1,
            i + 1 <= cut.len(),
            views(out@) == Seq::new(i as nat, |k: int| without_carriage_return(views(cut@)[k])),
        decreases cut.len() - i,
    {
        let piece = &cut[i];
        let n = piece.len();
        let line = if n > 0 && piece[n - 1] == '\r' {
            slice(piece, 0, n - 1)
        } else {
            slice(piece, 0, n)
        };
        assert(line@ =~= without_carriage_return(views(cut@)[i as int]));
        let ghost before = out@;
        out.push(line);
        assert(views(out@) =~= views(before).push(line@));
        i += 1;
        assert(views(out@) =~= Seq::new(
            i as nat,
            |k: int| without_carriage_return(views(cut@)[k]),
        ));
    }
    let last = &cut[cut.len() - 1];
    if last.len() > 0 {
        let line = slice(last, 0, last.len());
        assert(line@ =~= views(cut@).last());
        let ghost before = out@;
        out.push(line);
        assert(views(out@) =~= views(before).push(line@));
    }
    out
}

} // verus!
