//! Character sequences: substring search and splitting into lines.
//!
//! Everything here is stated over `Seq<char>`, the view of `str` and `String`.

use vstd::prelude::*;
use vstd::slice::slice_subrange;

verus! {

/// `needle` occurs in `hay` starting at index `at`.
pub open spec fn occurs_at(hay: Seq<char>, needle: Seq<char>, at: int) -> bool {
    &&& 0 <= at
    &&& at + needle.len() <= hay.len()
    &&& hay.subrange(at, at + needle.len()) == needle
}

/// `needle` occurs somewhere in `hay`. The empty sequence occurs everywhere.
pub open spec fn contains(hay: Seq<char>, needle: Seq<char>) -> bool {
    exists|at: int| occurs_at(hay, needle, at)
}

/// Index of the first line feed of `text`, or the length of `text` when it
/// holds none.
pub open spec fn line_end(text: Seq<char>) -> int
    decreases text.len(),
{
    if text.len() == 0 || text[0] == '\n' {
        0
    } else {
        1 + line_end(text.drop_first())
    }
}

/// `line` without its last character when that is a carriage return.
pub open spec fn without_cr(line: Seq<char>) -> Seq<char> {
    if line.len() > 0 && line.last() == '\r' {
        line.drop_last()
    } else {
        line
    }
}

/// The lines of `text`.
///
/// A line ends at a line feed, or at a carriage return directly followed by
/// a line feed; neither belongs to the line. What follows the last line feed
/// is a line only if it is not empty, and it keeps a carriage return at its
/// end.
pub open spec fn lines(text: Seq<char>) -> Seq<Seq<char>>
    decreases text.len(),
{
    let end = line_end(text);
    if text.len() == 0 {
        Seq::empty()
    } else if 0 <= end < text.len() {
        seq![without_cr(text.subrange(0, end))] + lines(text.subrange(end + 1, text.len() as int))
    } else {
        seq![text]
    }
}

/// The predicate "contains `marker`".
pub open spec fn holds(marker: Seq<char>) -> spec_fn(Seq<char>) -> bool {
    |line: Seq<char>| contains(line, marker)
}

/// The lines of `text` in which `marker` occurs, in the order of `text`.
pub open spec fn lines_with(text: Seq<char>, marker: Seq<char>) -> Seq<Seq<char>> {
    lines(text).filter(holds(marker))
}

/// `line_end` is the one index that is a line feed or the end, with no line
/// feed before it.
pub proof fn lemma_line_end(text: Seq<char>, end: int)
    requires
        0 <= end <= text.len(),
        end == text.len() || text[end] == '\n',
        forall|k: int| 0 <= k < end ==> text[k] != '\n',
    ensures
        line_end(text) == end,
    decreases text.len(),
{
    if text.len() == 0 || text[0] == '\n' {
    } else {
        lemma_line_end(text.drop_first(), end - 1);
    }
}

/// `line_end` lies inside `text` or at its end, stands at a line feed unless
/// it is the end, and no line feed comes before it.
pub proof fn lemma_line_end_is_first(text: Seq<char>)
    ensures
        0 <= line_end(text) <= text.len(),
        line_end(text) < text.len() ==> text[line_end(text)] == '\n',
        forall|k: int| 0 <= k < line_end(text) ==> text[k] != '\n',
    decreases text.len(),
{
    if text.len() == 0 || text[0] == '\n' {
    } else {
        let rest = text.drop_first();
        lemma_line_end_is_first(rest);
        assert forall|k: int| 0 <= k < line_end(text) implies text[k] != '\n' by {
            if k > 0 {
                assert(text[k] == rest[k - 1]);
            }
        }
    }
}

/// `piece` is a stretch of `text`: the characters from one index up to
/// another.
pub open spec fn is_piece(text: Seq<char>, piece: Seq<char>) -> bool {
    exists|from: int, to: int|
        0 <= from <= to <= text.len() && piece == #[trigger] text.subrange(from, to)
}

/// A stretch of a stretch of `text` is a stretch of `text`.
pub proof fn lemma_piece_of_piece(text: Seq<char>, from: int, to: int, piece: Seq<char>)
    requires
        0 <= from <= to <= text.len(),
        is_piece(text.subrange(from, to), piece),
    ensures
        is_piece(text, piece),
{
    let part = text.subrange(from, to);
    let (a, b) = choose|a: int, b: int|
        0 <= a <= b <= part.len() && piece == #[trigger] part.subrange(a, b);
    assert(piece =~= text.subrange(from + a, from + b));
}

/// What occurs in a stretch of `text` occurs in `text`.
pub proof fn lemma_piece_contains(text: Seq<char>, piece: Seq<char>, needle: Seq<char>)
    requires
        is_piece(text, piece),
        contains(piece, needle),
    ensures
        contains(text, needle),
{
    let (from, to) = choose|from: int, to: int|
        0 <= from <= to <= text.len() && piece == #[trigger] text.subrange(from, to);
    let at = choose|at: int| occurs_at(piece, needle, at);
    assert(text.subrange(from + at, from + at + needle.len()) =~= piece.subrange(
        at,
        at + needle.len(),
    ));
    assert(occurs_at(text, needle, from + at));
}

/// A character of a stretch of `text` is a character of `text`.
pub proof fn lemma_piece_chars(text: Seq<char>, piece: Seq<char>, c: char)
    requires
        is_piece(text, piece),
        piece.contains(c),
    ensures
        text.contains(c),
{
    let (from, to) = choose|from: int, to: int|
        0 <= from <= to <= text.len() && piece == #[trigger] text.subrange(from, to);
    let k = choose|k: int| 0 <= k < piece.len() && piece[k] == c;
    assert(text[from + k] == c);
}

/// Every line of `text` is a stretch of `text` and holds no line feed.
pub proof fn lemma_lines_are_pieces(text: Seq<char>)
    ensures
        forall|i: int|
            0 <= i < lines(text).len() ==> is_piece(text, #[trigger] lines(text)[i]) && !lines(
                text,
            )[i].contains('\n'),
    decreases text.len(),
{
    let end = line_end(text);
    let total = text.len() as int;
    lemma_line_end_is_first(text);
    if total == 0 {
    } else if end < total {
        let head = text.subrange(0, end);
        let line = without_cr(head);
        let rest = text.subrange(end + 1, total);
        lemma_lines_are_pieces(rest);
        assert(is_piece(text, line)) by {
            if line == head {
                assert(line == text.subrange(0, end));
            } else {
                assert(line =~= text.subrange(0, end - 1));
            }
        }
        assert(!line.contains('\n')) by {
            if line.contains('\n') {
                let k = choose|k: int| 0 <= k < line.len() && line[k] == '\n';
                assert(text[k] == '\n');
            }
        }
        assert forall|i: int| 0 <= i < lines(text).len() implies is_piece(
            text,
            #[trigger] lines(text)[i],
        ) && !lines(text)[i].contains('\n') by {
            if i > 0 {
                assert(lines(text)[i] == lines(rest)[i - 1]);
                lemma_piece_of_piece(text, end + 1, total, lines(rest)[i - 1]);
            }
        }
    } else {
        assert(text == text.subrange(0, total));
        assert(!text.contains('\n'));
    }
}

/// Every line that `lines_with` keeps is a line of `text` in which `marker`
/// occurs: a stretch of `text` without a line feed.
pub proof fn lemma_lines_with(text: Seq<char>, marker: Seq<char>)
    ensures
        forall|i: int|
            0 <= i < lines_with(text, marker).len() ==> {
                &&& contains(#[trigger] lines_with(text, marker)[i], marker)
                &&& is_piece(text, lines_with(text, marker)[i])
                &&& !lines_with(text, marker)[i].contains('\n')
            },
{
    let kept = lines_with(text, marker);
    lemma_lines_are_pieces(text);
    assert forall|i: int| 0 <= i < kept.len() implies {
        &&& contains(#[trigger] kept[i], marker)
        &&& is_piece(text, kept[i])
        &&& !kept[i].contains('\n')
    } by {
        lines(text).lemma_filter_pred(holds(marker), i);
        assert(kept.contains(kept[i]));
        lines(text).lemma_filter_contains_rev(holds(marker), kept[i]);
        let k = choose|k: int| 0 <= k < lines(text).len() && lines(text)[k] == kept[i];
        assert(is_piece(text, lines(text)[k]));
    }
}

/// A text in which `marker` does not occur has no line in which it does.
pub proof fn lemma_no_marker_no_lines(text: Seq<char>, marker: Seq<char>)
    requires
        !contains(text, marker),
    ensures
        lines_with(text, marker).len() == 0,
{
    let kept = lines_with(text, marker);
    if kept.len() > 0 {
        lemma_lines_with(text, marker);
        lemma_piece_contains(text, kept[0], marker);
    }
}

/// The characters of `text`, in order.
pub fn to_chars(text: &str) -> (chars: Vec<char>)
    ensures
        chars@ == text@,
{
    let mut chars: Vec<char> = Vec::new();
    for c in it: text.chars()
        invariant
            chars@ == it.seq().take(it.index() as int),
            it.seq() == text@,
    {
        chars.push(c);
    }
    chars
}

/// Whether `c` is one of the characters of `text`.
pub fn has_char(text: &str, c: char) -> (found: bool)
    ensures
        found == text@.contains(c),
{
    let mut found = false;
    for d in it: text.chars()
        invariant
            found == (exists|k: int| 0 <= k < it.index() && text@[k] == c),
            it.seq() == text@,
    {
        if d == c {
            found = true;
        }
    }
    found
}

/// Whether `needle` stands in `chars` at index `at`.
fn stands_at(chars: &Vec<char>, at: usize, needle: &Vec<char>) -> (same: bool)
    requires
        at + needle.len() <= chars.len(),
    ensures
        same == (chars@.subrange(at as int, at + needle.len()) == needle@),
{
    let ghost window = chars@.subrange(at as int, at + needle.len());
    let mut j: usize = 0;
    while j < needle.len()
        invariant
            j <= needle.len(),
            at + needle.len() <= chars.len(),
            window == chars@.subrange(at as int, at + needle.len()),
            forall|k: int| 0 <= k < j ==> window[k] == needle@[k],
        decreases needle.len() - j,
    {
        if chars[at + j] != needle[j] {
            assert(window[j as int] != needle@[j as int]);
            return false;
        }
        j += 1;
    }
    assert(window =~= needle@);
    true
}

/// Whether `needle` occurs in the characters of `chars` from `from` up to,
/// not including, `to`.
fn range_contains(chars: &Vec<char>, from: usize, to: usize, needle: &Vec<char>) -> (found: bool)
    requires
        from <= to <= chars.len(),
    ensures
        found == contains(chars@.subrange(from as int, to as int), needle@),
{
    let ghost hay = chars@.subrange(from as int, to as int);
    let width: usize = needle.len();
    if width > to - from {
        assert(!contains(hay, needle@));
        return false;
    }
    let last: usize = to - width;
    let mut at: usize = from;
    while at < last
        invariant
            from <= at <= last,
            last + width == to,
            to <= chars.len(),
            width == needle.len(),
            hay == chars@.subrange(from as int, to as int),
            forall|k: int| 0 <= k < at - from ==> !occurs_at(hay, needle@, k),
        decreases last - at,
    {
        assert(hay.subrange(at - from, at - from + width) =~= chars@.subrange(
            at as int,
            at + width,
        ));
        if stands_at(chars, at, needle) {
            assert(occurs_at(hay, needle@, at - from));
            return true;
        }
        at += 1;
    }
    assert(hay.subrange(last - from, last - from + width) =~= chars@.subrange(
        last as int,
        last + width,
    ));
    let found = stands_at(chars, last, needle);
    assert(found == occurs_at(hay, needle@, last - from));
    found
}

/// Offset of the end of the line that starts at `from`: the first line feed
/// at or after `from`, or the length of `chars`.
fn scan_line(chars: &Vec<char>, from: usize) -> (end: usize)
    requires
        from <= chars.len(),
    ensures
        from <= end <= chars.len(),
        end - from == line_end(chars@.subrange(from as int, chars.len() as int)),
{
    let mut end: usize = from;
    while end < chars.len() && chars[end] != '\n'
        invariant
            from <= end <= chars.len(),
            forall|k: int| from <= k < end ==> chars@[k] != '\n',
        decreases chars.len() - end,
    {
        end += 1;
    }
    proof {
        lemma_line_end(chars@.subrange(from as int, chars.len() as int), end - from);
    }
    end
}

/// A string of the characters of `chars`: `String::from_iter`, which
/// collects the items of an iterator of characters, in order, into a string.
/// The contract says just that: the string holds these characters.
#[verifier::external_body]
fn string_of(chars: &[char]) -> (text: String)
    ensures
        text@ == chars@,
{
    String::from_iter(chars)
}

/// The lines of `text` in which `marker` occurs, in the order of `text`.
pub fn marked_lines(text: &str, marker: &str) -> (found: Vec<String>)
    ensures
        found.deep_view() == lines_with(text@, marker@),
{
    let chars = to_chars(text);
    let needle = to_chars(marker);
    let total: usize = chars.len();
    let mut found: Vec<String> = Vec::new();
    let mut from: usize = 0;
    assert(chars@.subrange(0, total as int) =~= text@);
    while from < total
        invariant
            from <= total == chars.len(),
            needle@ == marker@,
            lines_with(text@, marker@) == found.deep_view() + lines_with(
                chars@.subrange(from as int, total as int),
                marker@,
            ),
        decreases total - from,
    {
        let ghost rest = chars@.subrange(from as int, total as int);
        let ghost before = found.deep_view();
        let end = scan_line(&chars, from);
        let ended = end < total;
        let stop: usize = if ended && end > from && chars[end - 1] == '\r' {
            end - 1
        } else {
            end
        };
        let next: usize = if ended {
            end + 1
        } else {
            end
        };
        let ghost line = chars@.subrange(from as int, stop as int);
        let ghost tail = chars@.subrange(next as int, total as int);
        proof {
            if ended {
                assert(rest.subrange(0, end - from) =~= chars@.subrange(from as int, end as int));
                assert(rest.subrange(end - from + 1, rest.len() as int) =~= tail);
                assert(without_cr(chars@.subrange(from as int, end as int)) =~= line);
                assert(lines(rest) == seq![line] + lines(tail));
            } else {
                assert(line =~= rest && tail.len() == 0);
                assert(lines(rest) =~= seq![line] + lines(tail));
            }
            lines(tail).lemma_filter_prepend(line, holds(marker@));
        }
        if range_contains(&chars, from, stop, &needle) {
            let row = string_of(slice_subrange(chars.as_slice(), from, stop));
            found.push(row);
            assert(found.deep_view() =~= before.push(line));
            assert(before.push(line) + lines_with(tail, marker@) =~= before + (seq![line]
                + lines_with(tail, marker@)));
        } else {
            assert(Seq::<Seq<char>>::empty() + lines_with(tail, marker@) =~= lines_with(
                tail,
                marker@,
            ));
        }
        from = next;
    }
    proof {
        reveal(Seq::filter);
        assert(lines_with(chars@.subrange(from as int, total as int), marker@).len() == 0);
    }
    found
}

} // verus!
