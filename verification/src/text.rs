//! Text primitives: grapheme segmentation and the few string operations the
//! editor is built from.

use unicode_segmentation::UnicodeSegmentation;
use vstd::prelude::*;

verus! {

/// The extended grapheme clusters of a text, in order.
pub uninterp spec fn grapheme_clusters(text: Seq<char>) -> Seq<Seq<char>>;

/// The number of grapheme clusters of a text: the length a cursor column is
/// measured against.
pub open spec fn grapheme_count(text: Seq<char>) -> nat {
    grapheme_clusters(text).len()
}

/// The text made of the first `k` grapheme clusters.
pub open spec fn graphemes_before(text: Seq<char>, k: int) -> Seq<char> {
    grapheme_clusters(text).take(k).flatten()
}

/// The text made of all grapheme clusters but the first `k`.
pub open spec fn graphemes_from(text: Seq<char>, k: int) -> Seq<char> {
    grapheme_clusters(text).skip(k).flatten()
}

/// The clusters of a text, joined again, are the text. Every segmentation
/// that was computed has this property; a buffer keeps it on record for the
/// line its cursor is on.
pub open spec fn segmented(text: Seq<char>) -> bool {
    grapheme_clusters(text).flatten() == text
}

/// The views of a sequence of strings.
pub open spec fn views(parts: Seq<String>) -> Seq<Seq<char>> {
    Seq::new(parts.len(), |i: int| parts[i]@)
}

/// Calls `UnicodeSegmentation::graphemes` for extended clusters and copies
/// each cluster into a `String`. The iterator hands out consecutive slices
/// of its input, from the start to the end, so their concatenation is the
/// input.
#[verifier::external_body]
pub(crate) fn split_graphemes(text: &str) -> (parts: Vec<String>)
    ensures
        views(parts@) == grapheme_clusters(text@),
        views(parts@).flatten() == text@,
{
    text.graphemes(true).map(|g| g.to_string()).collect()
}

/// `String::push` appends one character.
pub assume_specification[ String::push ](s: &mut String, ch: char)
    ensures
        final(s)@ == old(s)@.push(ch),
;

/// Splitting a sequence of texts in two and flattening both halves gives
/// the two halves of the flattened whole.
pub proof fn lemma_flatten_split(parts: Seq<Seq<char>>, k: int)
    requires
        0 <= k <= parts.len(),
    ensures
        parts.take(k).flatten() + parts.skip(k).flatten() == parts.flatten(),
{
    vstd::seq_lib::lemma_flatten_concat(parts.take(k), parts.skip(k));
    assert(parts.take(k) + parts.skip(k) =~= parts);
}

/// Concatenates `parts[from..to]`.
pub fn join(parts: &Vec<String>, from: usize, to: usize) -> (joined: String)
    requires
        from <= to <= parts.len(),
    ensures
        joined@ == views(parts@).subrange(from as int, to as int).flatten(),
{
    let mut joined = String::new();
    let mut i: usize = from;
    assert(views(parts@).subrange(from as int, from as int) =~= Seq::<Seq<char>>::empty());
    while i < to
        invariant
            from <= i <= to <= parts.len(),
            joined@ == views(parts@).subrange(from as int, i as int).flatten(),
        decreases to - i,
    {
        proof {
            let done = views(parts@).subrange(from as int, i as int);
            assert(views(parts@).subrange(from as int, i + 1) =~= done.push(parts[i as int]@));
            done.lemma_flatten_push(parts[i as int]@);
        }
        joined.append(parts[i].as_str());
        i = i + 1;
    }
    joined
}

/// The line made of `parts` with `c` put in before the part at `column`.
pub fn insert_into(parts: &Vec<String>, column: usize, c: char) -> (line: String)
    requires
        column <= parts.len(),
    ensures
        line@ == views(parts@).take(column as int).flatten().push(c) + views(parts@).skip(
            column as int,
        ).flatten(),
{
    let mut line = join(parts, 0, column);
    line.push(c);
    let right = join(parts, column, parts.len());
    line.append(right.as_str());
    line
}

/// The two lines that `parts` make when they are broken before the part at
/// `column`.
pub fn break_at(parts: &Vec<String>, column: usize) -> (lines: (String, String))
    requires
        column <= parts.len(),
    ensures
        lines.0@ == views(parts@).take(column as int).flatten(),
        lines.1@ == views(parts@).skip(column as int).flatten(),
{
    (join(parts, 0, column), join(parts, column, parts.len()))
}

/// The line made of `parts` without the part before `column`.
pub fn remove_before(parts: &Vec<String>, column: usize) -> (line: String)
    requires
        0 < column <= parts.len(),
    ensures
        line@ == views(parts@).take(column - 1).flatten() + views(parts@).skip(
            column as int,
        ).flatten(),
{
    let mut line = join(parts, 0, column - 1);
    let right = join(parts, column, parts.len());
    line.append(right.as_str());
    line
}

/// The line made of `parts` without the last of them; of no parts, the
/// empty line.
pub fn without_last(parts: &Vec<String>) -> (line: String)
    ensures
        line@ == if parts.len() == 0 {
            Seq::<char>::empty()
        } else {
            views(parts@).take(parts.len() - 1).flatten()
        },
{
    if parts.len() == 0 {
        String::new()
    } else {
        join(parts, 0, parts.len() - 1)
    }
}

/// Whether `longer` is `parts` with one more part put in before the part
/// at `column`, that part being the single character `c`.
pub fn is_insertion(longer: &Vec<String>, parts: &Vec<String>, column: usize, c: char) -> (so:
    bool)
    requires
        column <= parts.len(),
    ensures
        so == (views(longer@) == views(parts@).take(column as int).push(seq![c]) + views(
            parts@,
        ).skip(column as int)),
{
    let ghost wanted = views(parts@).take(column as int).push(seq![c]) + views(parts@).skip(
        column as int,
    );
    if longer.len() == 0 || longer.len() - 1 != parts.len() {
        assert(views(longer@).len() != wanted.len());
        return false;
    }
    let mut single = String::new();
    single.push(c);
    assert(single@ =~= seq![c]);
    let mut i: usize = 0;
    while i < longer.len()
        invariant
            i <= longer.len(),
            longer.len() == parts.len() + 1,
            column <= parts.len(),
            single@ == seq![c],
            wanted == views(parts@).take(column as int).push(seq![c]) + views(parts@).skip(
                column as int,
            ),
            forall|k: int| 0 <= k < i ==> views(longer@)[k] == wanted[k],
        decreases longer.len() - i,
    {
        let same = if i < column {
            same_text(longer[i].as_str(), parts[i].as_str())
        } else if i == column {
            same_text(longer[i].as_str(), single.as_str())
        } else {
            same_text(longer[i].as_str(), parts[i - 1].as_str())
        };
        if !same {
            assert(views(longer@)[i as int] != wanted[i as int]);
            return false;
        }
        i = i + 1;
    }
    assert(views(longer@) =~= wanted);
    true
}

/// How many characters of `text` stand before its first `mark`: all of
/// them where it holds none.
pub open spec fn run_before(text: Seq<char>, mark: char) -> int
    decreases text.len(),
{
    if text.len() == 0 || text[0] == mark {
        0
    } else {
        1 + run_before(text.skip(1), mark)
    }
}

/// The run before the first `mark` ends at `end` if no `mark` stands before
/// `end` and one stands there, or the text ends there.
pub proof fn lemma_run_before(text: Seq<char>, mark: char, end: int)
    requires
        0 <= end <= text.len(),
        forall|i: int| 0 <= i < end ==> text[i] != mark,
        end < text.len() ==> text[end] == mark,
    ensures
        run_before(text, mark) == end,
    decreases text.len(),
{
    if end > 0 {
        lemma_run_before(text.skip(1), mark, end - 1);
    }
}

/// The place of the first `mark` in `chars` at or after `start`, or the
/// length of `chars` where none follows.
pub fn find_from(chars: &Vec<char>, start: usize, mark: char) -> (end: usize)
    requires
        start <= chars.len(),
    ensures
        start <= end <= chars.len(),
        end - start == run_before(chars@.skip(start as int), mark),
{
    let mut end: usize = start;
    while end < chars.len() && chars[end] != mark
        invariant
            start <= end <= chars.len(),
            forall|i: int| start <= i < end ==> chars[i] != mark,
        decreases chars.len() - end,
    {
        end = end + 1;
    }
    proof {
        lemma_run_before(chars@.skip(start as int), mark, end - start);
    }
    end
}

/// Writes out `chars[from..to]` as a string.
pub fn string_of(chars: &Vec<char>, from: usize, to: usize) -> (s: String)
    requires
        from <= to <= chars.len(),
    ensures
        s@ == chars@.subrange(from as int, to as int),
{
    let mut s = String::new();
    let mut i: usize = from;
    while i < to
        invariant
            from <= i <= to <= chars.len(),
            s@ == chars@.subrange(from as int, i as int),
        decreases to - i,
    {
        s.push(chars[i]);
        i = i + 1;
        assert(s@ =~= chars@.subrange(from as int, i as int));
    }
    assert(s@ =~= chars@.subrange(from as int, to as int));
    s
}

/// Whether two strings hold the same text.
pub fn same_text(a: &str, b: &str) -> (same: bool)
    ensures
        same == (a@ == b@),
{
    a.to_owned() == b.to_owned()
}

/// The characters of a string, one by one.
pub fn chars_of(s: &str) -> (chars: Vec<char>)
    ensures
        chars@ == s@,
{
    let mut chars: Vec<char> = Vec::new();
    for c in it: s.chars()
        invariant
            chars@ == it.seq().take(it.index() as int),
    {
        chars.push(c);
    }
    chars
}

} // verus!
