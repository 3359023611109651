//! The stored form of a file: plain text, every line ended by a line feed.

use crate::text::{chars_of, find_from, lemma_run_before, run_before, string_of, views};
use vstd::prelude::*;

verus! {

/// A line with its line feed.
pub open spec fn terminated(line: Seq<char>) -> Seq<char> {
    line.push('\n')
}

/// The text that stores `lines`: each line, the last too, followed by a
/// line feed.
pub open spec fn stored_text(lines: Seq<Seq<char>>) -> Seq<char> {
    lines.map_values(|line: Seq<char>| terminated(line)).flatten()
}

/// A line without the carriage return that stood before its line feed.
pub open spec fn without_carriage_return(line: Seq<char>) -> Seq<char> {
    if line.len() > 0 && line.last() == '\r' {
        line.drop_last()
    } else {
        line
    }
}

/// The lines of a stored text. A line ends at a line feed, or at a carriage
/// return followed by a line feed; the terminator is no part of the line.
/// A last line needs no terminator, and a text that ends with one has no
/// empty line after it.
pub open spec fn text_lines(text: Seq<char>) -> Seq<Seq<char>>
    decreases text.len(),
{
    let end = run_before(text, '\n');
    if text.len() == 0 {
        Seq::empty()
    } else if end < 0 || end >= text.len() {
        seq![text]
    } else {
        seq![without_carriage_return(text.take(end))] + text_lines(text.skip(end + 1))
    }
}

/// The text that stores some lines starts with the first of them and its
/// line feed, and goes on with the text that stores the others.
pub proof fn lemma_stored_text_unfolds(lines: Seq<Seq<char>>)
    requires
        lines.len() > 0,
    ensures
        stored_text(lines) == terminated(lines[0]) + stored_text(lines.skip(1)),
{
    let f = |line: Seq<char>| terminated(line);
    assert(lines.map_values(f).drop_first() =~= lines.skip(1).map_values(f));
}

/// Lines that are stored and read again are the lines that were stored,
/// as long as none of them holds a line feed or ends with a carriage
/// return.
pub proof fn lemma_stored_lines_come_back(lines: Seq<Seq<char>>)
    requires
        forall|i: int, j: int|
            0 <= i < lines.len() && 0 <= j < lines[i].len() ==> lines[i][j] != '\n',
        forall|i: int| 0 <= i < lines.len() && lines[i].len() > 0 ==> lines[i].last() != '\r',
    ensures
        text_lines(stored_text(lines)) == lines,
    decreases lines.len(),
{
    let text = stored_text(lines);
    if lines.len() == 0 {
        assert(text =~= Seq::<char>::empty());
        assert(text_lines(text) =~= lines);
    } else {
        let first = lines[0];
        let rest = lines.skip(1);
        lemma_stored_text_unfolds(lines);
        lemma_stored_lines_come_back(rest);
        assert forall|i: int| 0 <= i < first.len() implies text[i] != '\n' by {
            assert(text[i] == first[i]);
        }
        lemma_run_before(text, '\n', first.len() as int);
        assert(text.take(first.len() as int) =~= first);
        assert(text.skip(first.len() as int + 1) =~= stored_text(rest));
        assert(seq![first] + rest =~= lines);
    }
}

/// Serializes lines for storage.
pub fn join_lines(lines: &Vec<String>) -> (text: String)
    ensures
        text@ == stored_text(views(lines@)),
{
    let mut text = String::new();
    let mut i: usize = 0;
    assert(views(lines@).take(0) =~= Seq::<Seq<char>>::empty());
    while i < lines.len()
        invariant
            i <= lines.len(),
            text@ == stored_text(views(lines@).take(i as int)),
        decreases lines.len() - i,
    {
        proof {
            let done = views(lines@).take(i as int);
            let f = |line: Seq<char>| terminated(line);
            assert(views(lines@).take(i + 1) =~= done.push(lines[i as int]@));
            assert(done.push(lines[i as int]@).map_values(f) =~= done.map_values(f).push(
                terminated(lines[i as int]@),
            ));
            done.map_values(f).lemma_flatten_push(terminated(lines[i as int]@));
        }
        text.append(lines[i].as_str());
        text.push('\n');
        i = i + 1;
    }
    assert(views(lines@).take(lines.len() as int) =~= views(lines@));
    text
}

/// Parses a stored text into its lines.
pub fn split_lines(text: &str) -> (lines: Vec<String>)
    ensures
        views(lines@) == text_lines(text@),
{
    let chars = chars_of(text);
    let mut lines: Vec<String> = Vec::new();
    let mut start: usize = 0;
    assert(text@.skip(0) =~= text@);
    assert(views(lines@) + text_lines(text@.skip(0)) =~= text_lines(text@));
    while start < chars.len()
        invariant
            start <= chars.len(),
            chars@ == text@,
            views(lines@) + text_lines(text@.skip(start as int)) == text_lines(text@),
        decreases chars.len() - start,
    {
        let end = find_from(&chars, start, '\n');
        let ghost rest = text@.skip(start as int);
        let ghost done = views(lines@);
        if end == chars.len() {
            lines.push(string_of(&chars, start, end));
            start = end;
            proof {
                assert(chars@.subrange(start as int, end as int) =~= chars@.skip(end as int));
                assert(text_lines(text@.skip(end as int)) =~= Seq::<Seq<char>>::empty());
                assert(views(lines@) =~= done + seq![rest]);
                assert(text_lines(rest) =~= seq![rest]);
            }
        } else {
            let stop = if end > start && chars[end - 1] == '\r' {
                end - 1
            } else {
                end
            };
            let line = string_of(&chars, start, stop);
            proof {
                assert(rest.take(end - start) =~= chars@.subrange(start as int, end as int));
                assert(line@ =~= without_carriage_return(rest.take(end - start)));
                assert(rest.skip(end - start + 1) =~= text@.skip(end + 1));
            }
            lines.push(line);
            start = end + 1;
            proof {
                assert(views(lines@) =~= done + seq![line@]);
                assert(views(lines@) + text_lines(text@.skip(start as int)) =~= done
                    + text_lines(rest));
            }
        }
    }
    assert(text_lines(text@.skip(start as int)) =~= Seq::<Seq<char>>::empty());
    assert(views(lines@) + Seq::<Seq<char>>::empty() =~= views(lines@));
    lines
}

} // verus!
