//! Names in paths. A path is text in which `/` separates the components.

use crate::text::{chars_of, same_text, string_of};
use vstd::prelude::*;

verus! {

/// What follows the last `mark` in `text`: all of it where it holds none.
pub open spec fn after_last(text: Seq<char>, mark: char) -> Seq<char>
    decreases text.len(),
{
    if text.len() == 0 || text.last() == mark {
        Seq::empty()
    } else {
        after_last(text.drop_last(), mark).push(text.last())
    }
}

/// What follows the last `mark` starts at `from` if no `mark` stands at or
/// after `from` and one stands just before it, or the text starts there.
pub proof fn lemma_after_last(text: Seq<char>, mark: char, from: int)
    requires
        0 <= from <= text.len(),
        forall|i: int| from <= i < text.len() ==> text[i] != mark,
        from > 0 ==> text[from - 1] == mark,
    ensures
        after_last(text, mark) == text.skip(from),
    decreases text.len(),
{
    if from < text.len() {
        lemma_after_last(text.drop_last(), mark, from);
        assert(text.drop_last().skip(from).push(text.last()) =~= text.skip(from));
    } else {
        assert(text.skip(from) =~= Seq::<char>::empty());
    }
}

/// The name of the file a path leads to: the last of its components that
/// is neither empty nor the directory itself, `.`. There is none where that
/// component is the parent directory, `..`, and none where no such
/// component is left, as for the empty path and the root.
pub open spec fn file_name_of(path: Seq<char>) -> Option<Seq<char>>
    decreases path.len(),
{
    let last = after_last(path, '/');
    if last.len() == 0 || last == seq!['.'] {
        if last.len() < path.len() {
            file_name_of(path.take(path.len() - last.len() - 1))
        } else {
            None
        }
    } else if last == seq!['.', '.'] {
        None
    } else {
        Some(last)
    }
}

/// The extension of the file a path leads to: what follows the last dot of
/// its name. Empty where there is no name, no dot in it, or none but the
/// one it begins with.
pub open spec fn extension_of(path: Seq<char>) -> Seq<char> {
    match file_name_of(path) {
        Some(name) => {
            let extension = after_last(name, '.');
            if extension.len() + 1 < name.len() {
                extension
            } else {
                Seq::empty()
            }
        },
        None => Seq::empty(),
    }
}

/// Where in `chars[..to]` the part after the last `mark` starts.
fn start_after_last(chars: &Vec<char>, to: usize, mark: char) -> (from: usize)
    requires
        to <= chars.len(),
    ensures
        from <= to,
        chars@.subrange(from as int, to as int) == after_last(chars@.take(to as int), mark),
{
    let mut from: usize = to;
    while from > 0 && chars[from - 1] != mark
        invariant
            from <= to <= chars.len(),
            forall|i: int| from <= i < to ==> chars[i] != mark,
        decreases from,
    {
        from = from - 1;
    }
    proof {
        lemma_after_last(chars@.take(to as int), mark, from as int);
        assert(chars@.take(to as int).skip(from as int) =~= chars@.subrange(
            from as int,
            to as int,
        ));
    }
    from
}

/// The name of the file a path leads to.
pub fn file_name(path: &str) -> (name: Option<String>)
    ensures
        match name {
            Some(n) => file_name_of(path@) == Some(n@),
            None => file_name_of(path@) is None,
        },
{
    let chars = chars_of(path);
    let mut to: usize = chars.len();
    proof {
        reveal_strlit(".");
        reveal_strlit("..");
        assert("."@ =~= seq!['.']);
        assert(".."@ =~= seq!['.', '.']);
        assert(chars@.take(to as int) =~= chars@);
    }
    loop
        invariant
            to <= chars.len(),
            chars@ == path@,
            "."@ == seq!['.'],
            ".."@ == seq!['.', '.'],
            file_name_of(path@) == file_name_of(chars@.take(to as int)),
        decreases to,
    {
        let from = start_after_last(&chars, to, '/');
        let last = string_of(&chars, from, to);
        if from == to || same_text(last.as_str(), ".") {
            if from == 0 {
                return None;
            }
            proof {
                assert(chars@.take(to as int).take(from - 1) =~= chars@.take(from - 1));
            }
            to = from - 1;
        } else if same_text(last.as_str(), "..") {
            return None;
        } else {
            return Some(last);
        }
    }
}

/// The extension of the file a path leads to.
pub fn extension(path: &str) -> (extension: String)
    ensures
        extension@ == extension_of(path@),
{
    match file_name(path) {
        Some(name) => {
            let chars = chars_of(name.as_str());
            let from = start_after_last(&chars, chars.len(), '.');
            assert(chars@.take(chars.len() as int) =~= chars@);
            if from > 1 {
                string_of(&chars, from, chars.len())
            } else {
                String::new()
            }
        },
        None => String::new(),
    }
}

} // verus!
