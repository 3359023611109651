//! Files open for editing, and the editor that owns them.

use crate::text::{
    break_at, grapheme_clusters, grapheme_count, graphemes_before, graphemes_from, insert_into,
    is_insertion, join, lemma_flatten_split, remove_before, segmented, split_graphemes, views,
};
use crate::input::{KeyCode, KeyEvent};
use crate::paths::{extension, extension_of, file_name, file_name_of};
use crate::render::{render, rendered, text_views};
use crate::style::Span;
use crate::storage::{join_lines, split_lines, stored_text, text_lines};
use std::time::{Duration, Instant};
use vstd::prelude::*;

verus! {

/// `std::time::Instant`, a moment on the monotonic clock. Nothing is known
/// of its value.
#[verifier::external_type_specification]
#[verifier::external_body]
pub struct ExInstant(Instant);

/// `Instant::now` reads the clock: any moment may come back.
pub assume_specification[ Instant::now ]() -> Instant;

/// `Instant::elapsed` reads the clock: any span may come back.
pub assume_specification[ Instant::elapsed ](moment: &Instant) -> Duration;

/// `Duration::as_secs` gives the whole seconds of a span.
pub assume_specification[ Duration::as_secs ](span: &Duration) -> u64;

/// Why a file could not be saved or loaded.
#[derive(Debug, PartialEq, Eq)]
pub enum FileError {
    /// The file has no path to be saved to.
    NoPath,
    /// Reading or writing failed; the message says how.
    Io(String),
}

impl FileError {
    /// The words that tell a user of the failure.
    pub open spec fn message_text(self) -> Seq<char> {
        match self {
            FileError::NoPath => "No path!"@,
            FileError::Io(message) => message@,
        }
    }

    /// The words that tell a user of the failure.
    pub fn message(&self) -> (text: String)
        ensures
            text@ == self.message_text(),
    {
        match self {
            FileError::NoPath => "No path!".to_owned(),
            FileError::Io(message) => message.clone(),
        }
    }
}

/// `outcome` is the failure of a read or write, with this message.
pub open spec fn io_failure<T>(outcome: Result<T, FileError>, message: Seq<char>) -> bool {
    outcome matches Err(FileError::Io(m)) && m@ == message
}

/// What has to be written for a save to take place.
#[derive(Debug, PartialEq, Eq)]
pub struct WriteRequest {
    pub path: String,
    pub text: String,
}

/// The lines a buffer holds for a stored text: its lines, or one empty line
/// where it has none.
pub open spec fn buffer_lines(text: Seq<char>) -> Seq<Seq<char>> {
    if text_lines(text).len() == 0 {
        seq![Seq::empty()]
    } else {
        text_lines(text)
    }
}

/// `v` brought into the range from `lo` to `hi`.
pub open spec fn clamp(v: int, lo: int, hi: int) -> int {
    if v < lo {
        lo
    } else if v > hi {
        hi
    } else {
        v
    }
}

/// What a file open for editing is: its lines without their terminators, and
/// the cursor as a column counted in grapheme clusters and a row.
pub struct FileModel {
    pub path: Option<Seq<char>>,
    pub lines: Seq<Seq<char>>,
    pub column: int,
    pub row: int,
    pub scroll: (int, int),
    pub dirty: bool,
    pub saved: Option<Instant>,
}

impl FileModel {
    /// A new file that has no path: one empty line, the cursor at its start.
    pub open spec fn scratch() -> FileModel {
        FileModel {
            path: None,
            lines: seq![Seq::empty()],
            column: 0,
            row: 0,
            scroll: (0, 0),
            dirty: false,
            saved: None,
        }
    }

    /// The file at `path` as it is opened, `text` being what is stored there.
    pub open spec fn opened(path: Seq<char>, text: Seq<char>) -> FileModel {
        FileModel { path: Some(path), lines: buffer_lines(text), ..Self::scratch() }
    }

    /// The file once it is saved, at the moment `saved`: with nothing left
    /// to save.
    pub open spec fn saved_at(self, saved: Option<Instant>) -> FileModel {
        FileModel { dirty: false, saved, ..self }
    }

    /// The file once it is loaded from `path`, where `text` is stored: with
    /// that path and the lines of that text, the cursor at the start, and
    /// nothing to save.
    pub open spec fn loaded(self, path: Seq<char>, text: Seq<char>) -> FileModel {
        FileModel {
            path: Some(path),
            lines: buffer_lines(text),
            column: 0,
            row: 0,
            dirty: false,
            ..self
        }
    }

    /// The extension of the file's name, empty where it has no path.
    pub open spec fn extension(self) -> Seq<char> {
        match self.path {
            Some(path) => extension_of(path),
            None => Seq::empty(),
        }
    }

    /// The name the file is shown under: the name of the file its path leads
    /// to, or `unsaved` where it has no path or the path no such name, with
    /// a star before it where there are changes to save.
    pub open spec fn label(self) -> Seq<char> {
        let name = match self.path {
            Some(path) => shown_name(path),
            None => "unsaved"@,
        };
        if self.dirty {
            seq!['*'] + name
        } else {
            name
        }
    }

    /// The file after a key press meant for its text: an arrow moves the
    /// cursor, a character is put in, tab puts in four spaces, enter breaks
    /// the line, backspace and delete remove. Any other key does nothing.
    pub open spec fn typed(self, code: KeyCode) -> FileModel {
        match code {
            KeyCode::Left => self.move_cursor(-1, 0),
            KeyCode::Right => self.move_cursor(1, 0),
            KeyCode::Up => self.move_cursor(0, -1),
            KeyCode::Down => self.move_cursor(0, 1),
            KeyCode::Enter => self.add_line(),
            KeyCode::Backspace => self.remove_character(),
            KeyCode::Delete => self.delete_character(),
            KeyCode::Tab => self.add_character(' ').add_character(' ').add_character(
                ' ',
            ).add_character(' '),
            KeyCode::Char(c) => self.add_character(c),
            _ => self,
        }
    }

    /// The line the cursor is on.
    pub open spec fn line(self) -> Seq<char> {
        self.lines[self.row]
    }

    /// The cursor is inside the text: on one of the lines, and at most one
    /// position past the last grapheme cluster of that line.
    pub open spec fn in_text(self) -> bool {
        &&& 0 <= self.row < self.lines.len()
        &&& 0 <= self.column <= grapheme_count(self.line())
    }

    /// The cursor is inside the text, which so has at least one line, and
    /// nothing is scrolled. The clusters of the cursor's line, joined, are
    /// that line: every segmentation that was computed is known to be so,
    /// and each operation computes that of the line it leaves the cursor on.
    pub open spec fn wf(self) -> bool {
        &&& self.in_text()
        &&& segmented(self.line())
        &&& self.scroll == (0int, 0int)
    }

    /// The file after one cursor move after the other.
    pub open spec fn moved(self, moves: Seq<(int, int)>) -> FileModel
        decreases moves.len(),
    {
        if moves.len() == 0 {
            self
        } else {
            self.moved(moves.drop_last()).move_cursor(moves.last().0, moves.last().1)
        }
    }

    /// Whatever cursor moves are made, and however many, the cursor stays
    /// inside the text, and the text stays what it was.
    pub proof fn lemma_moves_stay_in_text(self, moves: Seq<(int, int)>)
        requires
            self.in_text(),
        ensures
            self.moved(moves).in_text(),
            self.moved(moves).lines == self.lines,
        decreases moves.len(),
    {
        if moves.len() > 0 {
            self.lemma_moves_stay_in_text(moves.drop_last());
        }
    }

    /// The cursor moved by `dx` columns, then by `dy` rows, each kept inside
    /// the text, the column then kept inside the line arrived at.
    pub open spec fn move_cursor(self, dx: int, dy: int) -> FileModel {
        let column = clamp(self.column + dx, 0, grapheme_count(self.line()) as int);
        let row = clamp(self.row + dy, 0, self.lines.len() - 1);
        FileModel {
            column: clamp(column, 0, grapheme_count(self.lines[row]) as int),
            row,
            ..self
        }
    }

    /// The character `c` put in at the cursor: appended where the cursor is
    /// at the end of its line, else placed between the clusters before the
    /// cursor and those from it on. The cursor goes one column on.
    pub open spec fn add_character(self, c: char) -> FileModel {
        let line = self.line();
        let changed = if self.column >= grapheme_count(line) {
            line.push(c)
        } else {
            graphemes_before(line, self.column).push(c) + graphemes_from(line, self.column)
        };
        FileModel {
            lines: self.lines.update(self.row, changed),
            column: clamp(self.column + 1, 0, grapheme_count(changed) as int),
            dirty: true,
            ..self
        }
    }

    /// The line broken at the cursor: what stands from the cursor on becomes
    /// a line of its own below, an empty one where the cursor is at the end.
    /// The cursor goes to the start of that line.
    pub open spec fn add_line(self) -> FileModel {
        let line = self.line();
        let lines = if self.column >= grapheme_count(line) {
            self.lines.insert(self.row + 1, Seq::empty())
        } else {
            self.lines.update(self.row, graphemes_before(line, self.column)).insert(
                self.row + 1,
                graphemes_from(line, self.column),
            )
        };
        FileModel { lines, column: 0, row: self.row + 1, dirty: true, ..self }
    }

    /// Backspace. At the start of a line that has a line above it, the line
    /// is joined to the end of the one above, and the cursor stands where
    /// that one ended. At the start of the first line nothing changes.
    /// Elsewhere the cluster before the cursor goes, and the cursor one
    /// column back.
    pub open spec fn remove_character(self) -> FileModel {
        let line = self.line();
        if self.column == 0 {
            if self.row > 0 {
                let above = self.lines[self.row - 1];
                let joined = above + line;
                FileModel {
                    lines: self.lines.update(self.row - 1, joined).remove(self.row),
                    column: clamp(grapheme_count(above) as int, 0, grapheme_count(joined) as int),
                    row: self.row - 1,
                    dirty: true,
                    ..self
                }
            } else {
                self
            }
        } else {
            let changed = graphemes_before(line, self.column - 1) + graphemes_from(
                line,
                self.column,
            );
            FileModel {
                lines: self.lines.update(self.row, changed),
                column: clamp(self.column - 1, 0, grapheme_count(changed) as int),
                dirty: true,
                ..self
            }
        }
    }

    /// Delete: the cluster at the cursor goes, as if the cursor had moved
    /// over it and backspace had followed. At the end of a line nothing
    /// changes.
    pub open spec fn delete_character(self) -> FileModel {
        if self.column < grapheme_count(self.line()) {
            FileModel { column: self.column + 1, ..self }.remove_character()
        } else {
            self
        }
    }

    /// `c`, put in at the cursor, becomes a grapheme cluster of its own and
    /// leaves the clusters on either side as they were. A combining mark
    /// typed after a letter does not: it joins the letter's cluster.
    pub open spec fn stands_alone(self, c: char) -> bool {
        let clusters = grapheme_clusters(self.line());
        grapheme_clusters(self.add_character(c).line()) == clusters.take(self.column).push(
            seq![c],
        ) + clusters.skip(self.column)
    }

    /// Typing a character that stands alone and pressing backspace gives
    /// back the lines and the cursor as they were.
    pub proof fn lemma_add_character_then_remove(self, c: char)
        requires
            self.wf(),
            self.stands_alone(c),
        ensures
            self.add_character(c).remove_character().lines == self.lines,
            self.add_character(c).remove_character().column == self.column,
            self.add_character(c).remove_character().row == self.row,
    {
        let clusters = grapheme_clusters(self.line());
        let before = clusters.take(self.column);
        let after = clusters.skip(self.column);
        let typed = self.add_character(c);
        let typed_clusters = grapheme_clusters(typed.line());
        assert(typed_clusters.take(typed.column - 1) =~= before);
        assert(typed_clusters.skip(typed.column) =~= after);
        lemma_flatten_split(clusters, self.column);
        assert(typed.remove_character().lines =~= self.lines);
    }

    /// Breaking a line and pressing backspace gives back the lines as they
    /// were, with the cursor on the row it was on.
    pub proof fn lemma_add_line_then_remove(self)
        requires
            self.wf(),
        ensures
            self.add_line().remove_character().lines == self.lines,
            self.add_line().remove_character().row == self.row,
    {
        lemma_flatten_split(grapheme_clusters(self.line()), self.column);
        assert(self.add_line().remove_character().lines =~= self.lines);
    }

    /// What stands before the cursor in its line, taken by itself, has as
    /// many grapheme clusters as the cursor's column says.
    pub open spec fn head_keeps_clusters(self) -> bool {
        grapheme_count(graphemes_before(self.line(), self.column)) == self.column
    }

    /// Breaking a line and pressing backspace gives back the cursor's column
    /// too, where what stood before the cursor keeps its clusters once it is
    /// a line of its own.
    pub proof fn lemma_add_line_then_remove_column(self)
        requires
            self.wf(),
            self.head_keeps_clusters(),
        ensures
            self.add_line().remove_character().column == self.column,
    {
        let clusters = grapheme_clusters(self.line());
        lemma_flatten_split(clusters, self.column);
        if self.column >= grapheme_count(self.line()) {
            assert(clusters.take(self.column) =~= clusters);
            assert(self.line() + Seq::<char>::empty() =~= self.line());
        }
    }
}

/// One file open for editing.
pub struct File {
    path: Option<String>,
    content: Vec<String>,
    cursor: (usize, usize),
    scroll: (usize, usize),
    is_dirty: bool,
    saved_time: Option<Instant>,
}

impl View for File {
    type V = FileModel;

    closed spec fn view(&self) -> FileModel {
        FileModel {
            path: match self.path {
                Some(p) => Some(p@),
                None => None,
            },
            lines: views(self.content@),
            column: self.cursor.0 as int,
            row: self.cursor.1 as int,
            scroll: (self.scroll.0 as int, self.scroll.1 as int),
            dirty: self.is_dirty,
            saved: self.saved_time,
        }
    }
}

impl File {
    /// The invariant of a file: that of its model.
    pub open spec fn wf(&self) -> bool {
        self@.wf()
    }

    /// A file that has no path yet: one empty line, the cursor at its start.
    pub fn new() -> (file: File)
        ensures
            file.wf(),
            file@ == FileModel::scratch(),
    {
        let mut content: Vec<String> = Vec::new();
        content.push(String::new());
        let file = File {
            path: None,
            content,
            cursor: (0, 0),
            scroll: (0, 0),
            is_dirty: false,
            saved_time: None,
        };
        assert(file@.lines =~= seq![Seq::<char>::empty()]);
        // Measured for the record of its segmentation that the invariant keeps.
        let _ = file.line_length();
        file
    }

    /// The lines of a stored text, as a buffer holds them.
    fn lines_from(text: &str) -> (lines: Vec<String>)
        ensures
            views(lines@) == buffer_lines(text@),
            lines.len() > 0,
            segmented(lines[0]@),
    {
        let mut lines = split_lines(text);
        if lines.len() == 0 {
            lines.push(String::new());
            assert(views(lines@) =~= seq![Seq::<char>::empty()]);
        }
        assert(views(lines@).len() == lines.len());
        // The cursor starts on the first line: its segmentation goes on record.
        let _ = split_graphemes(lines[0].as_str());
        lines
    }

    /// Opens the file at `path`, given what reading that path gave: its
    /// text, or the message of the failure.
    pub fn from_path(path: &str, read: Result<String, String>) -> (opened: Result<File, FileError>)
        ensures
            match read {
                Ok(text) => opened matches Ok(file) && file.wf() && file@ == FileModel::opened(
                    path@,
                    text@,
                ),
                Err(message) => io_failure(opened, message@),
            },
    {
        match read {
            Ok(text) => Ok(
                File {
                    path: Some(path.to_owned()),
                    content: Self::lines_from(text.as_str()),
                    cursor: (0, 0),
                    scroll: (0, 0),
                    is_dirty: false,
                    saved_time: None,
                },
            ),
            Err(message) => Err(FileError::Io(message)),
        }
    }

    /// Starts a save: says what is to be written, and where. Nothing is
    /// written here and the file is as it was; `finish_save` takes the
    /// outcome of the write. A file without a path cannot be saved.
    pub fn save(&mut self) -> (request: Result<WriteRequest, FileError>)
        ensures
            *final(self) == *old(self),
            match old(self)@.path {
                Some(path) => request matches Ok(r) && r.path@ == path && r.text@ == stored_text(
                    old(self)@.lines,
                ),
                None => request == Err::<WriteRequest, FileError>(FileError::NoPath),
            },
    {
        match &self.path {
            Some(path) => Ok(WriteRequest { path: path.clone(), text: join_lines(&self.content) }),
            None => Err(FileError::NoPath),
        }
    }

    /// Gives the file the path `new_path` and starts a save to it.
    pub fn save_to(&mut self, new_path: String) -> (request: WriteRequest)
        ensures
            final(self)@ == (FileModel { path: Some(new_path@), ..old(self)@ }),
            request.path@ == new_path@,
            request.text@ == stored_text(old(self)@.lines),
    {
        let request = WriteRequest { path: new_path.clone(), text: join_lines(&self.content) };
        self.path = Some(new_path);
        request
    }

    /// Ends a save with the outcome of the write. After a write that took
    /// place the file is clean and saved now; after one that failed it is as
    /// it was, and the failure comes back.
    pub fn finish_save(&mut self, written: Result<(), String>) -> (saved: Result<(), FileError>)
        ensures
            match written {
                Ok(_) => saved is Ok && final(self)@.saved is Some && final(self)@
                    == old(self)@.saved_at(final(self)@.saved),
                Err(message) => *final(self) == *old(self) && io_failure(saved, message@),
            },
    {
        match written {
            Ok(_) => {
                self.is_dirty = false;
                self.saved_time = Some(Instant::now());
                Ok(())
            },
            Err(message) => Err(FileError::Io(message)),
        }
    }

    /// Replaces the content with what reading `new_path` gave. After a read
    /// that took place the file holds the lines read under that path, with
    /// the cursor at the start and nothing to save; after one that failed it
    /// is as it was, and the failure comes back.
    pub fn load_from(&mut self, new_path: String, read: Result<String, String>) -> (loaded: Result<
        (),
        FileError,
    >)
        requires
            old(self).wf(),
        ensures
            final(self).wf(),
            match read {
                Ok(text) => loaded is Ok && final(self)@ == old(self)@.loaded(new_path@, text@),
                Err(message) => *final(self) == *old(self) && io_failure(loaded, message@),
            },
    {
        match read {
            Ok(text) => {
                self.path = Some(new_path);
                self.content = Self::lines_from(text.as_str());
                self.cursor = (0, 0);
                self.is_dirty = false;
                Ok(())
            },
            Err(message) => Err(FileError::Io(message)),
        }
    }

    /// The path of the file, if it has one.
    pub fn path(&self) -> (path: Option<&String>)
        ensures
            match path {
                Some(p) => self@.path == Some(p@),
                None => self@.path is None,
            },
    {
        self.path.as_ref()
    }

    /// The lines of the file.
    pub fn content(&self) -> (lines: &Vec<String>)
        ensures
            views(lines@) == self@.lines,
    {
        &self.content
    }

    /// The cursor: column, then row.
    pub fn cursor(&self) -> (cursor: (usize, usize))
        ensures
            cursor.0 == self@.column,
            cursor.1 == self@.row,
    {
        self.cursor
    }

    /// The cursor as the viewport shows it.
    pub fn cursor_unscrolled(&self) -> (cursor: (usize, usize))
        requires
            self.wf(),
        ensures
            cursor.0 == self@.column - self@.scroll.0,
            cursor.1 == self@.row - self@.scroll.1,
    {
        (self.cursor.0 - self.scroll.0, self.cursor.1 - self.scroll.1)
    }

    /// Whether there are changes that were not saved.
    pub fn is_dirty(&self) -> (dirty: bool)
        ensures
            dirty == self@.dirty,
    {
        self.is_dirty
    }

    /// The moment of the last save, if there was one.
    pub fn saved_time(&self) -> (saved: Option<Instant>)
        ensures
            saved == self@.saved,
    {
        self.saved_time
    }

    /// The length of the cursor's line, in grapheme clusters.
    pub fn line_length(&self) -> (length: usize)
        requires
            self@.row < self@.lines.len(),
        ensures
            length == grapheme_count(self@.line()),
            segmented(self@.line()),
    {
        split_graphemes(self.content[self.cursor.1].as_str()).len()
    }

    /// The number of lines.
    pub fn line_count(&self) -> (count: usize)
        ensures
            count == self@.lines.len(),
    {
        self.content.len()
    }

    /// Moves the cursor by `dx` columns and then by `dy` rows. Each move
    /// stops at the edge of the text, and the column never rests beyond the
    /// end of the line arrived at.
    pub fn move_cursor(&mut self, dx: i16, dy: i16)
        requires
            old(self).wf(),
        ensures
            final(self).wf(),
            final(self)@ == old(self)@.move_cursor(dx as int, dy as int),
    {
        let length = self.line_length();
        let (column, row) = self.cursor;
        let column = Self::shifted(column, dx, length);
        let row = Self::shifted(row, dy, self.content.len() - 1);
        self.cursor = (column, row);
        let length = self.line_length();
        if column > length {
            self.cursor = (length, row);
        }
    }

    /// Breaks the line at the cursor.
    pub fn add_line(&mut self)
        requires
            old(self).wf(),
        ensures
            final(self).wf(),
            final(self)@ == old(self)@.add_line(),
    {
        let (column, row) = self.cursor;
        assert(row < self.content.len());
        let below = row + 1;
        let parts = split_graphemes(self.content[row].as_str());
        if column >= parts.len() {
            self.content.insert(below, String::new());
        } else {
            let (left, right) = break_at(&parts, column);
            self.content.set(row, left);
            self.content.insert(below, right);
        }
        self.cursor = (0, below);
        self.is_dirty = true;
        // Column 0 is inside any line; the new line is measured for the record
        // of its segmentation.
        let _ = self.line_length();
        assert(self@.lines =~= old(self)@.add_line().lines);
    }

    /// The cursor's line with `c` put in at the cursor.
    fn line_with(&self, c: char) -> (line: String)
        requires
            self.wf(),
        ensures
            line@ == self@.add_character(c).line(),
    {
        let (column, row) = self.cursor;
        let parts = split_graphemes(self.content[row].as_str());
        let line = insert_into(&parts, column, c);
        proof {
            let clusters = views(parts@);
            if column >= parts.len() {
                assert(clusters.take(column as int) =~= clusters);
                assert(clusters.skip(column as int) =~= Seq::<Seq<char>>::empty());
                assert(line@ =~= self@.line().push(c));
            }
        }
        line
    }

    /// Whether `c`, put in at the cursor, would become a grapheme cluster
    /// of its own and leave the clusters on either side as they are.
    pub fn stands_alone(&self, c: char) -> (alone: bool)
        requires
            self.wf(),
        ensures
            alone == self@.stands_alone(c),
    {
        let (column, row) = self.cursor;
        let parts = split_graphemes(self.content[row].as_str());
        let longer = split_graphemes(self.line_with(c).as_str());
        is_insertion(&longer, &parts, column, c)
    }

    /// Whether what stands before the cursor in its line, taken by itself,
    /// has as many grapheme clusters as the cursor's column says.
    pub fn head_keeps_clusters(&self) -> (kept: bool)
        requires
            self.wf(),
        ensures
            kept == self@.head_keeps_clusters(),
    {
        let (column, row) = self.cursor;
        let parts = split_graphemes(self.content[row].as_str());
        let head = join(&parts, 0, column);
        split_graphemes(head.as_str()).len() == column
    }

    /// Puts `c` in at the cursor.
    pub fn add_character(&mut self, c: char)
        requires
            old(self).wf(),
        ensures
            final(self).wf(),
            final(self)@ == old(self)@.add_character(c),
    {
        let (column, row) = self.cursor;
        let line = self.line_with(c);
        self.content.set(row, line);
        self.is_dirty = true;
        let length = self.line_length();
        self.cursor = (if column < length { column + 1 } else { length }, row);
        assert(self@.lines =~= old(self)@.add_character(c).lines);
    }

    /// Backspace: removes what stands before the cursor, a grapheme cluster
    /// or, at the start of a line, the break between it and the line above.
    pub fn remove_character(&mut self)
        requires
            old(self).wf(),
        ensures
            final(self).wf(),
            final(self)@ == old(self)@.remove_character(),
    {
        let (column, row) = self.cursor;
        if column == 0 {
            if row > 0 {
                let above_length = split_graphemes(self.content[row - 1].as_str()).len();
                let mut joined = self.content[row - 1].clone();
                joined.append(self.content[row].as_str());
                self.content.set(row - 1, joined);
                self.content.remove(row);
                self.cursor = (0, row - 1);
                self.is_dirty = true;
                let length = self.line_length();
                self.cursor = (if above_length < length { above_length } else { length }, row - 1);
                assert(self@.lines =~= old(self)@.remove_character().lines);
            }
        } else {
            let parts = split_graphemes(self.content[row].as_str());
            let line = remove_before(&parts, column);
            self.content.set(row, line);
            self.is_dirty = true;
            let length = self.line_length();
            self.cursor = (if column - 1 < length { column - 1 } else { length }, row);
            assert(self@.lines =~= old(self)@.remove_character().lines);
        }
    }

    /// Delete: removes the grapheme cluster at the cursor.
    pub fn delete_character(&mut self)
        requires
            old(self).wf(),
        ensures
            final(self).wf(),
            final(self)@ == old(self)@.delete_character(),
    {
        if self.cursor.0 < self.line_length() {
            self.cursor = (self.cursor.0 + 1, self.cursor.1);
            self.remove_character();
        }
    }

    /// `at + by`, kept between 0 and `max`.
    fn shifted(at: usize, by: i16, max: usize) -> (to: usize)
        requires
            at <= max,
        ensures
            to == clamp(at + by, 0, max as int),
    {
        if by < 0 {
            let back: usize = (-(by as i32)) as usize;
            if at > back {
                at - back
            } else {
                0
            }
        } else {
            let forward: usize = by as usize;
            if max - at > forward {
                at + forward
            } else {
                max
            }
        }
    }
}

/// The editor: the files that are open, which of them is shown, and the
/// styled form of that one.
pub struct Editor {
    pub open_files: Vec<File>,
    pub cur_file_idx: usize,
    pub styled_text: Vec<Vec<Span>>,
}

/// What was read for a path: the text stored there, or the message of the
/// failure.
pub type Read = Result<String, String>;

/// `reads[at]` is the first read that failed.
pub open spec fn first_failure(reads: Seq<(String, Read)>, at: int) -> bool {
    &&& 0 <= at < reads.len()
    &&& reads[at].1 is Err
    &&& forall|i: int| 0 <= i < at ==> (#[trigger] reads[i]).1 is Ok
}

/// The files of an editor opened on these reads, none of which failed: one
/// for each, in order, or one new file where there is none.
pub open spec fn opened_files(reads: Seq<(String, Read)>) -> Seq<FileModel> {
    if reads.len() == 0 {
        seq![FileModel::scratch()]
    } else {
        Seq::new(reads.len(), |i: int| FileModel::opened(reads[i].0@, reads[i].1->Ok_0@))
    }
}

/// The name a path is shown under: that of the file it leads to, or
/// `unsaved` where it leads to none.
pub open spec fn shown_name(path: Seq<char>) -> Seq<char> {
    match file_name_of(path) {
        Some(name) => name,
        None => "unsaved"@,
    }
}

/// The paths of those files that have one, in the order of the files.
pub open spec fn paths_of(files: Seq<FileModel>) -> Seq<Seq<char>>
    decreases files.len(),
{
    if files.len() == 0 {
        Seq::empty()
    } else {
        match files.last().path {
            Some(path) => paths_of(files.drop_last()).push(path),
            None => paths_of(files.drop_last()),
        }
    }
}

/// The views of a sequence of borrowed strings.
pub open spec fn borrowed_views(parts: Seq<&String>) -> Seq<Seq<char>> {
    Seq::new(parts.len(), |i: int| parts[i]@)
}

/// The index after `at` among `count`, the first after the last.
pub open spec fn next_index(at: int, count: int) -> int {
    if at + 1 >= count {
        0
    } else {
        at + 1
    }
}

/// The index before `at` among `count`, the last before the first.
pub open spec fn previous_index(at: int, count: int) -> int {
    if at > 0 {
        at - 1
    } else {
        count - 1
    }
}

/// The index reached from `at` by going to the next one `times` times.
pub open spec fn advanced(at: int, count: int, times: nat) -> int
    decreases times,
{
    if times == 0 {
        at
    } else {
        next_index(advanced(at, count, (times - 1) as nat), count)
    }
}

/// Going on `times` times from `at` leads to `at + times`, counted round
/// the `count` indices once.
pub proof fn lemma_advanced(at: int, count: int, times: nat)
    requires
        0 <= at < count,
        times <= count,
    ensures
        advanced(at, count, times) == if at + times < count {
            at + times
        } else {
            at + times - count
        },
    decreases times,
{
    if times > 0 {
        lemma_advanced(at, count, (times - 1) as nat);
    }
}

/// The index reached from `at` by going to the one before `times` times.
pub open spec fn retreated(at: int, count: int, times: nat) -> int
    decreases times,
{
    if times == 0 {
        at
    } else {
        previous_index(retreated(at, count, (times - 1) as nat), count)
    }
}

/// Going back `times` times from `at` leads to `at - times`, counted round
/// the `count` indices once.
pub proof fn lemma_retreated(at: int, count: int, times: nat)
    requires
        0 <= at < count,
        times <= count,
    ensures
        retreated(at, count, times) == if at - times >= 0 {
            at - times
        } else {
            at - times + count
        },
    decreases times,
{
    if times > 0 {
        lemma_retreated(at, count, (times - 1) as nat);
    }
}

/// Going to the next of `count` indices `count` times leads back to where
/// it began; so does going to the one before `count` times, and so does
/// going to the next and then to the one before.
pub proof fn lemma_indices_go_round(at: int, count: int)
    requires
        0 <= at < count,
    ensures
        advanced(at, count, count as nat) == at,
        retreated(at, count, count as nat) == at,
        previous_index(next_index(at, count), count) == at,
        next_index(previous_index(at, count), count) == at,
{
    lemma_advanced(at, count, count as nat);
    lemma_retreated(at, count, count as nat);
}

impl Editor {
    /// What the open files are, in order.
    pub open spec fn files(&self) -> Seq<FileModel> {
        Seq::new(self.open_files.len() as nat, |i: int| self.open_files[i]@)
    }

    /// What the file shown is.
    pub open spec fn active(&self) -> FileModel {
        self.open_files[self.cur_file_idx as int]@
    }

    /// At least one file is open, the index of the file shown is that of an
    /// open file, every file is well formed, and the styled text is that of
    /// the file shown.
    pub open spec fn wf(&self) -> bool {
        &&& self.open_files.len() > 0
        &&& self.cur_file_idx < self.open_files.len()
        &&& forall|i: int| 0 <= i < self.open_files.len() ==> (#[trigger] self.open_files[i]).wf()
        &&& text_views(self.styled_text@) == rendered(self.active().lines, self.active().extension())
    }

    /// This editor is in every part what `before` was.
    pub open spec fn same_as(&self, before: &Editor) -> bool {
        &&& self.open_files@ == before.open_files@
        &&& self.cur_file_idx == before.cur_file_idx
        &&& self.styled_text == before.styled_text
    }

    /// This editor is what `before` was, but that the file shown was saved.
    pub open spec fn saved_from(&self, before: &Editor) -> bool {
        &&& self.cur_file_idx == before.cur_file_idx
        &&& self.active().saved is Some
        &&& self.files() == before.files().update(
            before.cur_file_idx as int,
            before.active().saved_at(self.active().saved),
        )
    }

    /// This editor is what `before` was, but that the file shown was loaded
    /// from `path`, where `text` is stored.
    pub open spec fn loaded_from(&self, before: &Editor, path: Seq<char>, text: Seq<char>) -> bool {
        &&& self.cur_file_idx == before.cur_file_idx
        &&& self.files() == before.files().update(
            before.cur_file_idx as int,
            before.active().loaded(path, text),
        )
    }

    /// This editor is what `before` was, but that the file shown has the
    /// path `path`.
    pub open spec fn renamed_from(&self, before: &Editor, path: Seq<char>) -> bool {
        &&& self.cur_file_idx == before.cur_file_idx
        &&& self.files() == before.files().update(
            before.cur_file_idx as int,
            FileModel { path: Some(path), ..before.active() },
        )
    }

    /// Opens an editor on what was read for each path: one file for each,
    /// the first of them shown, or one new file where no path was given.
    /// The first read that failed makes the whole fail.
    pub fn from_paths(reads: Vec<(String, Read)>) -> (opened: Result<Editor, FileError>)
        ensures
            match opened {
                Ok(editor) => {
                    &&& forall|i: int| 0 <= i < reads.len() ==> (#[trigger] reads[i]).1 is Ok
                    &&& editor.wf()
                    &&& editor.cur_file_idx == 0
                    &&& editor.files() == opened_files(reads@)
                },
                Err(_) => exists|at: int|
                    first_failure(reads@, at) && io_failure(opened, (reads[at].1->Err_0)@),
            },
    {
        let mut files: Vec<File> = Vec::new();
        let ghost all = reads@;
        for entry in it: reads
            invariant
                it.seq() == all,
                files.len() == it.index(),
                forall|i: int| 0 <= i < it.index() ==> (#[trigger] all[i]).1 is Ok,
                forall|i: int|
                    0 <= i < it.index() ==> (#[trigger] files[i]).wf() && files[i]@
                        == FileModel::opened(all[i].0@, all[i].1->Ok_0@),
        {
            let (path, read) = entry;
            let ghost at = it.index() as int;
            match File::from_path(path.as_str(), read) {
                Ok(file) => {
                    files.push(file);
                },
                Err(error) => {
                    assert(first_failure(all, at));
                    return Err(error);
                },
            }
        }
        if files.len() == 0 {
            files.push(File::new());
        }
        let mut editor = Editor { open_files: files, cur_file_idx: 0, styled_text: Vec::new() };
        editor.update_styled_text();
        assert(editor.files() =~= opened_files(all));
        Ok(editor)
    }

    /// Styles the file shown anew.
    fn update_styled_text(&mut self)
        requires
            old(self).cur_file_idx < old(self).open_files.len(),
        ensures
            final(self).open_files == old(self).open_files,
            final(self).cur_file_idx == old(self).cur_file_idx,
            text_views(final(self).styled_text@) == rendered(
                final(self).active().lines,
                final(self).active().extension(),
            ),
    {
        let extension = self.extension();
        self.styled_text = render(self.content(), extension.as_str());
    }

    /// The path of the file shown.
    pub fn path(&self) -> (path: Option<&String>)
        requires
            self.cur_file_idx < self.open_files.len(),
        ensures
            match path {
                Some(p) => self.active().path == Some(p@),
                None => self.active().path is None,
            },
    {
        self.open_files[self.cur_file_idx].path()
    }

    /// The extension of the name of the file shown, empty where it has none.
    pub fn extension(&self) -> (extension: String)
        requires
            self.cur_file_idx < self.open_files.len(),
        ensures
            extension@ == self.active().extension(),
    {
        match self.path() {
            Some(path) => extension(path.as_str()),
            None => String::new(),
        }
    }

    /// The lines of the file shown.
    pub fn content(&self) -> (lines: &Vec<String>)
        requires
            self.cur_file_idx < self.open_files.len(),
        ensures
            views(lines@) == self.active().lines,
    {
        self.open_files[self.cur_file_idx].content()
    }

    /// Whether the file shown has changes that were not saved.
    pub fn is_dirty(&self) -> (dirty: bool)
        requires
            self.cur_file_idx < self.open_files.len(),
        ensures
            dirty == self.active().dirty,
    {
        self.open_files[self.cur_file_idx].is_dirty()
    }

    /// The cursor of the file shown, as the viewport shows it.
    pub fn cursor(&self) -> (cursor: (usize, usize))
        requires
            self.wf(),
        ensures
            cursor.0 == self.active().column - self.active().scroll.0,
            cursor.1 == self.active().row - self.active().scroll.1,
    {
        self.open_files[self.cur_file_idx].cursor_unscrolled()
    }

    /// Moves the cursor of the file shown.
    fn move_cursor(&mut self, dx: i16, dy: i16)
        requires
            old(self).wf(),
        ensures
            final(self).wf(),
            final(self).cur_file_idx == old(self).cur_file_idx,
            final(self).files() == old(self).files().update(
                old(self).cur_file_idx as int,
                old(self).active().move_cursor(dx as int, dy as int),
            ),
    {
        self.open_files[self.cur_file_idx].move_cursor(dx, dy);
        assert(self.files() =~= old(self).files().update(
            old(self).cur_file_idx as int,
            old(self).active().move_cursor(dx as int, dy as int),
        ));
    }

    /// Handles a key press meant for the text of the file shown, and styles
    /// the file anew where its text may have changed.
    pub fn handle_key(&mut self, key: KeyEvent)
        requires
            old(self).wf(),
        ensures
            final(self).wf(),
            final(self).cur_file_idx == old(self).cur_file_idx,
            final(self).files() == old(self).files().update(
                old(self).cur_file_idx as int,
                old(self).active().typed(key.code),
            ),
    {
        let shown = self.cur_file_idx;
        match key.code {
            KeyCode::Left => self.move_cursor(-1, 0),
            KeyCode::Right => self.move_cursor(1, 0),
            KeyCode::Up => self.move_cursor(0, -1),
            KeyCode::Down => self.move_cursor(0, 1),
            KeyCode::Enter => {
                self.open_files[shown].add_line();
                self.update_styled_text();
            },
            KeyCode::Backspace => {
                self.open_files[shown].remove_character();
                self.update_styled_text();
            },
            KeyCode::Delete => {
                self.open_files[shown].delete_character();
                self.update_styled_text();
            },
            KeyCode::Tab => {
                self.open_files[shown].add_character(' ');
                self.open_files[shown].add_character(' ');
                self.open_files[shown].add_character(' ');
                self.open_files[shown].add_character(' ');
                self.update_styled_text();
            },
            KeyCode::Char(c) => {
                self.open_files[shown].add_character(c);
                self.update_styled_text();
            },
            _ => {},
        }
        assert(self.files() =~= old(self).files().update(
            shown as int,
            old(self).active().typed(key.code),
        ));
    }

    /// Shows the next file, the first after the last.
    pub fn increment_file_idx(&mut self)
        requires
            old(self).wf(),
        ensures
            final(self).wf(),
            final(self).open_files == old(self).open_files,
            final(self).cur_file_idx == next_index(
                old(self).cur_file_idx as int,
                old(self).open_files.len() as int,
            ),
    {
        self.cur_file_idx = if self.cur_file_idx + 1 >= self.open_files.len() {
            0
        } else {
            self.cur_file_idx + 1
        };
        self.update_styled_text();
    }

    /// Shows the file before, the last before the first.
    pub fn decrement_file_idx(&mut self)
        requires
            old(self).wf(),
        ensures
            final(self).wf(),
            final(self).open_files == old(self).open_files,
            final(self).cur_file_idx == previous_index(
                old(self).cur_file_idx as int,
                old(self).open_files.len() as int,
            ),
    {
        if self.cur_file_idx > 0 {
            self.cur_file_idx = self.cur_file_idx - 1;
        } else {
            self.cur_file_idx = self.open_files.len() - 1;
        }
        self.update_styled_text();
    }

    /// Starts a save of the file shown; see `File::save`.
    pub fn save_file(&mut self) -> (request: Result<WriteRequest, FileError>)
        requires
            old(self).wf(),
        ensures
            final(self).same_as(old(self)),
            match old(self).active().path {
                Some(path) => request matches Ok(r) && r.path@ == path && r.text@ == stored_text(
                    old(self).active().lines,
                ),
                None => request == Err::<WriteRequest, FileError>(FileError::NoPath),
            },
    {
        let request = self.open_files[self.cur_file_idx].save();
        assert(self.open_files@ =~= old(self).open_files@);
        request
    }

    /// Gives the file shown the path `path` and starts a save to it; see
    /// `File::save_to`.
    pub fn save_file_to_path(&mut self, path: String) -> (request: WriteRequest)
        requires
            old(self).wf(),
        ensures
            final(self).wf(),
            final(self).renamed_from(old(self), path@),
            request.path@ == path@,
            request.text@ == stored_text(old(self).active().lines),
    {
        let request = self.open_files[self.cur_file_idx].save_to(path);
        self.update_styled_text();
        assert(self.files() =~= old(self).files().update(
            old(self).cur_file_idx as int,
            FileModel { path: Some(path@), ..old(self).active() },
        ));
        request
    }

    /// Ends a save of the file shown with the outcome of the write; see
    /// `File::finish_save`.
    pub fn finish_save(&mut self, written: Result<(), String>) -> (saved: Result<(), FileError>)
        requires
            old(self).wf(),
        ensures
            final(self).wf(),
            match written {
                Ok(_) => saved is Ok && final(self).saved_from(old(self)),
                Err(message) => final(self).same_as(old(self)) && io_failure(saved, message@),
            },
    {
        let saved = self.open_files[self.cur_file_idx].finish_save(written);
        proof {
            if saved is Ok {
                assert(self.files() =~= old(self).files().update(
                    old(self).cur_file_idx as int,
                    old(self).active().saved_at(self.active().saved),
                ));
            } else {
                assert(self.open_files@ =~= old(self).open_files@);
            }
        }
        saved
    }

    /// Replaces the content of the file shown with what reading `path`
    /// gave; see `File::load_from`.
    pub fn load_file_from_path(&mut self, path: String, read: Read) -> (loaded: Result<
        (),
        FileError,
    >)
        requires
            old(self).wf(),
        ensures
            final(self).wf(),
            match read {
                Ok(text) => loaded is Ok && final(self).loaded_from(old(self), path@, text@),
                Err(message) => final(self).same_as(old(self)) && io_failure(loaded, message@),
            },
    {
        let loaded = self.open_files[self.cur_file_idx].load_from(path, read);
        if loaded.is_ok() {
            self.update_styled_text();
            assert(self.files() =~= old(self).files().update(
                old(self).cur_file_idx as int,
                self.active(),
            ));
        } else {
            assert(self.open_files@ =~= old(self).open_files@);
        }
        loaded
    }

    /// The paths of the open files that have one.
    pub fn all_paths(&self) -> (paths: Vec<&String>)
        ensures
            borrowed_views(paths@) == paths_of(self.files()),
    {
        let mut paths: Vec<&String> = Vec::new();
        let mut i: usize = 0;
        assert(self.files().take(0) =~= Seq::<FileModel>::empty());
        while i < self.open_files.len()
            invariant
                i <= self.open_files.len(),
                borrowed_views(paths@) == paths_of(self.files().take(i as int)),
            decreases self.open_files.len() - i,
        {
            assert(self.files().take(i + 1).drop_last() =~= self.files().take(i as int));
            let ghost before = borrowed_views(paths@);
            match self.open_files[i].path() {
                Some(path) => {
                    paths.push(path);
                    assert(borrowed_views(paths@) =~= before.push(path@));
                },
                None => {},
            }
            i = i + 1;
        }
        assert(self.files().take(self.open_files.len() as int) =~= self.files());
        paths
    }

    /// The names of the files that the paths of the open files lead to,
    /// `unsaved` standing for a path that leads to none.
    pub fn all_filenames(&self) -> (names: Vec<String>)
        ensures
            views(names@) == paths_of(self.files()).map_values(|path: Seq<char>| shown_name(path)),
    {
        let paths = self.all_paths();
        let mut names: Vec<String> = Vec::new();
        let mut i: usize = 0;
        while i < paths.len()
            invariant
                i <= paths.len(),
                names.len() == i,
                forall|k: int| 0 <= k < i ==> (#[trigger] names[k])@ == shown_name(paths[k]@),
            decreases paths.len() - i,
        {
            names.push(Self::name_shown(paths[i].as_str()));
            i = i + 1;
        }
        assert(views(names@) =~= borrowed_views(paths@).map_values(
            |path: Seq<char>| shown_name(path),
        ));
        names
    }

    /// The name a path is shown under.
    fn name_shown(path: &str) -> (name: String)
        ensures
            name@ == shown_name(path@),
    {
        match file_name(path) {
            Some(name) => name,
            None => "unsaved".to_owned(),
        }
    }

    /// The names the open files are shown under, one for each file: see
    /// `FileModel::label`.
    pub fn all_filenames_modified(&self) -> (names: Vec<String>)
        ensures
            views(names@) == self.files().map_values(|file: FileModel| file.label()),
    {
        let mut names: Vec<String> = Vec::new();
        let mut i: usize = 0;
        while i < self.open_files.len()
            invariant
                i <= self.open_files.len(),
                names.len() == i,
                forall|k: int| 0 <= k < i ==> (#[trigger] names[k])@ == self.open_files[k]@.label(),
            decreases self.open_files.len() - i,
        {
            let file = &self.open_files[i];
            let name = match file.path() {
                Some(path) => Self::name_shown(path.as_str()),
                None => "unsaved".to_owned(),
            };
            let mut label = String::new();
            if file.is_dirty() {
                label.push('*');
            }
            label.append(name.as_str());
            assert(label@ =~= file@.label());
            names.push(label);
            i = i + 1;
        }
        assert(views(names@) =~= self.files().map_values(|file: FileModel| file.label()));
        names
    }

    /// The whole seconds since the file shown was last saved, or `None`
    /// where it never was. How many they are is for the clock to say.
    pub fn seconds_since_save(&self) -> (seconds: Option<u64>)
        requires
            self.cur_file_idx < self.open_files.len(),
        ensures
            seconds is Some <==> self.active().saved is Some,
    {
        match self.open_files[self.cur_file_idx].saved_time() {
            Some(moment) => Some(moment.elapsed().as_secs()),
            None => None,
        }
    }
}

} // verus!
