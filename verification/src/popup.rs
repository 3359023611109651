//! Popups: the modal dialogs that take the keys while one is open.

use crate::editor::{next_index, previous_index, Editor, Read, WriteRequest};
use crate::input::{KeyCode, KeyEvent};
use crate::storage::stored_text;
use crate::text::{grapheme_count, graphemes_before, split_graphemes, without_last};
use vstd::prelude::*;

verus! {

/// A button of a popup.
#[derive(Clone, Copy, Debug, PartialEq, Eq)]
pub enum PopupButton {
    Okay,
    /// A livelier way to say okay.
    IGotIt,
    Cancel,
}

impl PopupButton {
    /// The words on the button.
    pub open spec fn text(self) -> Seq<char> {
        match self {
            PopupButton::Okay => "okay"@,
            PopupButton::IGotIt => "i got it!"@,
            PopupButton::Cancel => "cancel"@,
        }
    }

    /// The words on the button.
    pub fn get_text(&self) -> (text: &str)
        ensures
            text@ == self.text(),
    {
        match self {
            PopupButton::Okay => "okay",
            PopupButton::IGotIt => "i got it!",
            PopupButton::Cancel => "cancel",
        }
    }
}

/// What a popup is for, with the text it carries.
#[non_exhaustive]
pub enum PopupKind {
    Help,
    Dialogue(String),
    SaveFile(String),
    LoadFile(String),
    IOError(String),
}

/// What a popup is for, with the text it carries.
pub enum KindModel {
    Help,
    Dialogue(Seq<char>),
    SaveFile(Seq<char>),
    LoadFile(Seq<char>),
    IOError(Seq<char>),
}

impl View for PopupKind {
    type V = KindModel;

    open spec fn view(&self) -> KindModel {
        match self {
            PopupKind::Help => KindModel::Help,
            PopupKind::Dialogue(s) => KindModel::Dialogue(s@),
            PopupKind::SaveFile(s) => KindModel::SaveFile(s@),
            PopupKind::LoadFile(s) => KindModel::LoadFile(s@),
            PopupKind::IOError(s) => KindModel::IOError(s@),
        }
    }
}

/// `text` without its last grapheme cluster; empty text stays empty.
pub open spec fn without_last_grapheme(text: Seq<char>) -> Seq<char> {
    if grapheme_count(text) == 0 {
        text
    } else {
        graphemes_before(text, grapheme_count(text) - 1)
    }
}

impl KindModel {
    /// The buttons of a popup of this kind, in their order.
    pub open spec fn buttons(self) -> Seq<PopupButton> {
        match self {
            KindModel::Help => seq![PopupButton::IGotIt],
            KindModel::Dialogue(_) => seq![PopupButton::Okay],
            KindModel::SaveFile(_) => seq![PopupButton::Cancel, PopupButton::Okay],
            KindModel::LoadFile(_) => seq![PopupButton::Cancel, PopupButton::Okay],
            KindModel::IOError(_) => seq![PopupButton::Okay],
        }
    }

    /// The title of a popup of this kind.
    pub open spec fn title(self) -> Seq<char> {
        match self {
            KindModel::Help => "help menu"@,
            KindModel::Dialogue(_) => "dialogue"@,
            KindModel::SaveFile(_) => "save file"@,
            KindModel::LoadFile(_) => "load file"@,
            KindModel::IOError(_) => "io error"@,
        }
    }

    /// What a popup of this kind shows.
    pub open spec fn content(self) -> Seq<char> {
        match self {
            KindModel::Help => help_text(),
            KindModel::Dialogue(s) => s,
            KindModel::SaveFile(s) => "path >> "@ + s,
            KindModel::LoadFile(s) => "path >> "@ + s,
            KindModel::IOError(s) => s,
        }
    }

    /// This kind after a character was typed: a popup that asks for a path
    /// takes it at the end of the path, any other ignores it.
    pub open spec fn typed(self, c: char) -> KindModel {
        match self {
            KindModel::SaveFile(s) => KindModel::SaveFile(s.push(c)),
            KindModel::LoadFile(s) => KindModel::LoadFile(s.push(c)),
            _ => self,
        }
    }

    /// This kind after backspace: a popup that asks for a path loses the
    /// last grapheme cluster of the path, any other ignores it.
    pub open spec fn erased(self) -> KindModel {
        match self {
            KindModel::SaveFile(s) => KindModel::SaveFile(without_last_grapheme(s)),
            KindModel::LoadFile(s) => KindModel::LoadFile(without_last_grapheme(s)),
            _ => self,
        }
    }
}

/// What the help popup shows.
pub open spec fn help_text() -> Seq<char> {
    "ctrl + h // this menu   |   alt + u  // next file
ctrl + q // quit        |   alt + i  // next file
ctrl + s // save        |   ctrl + w // close file
ctrl + t // save as     |
ctrl + o // open file   |"@
}

impl PopupKind {
    /// The buttons of a popup of this kind, in their order.
    pub fn get_buttons(&self) -> (buttons: Vec<PopupButton>)
        ensures
            buttons@ == self@.buttons(),
    {
        let mut buttons: Vec<PopupButton> = Vec::new();
        match self {
            PopupKind::Help => {
                buttons.push(PopupButton::IGotIt);
            },
            PopupKind::Dialogue(_) => {
                buttons.push(PopupButton::Okay);
            },
            PopupKind::SaveFile(_) => {
                buttons.push(PopupButton::Cancel);
                buttons.push(PopupButton::Okay);
            },
            PopupKind::LoadFile(_) => {
                buttons.push(PopupButton::Cancel);
                buttons.push(PopupButton::Okay);
            },
            PopupKind::IOError(_) => {
                buttons.push(PopupButton::Okay);
            },
        }
        assert(buttons@ =~= self@.buttons());
        buttons
    }

    /// The title of a popup of this kind.
    pub fn title(&self) -> (title: &str)
        ensures
            title@ == self@.title(),
    {
        match self {
            PopupKind::Help => "help menu",
            PopupKind::Dialogue(_) => "dialogue",
            PopupKind::SaveFile(_) => "save file",
            PopupKind::LoadFile(_) => "load file",
            PopupKind::IOError(_) => "io error",
        }
    }

    /// What a popup of this kind shows.
    pub fn content(&self) -> (content: String)
        ensures
            content@ == self@.content(),
    {
        match self {
            PopupKind::Help => "ctrl + h // this menu   |   alt + u  // next file
ctrl + q // quit        |   alt + i  // next file
ctrl + s // save        |   ctrl + w // close file
ctrl + t // save as     |
ctrl + o // open file   |".to_owned(),
            PopupKind::Dialogue(s) => s.clone(),
            PopupKind::SaveFile(s) => "path >> ".to_owned().concat(s.as_str()),
            PopupKind::LoadFile(s) => "path >> ".to_owned().concat(s.as_str()),
            PopupKind::IOError(s) => s.clone(),
        }
    }
}

/// Takes the last grapheme cluster off `text`.
fn erase_last(text: &mut String)
    ensures
        final(text)@ == without_last_grapheme(old(text)@),
{
    let parts = split_graphemes(text.as_str());
    *text = without_last(&parts);
}

/// What is to happen after a key went to a popup.
#[derive(Debug, PartialEq, Eq)]
pub enum PopupAction {
    /// The popup stays open.
    Stay,
    /// The popup is done and is to be closed.
    Close,
    /// This is to be written; `Popup::write_finished` takes the outcome.
    Write(WriteRequest),
    /// This path is to be read; `Popup::read_finished` takes the outcome.
    Read(String),
}

/// A popup: what it is for, its buttons, and which of them is selected.
pub struct Popup {
    kind: PopupKind,
    pub buttons: Vec<PopupButton>,
    pub button_idx: usize,
}

/// What a popup is.
pub struct PopupModel {
    pub kind: KindModel,
    pub buttons: Seq<PopupButton>,
    pub selected: int,
}

impl PopupModel {
    /// A popup of this kind as it opens: with the buttons of its kind, the
    /// first of them selected.
    pub open spec fn of(kind: KindModel) -> PopupModel {
        PopupModel { kind, buttons: kind.buttons(), selected: 0 }
    }

    /// The buttons are those of the kind, and one of them is selected.
    pub open spec fn wf(self) -> bool {
        &&& self.buttons == self.kind.buttons()
        &&& 0 <= self.selected < self.buttons.len()
    }

    /// The button that is selected.
    pub open spec fn button(self) -> PopupButton {
        self.buttons[self.selected]
    }

    /// The popup after a key other than enter: left and right move the
    /// selection round the buttons, a character and backspace edit the path
    /// of a popup that asks for one. Any other key does nothing.
    pub open spec fn after_key(self, code: KeyCode) -> PopupModel {
        match code {
            KeyCode::Left => PopupModel {
                selected: previous_index(self.selected, self.buttons.len() as int),
                ..self
            },
            KeyCode::Right => PopupModel {
                selected: next_index(self.selected, self.buttons.len() as int),
                ..self
            },
            KeyCode::Char(c) => PopupModel { kind: self.kind.typed(c), ..self },
            KeyCode::Backspace => PopupModel { kind: self.kind.erased(), ..self },
            _ => self,
        }
    }
}

/// What enter does in the popup `popup`, `before` being the editor as it
/// was and `after` as it is then. A popup that only tells something closes.
/// One that asks for a path closes on cancel; on okay, one to save gives
/// the file shown that path and asks for the write, one to load asks for
/// the read.
pub open spec fn entered(
    popup: PopupModel,
    before: &Editor,
    after: &Editor,
    action: PopupAction,
) -> bool {
    match popup.kind {
        KindModel::SaveFile(path) if popup.button() == PopupButton::Okay => {
            &&& action matches PopupAction::Write(request)
            &&& request.path@ == path
            &&& request.text@ == stored_text(before.active().lines)
            &&& after.renamed_from(before, path)
        },
        KindModel::LoadFile(path) if popup.button() == PopupButton::Okay => {
            &&& action matches PopupAction::Read(asked)
            &&& asked@ == path
            &&& after.same_as(before)
        },
        _ => action is Close && after.same_as(before),
    }
}

impl View for Popup {
    type V = PopupModel;

    closed spec fn view(&self) -> PopupModel {
        PopupModel {
            kind: self.kind@,
            buttons: self.buttons@,
            selected: self.button_idx as int,
        }
    }
}

impl Popup {
    /// The invariant of a popup: that of its model.
    pub open spec fn wf(&self) -> bool {
        self@.wf()
    }

    /// A popup of this kind, with its first button selected.
    pub fn from_kind(kind: PopupKind) -> (popup: Popup)
        ensures
            popup.wf(),
            popup@ == PopupModel::of(kind@),
    {
        let buttons = kind.get_buttons();
        Popup { kind, buttons, button_idx: 0 }
    }

    /// What the popup is for.
    pub fn kind(&self) -> (kind: &PopupKind)
        ensures
            kind@ == self@.kind,
    {
        &self.kind
    }

    /// The buttons of the popup, in their order.
    pub fn buttons(&self) -> (buttons: &Vec<PopupButton>)
        ensures
            buttons@ == self@.buttons,
    {
        &self.buttons
    }

    /// The index of the button that is selected.
    pub fn selected(&self) -> (index: usize)
        ensures
            index == self@.selected,
    {
        self.button_idx
    }

    /// The title of the popup.
    pub fn title(&self) -> (title: &str)
        ensures
            title@ == self@.kind.title(),
    {
        self.kind.title()
    }

    /// What the popup shows.
    pub fn content(&self) -> (content: String)
        ensures
            content@ == self@.kind.content(),
    {
        self.kind.content()
    }

    /// Handles enter.
    pub fn handle_enter(&self, editor: &mut Editor) -> (action: PopupAction)
        requires
            self.wf(),
            old(editor).wf(),
        ensures
            final(editor).wf(),
            entered(self@, old(editor), final(editor), action),
    {
        match &self.kind {
            PopupKind::SaveFile(path) => match self.buttons[self.button_idx] {
                PopupButton::Okay => PopupAction::Write(editor.save_file_to_path(path.clone())),
                _ => PopupAction::Close,
            },
            PopupKind::LoadFile(path) => match self.buttons[self.button_idx] {
                PopupButton::Okay => PopupAction::Read(path.clone()),
                _ => PopupAction::Close,
            },
            _ => PopupAction::Close,
        }
    }

    /// Handles a key press while the popup is open. Enter acts as
    /// `entered` says and leaves the popup as it is; any other key leaves
    /// the popup open and the editor alone.
    pub fn handle_key(&mut self, key: KeyEvent, editor: &mut Editor) -> (action: PopupAction)
        requires
            old(self).wf(),
            old(editor).wf(),
        ensures
            final(self).wf(),
            final(editor).wf(),
            match key.code {
                KeyCode::Enter => final(self)@ == old(self)@ && entered(
                    old(self)@,
                    old(editor),
                    final(editor),
                    action,
                ),
                code => action is Stay && final(self)@ == old(self)@.after_key(code)
                    && final(editor).same_as(old(editor)),
            },
    {
        match key.code {
            KeyCode::Left => {
                if self.button_idx == 0 {
                    self.button_idx = self.buttons.len() - 1;
                } else {
                    self.button_idx = self.button_idx - 1;
                }
            },
            KeyCode::Right => {
                self.button_idx = if self.button_idx + 1 >= self.buttons.len() {
                    0
                } else {
                    self.button_idx + 1
                };
            },
            KeyCode::Enter => {
                return self.handle_enter(editor);
            },
            KeyCode::Char(c) => {
                match &mut self.kind {
                    PopupKind::SaveFile(path) => path.push(c),
                    PopupKind::LoadFile(path) => path.push(c),
                    _ => {},
                }
            },
            KeyCode::Backspace => {
                match &mut self.kind {
                    PopupKind::SaveFile(path) => erase_last(path),
                    PopupKind::LoadFile(path) => erase_last(path),
                    _ => {},
                }
            },
            _ => {},
        }
        PopupAction::Stay
    }

    /// Takes the outcome of the write that the popup asked for. After a
    /// write that took place the file shown is saved and the popup is to be
    /// closed; after one that failed an error popup with the message stands
    /// in this one's place and stays.
    pub fn write_finished(&mut self, editor: &mut Editor, written: Result<(), String>) -> (close:
        bool)
        requires
            old(editor).wf(),
        ensures
            final(editor).wf(),
            match written {
                Ok(_) => {
                    &&& close
                    &&& *final(self) == *old(self)
                    &&& final(editor).saved_from(old(editor))
                },
                Err(message) => {
                    &&& !close
                    &&& final(self).wf()
                    &&& final(self)@ == PopupModel::of(KindModel::IOError(message@))
                    &&& final(editor).same_as(old(editor))
                },
            },
    {
        match editor.finish_save(written) {
            Ok(_) => true,
            Err(error) => {
                *self = Popup::from_kind(PopupKind::IOError(error.message()));
                false
            },
        }
    }

    /// Takes the outcome of the read of `path` that the popup asked for.
    /// After a read that took place the file shown holds what was read and
    /// the popup is to be closed; after one that failed an error popup with
    /// the message stands in this one's place and stays.
    pub fn read_finished(&mut self, editor: &mut Editor, path: String, read: Read) -> (close: bool)
        requires
            old(editor).wf(),
        ensures
            final(editor).wf(),
            match read {
                Ok(text) => {
                    &&& close
                    &&& *final(self) == *old(self)
                    &&& final(editor).loaded_from(old(editor), path@, text@)
                },
                Err(message) => {
                    &&& !close
                    &&& final(self).wf()
                    &&& final(self)@ == PopupModel::of(KindModel::IOError(message@))
                    &&& final(editor).same_as(old(editor))
                },
            },
    {
        match editor.load_file_from_path(path, read) {
            Ok(_) => true,
            Err(error) => {
                *self = Popup::from_kind(PopupKind::IOError(error.message()));
                false
            },
        }
    }
}

} // verus!
