//! A session: the editor with the popups open over it, and where each key
//! press goes.

use crate::editor::{next_index, previous_index, Editor, Read, WriteRequest};
use crate::input::{KeyCode, KeyEvent};
use crate::popup::{entered, KindModel, Popup, PopupAction, PopupKind, PopupModel};
use crate::storage::stored_text;
use vstd::prelude::*;

verus! {

/// What the host is to do after a key press.
#[derive(Debug, PartialEq, Eq)]
pub enum Effect {
    /// Nothing but to draw again.
    Idle,
    /// To end the session.
    Quit,
    /// To write this for the file shown, and to hand the outcome to
    /// `Session::save_finished`.
    Save(WriteRequest),
    /// To write this for the popup on top, and to hand the outcome to
    /// `Session::popup_write_finished`.
    PopupWrite(WriteRequest),
    /// To read this path for the popup on top, and to hand the outcome to
    /// `Session::popup_read_finished`.
    PopupRead(String),
}

/// The editor and the popups open over it, the last of them on top.
pub struct Session {
    pub editor: Editor,
    pub popups: Vec<Popup>,
}

/// What the popup on top did, as the effect on the host tells it.
pub open spec fn action_of(effect: Effect) -> PopupAction {
    match effect {
        Effect::PopupWrite(request) => PopupAction::Write(request),
        Effect::PopupRead(path) => PopupAction::Read(path),
        Effect::Quit => PopupAction::Stay,
        Effect::Save(_) => PopupAction::Stay,
        Effect::Idle => PopupAction::Close,
    }
}

impl Session {
    /// What the open popups are, the last of them on top.
    pub open spec fn popup_models(&self) -> Seq<PopupModel> {
        Seq::new(self.popups.len() as nat, |i: int| self.popups[i]@)
    }

    /// The editor and every popup are well formed.
    pub open spec fn wf(&self) -> bool {
        &&& self.editor.wf()
        &&& forall|i: int| 0 <= i < self.popups.len() ==> (#[trigger] self.popups[i]).wf()
    }

    /// This session with one more popup on top, the editor as `before` had
    /// it.
    pub open spec fn opened_over(&self, before: &Session, kind: KindModel) -> bool {
        &&& self.editor.same_as(&before.editor)
        &&& self.popup_models() == before.popup_models().push(PopupModel::of(kind))
    }

    /// This session is in every part what `before` was.
    pub open spec fn same_as(&self, before: &Session) -> bool {
        &&& self.editor.same_as(&before.editor)
        &&& self.popup_models() == before.popup_models()
    }

    /// What a command, a key pressed with control, does: `q` ends the
    /// session, `s` saves the file shown or opens an error popup where it
    /// has no path, `h` opens the help, `t` opens the popup that asks for a
    /// path to save to. Any other does nothing.
    pub open spec fn commanded(&self, before: &Session, code: KeyCode, effect: Effect) -> bool {
        match code {
            KeyCode::Char('q') => effect is Quit && self.same_as(before),
            KeyCode::Char('s') => match before.editor.active().path {
                Some(path) => {
                    &&& effect matches Effect::Save(request)
                    &&& request.path@ == path
                    &&& request.text@ == stored_text(before.editor.active().lines)
                    &&& self.same_as(before)
                },
                None => effect is Idle && self.opened_over(
                    before,
                    KindModel::IOError("No path!"@),
                ),
            },
            KeyCode::Char('h') => effect is Idle && self.opened_over(before, KindModel::Help),
            KeyCode::Char('t') => effect is Idle && self.opened_over(
                before,
                KindModel::SaveFile(Seq::empty()),
            ),
            _ => effect is Idle && self.same_as(before),
        }
    }

    /// What a key pressed with alt does: `i` shows the next file, `u` the
    /// one before. Any other does nothing.
    pub open spec fn switched(&self, before: &Session, code: KeyCode) -> bool {
        let count = before.editor.open_files.len() as int;
        let shown = before.editor.cur_file_idx as int;
        &&& self.popup_models() == before.popup_models()
        &&& self.editor.open_files == before.editor.open_files
        &&& self.editor.cur_file_idx == match code {
            KeyCode::Char('i') => next_index(shown, count),
            KeyCode::Char('u') => previous_index(shown, count),
            _ => shown,
        }
    }

    /// What a plain key does while a popup is open: it goes to the popup on
    /// top. Enter acts as `entered` says, and the popup is closed unless it
    /// asked the host for something. Any other key changes that popup alone.
    pub open spec fn went_to_popup(&self, before: &Session, code: KeyCode, effect: Effect) -> bool {
        let top = before.popup_models().last();
        match code {
            KeyCode::Enter => {
                &&& effect is Idle || effect is PopupWrite || effect is PopupRead
                &&& entered(top, &before.editor, &self.editor, action_of(effect))
                &&& self.popup_models() == if effect is Idle {
                    before.popup_models().drop_last()
                } else {
                    before.popup_models()
                }
            },
            _ => {
                &&& effect is Idle
                &&& self.editor.same_as(&before.editor)
                &&& self.popup_models() == before.popup_models().update(
                    before.popups.len() - 1,
                    top.after_key(code),
                )
            },
        }
    }

    /// What a plain key does while no popup is open: it goes to the text of
    /// the file shown.
    pub open spec fn went_to_editor(&self, before: &Session, code: KeyCode) -> bool {
        &&& self.popup_models() == before.popup_models()
        &&& self.editor.cur_file_idx == before.editor.cur_file_idx
        &&& self.editor.files() == before.editor.files().update(
            before.editor.cur_file_idx as int,
            before.editor.active().typed(code),
        )
    }

    /// A session on `editor` with no popup open.
    pub fn new(editor: Editor) -> (session: Session)
        requires
            editor.wf(),
        ensures
            session.wf(),
            session.editor == editor,
            session.popups@.len() == 0,
    {
        Session { editor, popups: Vec::new() }
    }

    /// The popup on top, if one is open.
    pub fn top_popup(&self) -> (top: Option<&Popup>)
        ensures
            match top {
                Some(popup) => self.popups.len() > 0 && *popup == self.popups[self.popups.len() - 1],
                None => self.popups.len() == 0,
            },
    {
        if self.popups.len() > 0 {
            Some(&self.popups[self.popups.len() - 1])
        } else {
            None
        }
    }

    /// Opens a popup of this kind on top.
    fn open_popup(&mut self, kind: PopupKind)
        requires
            old(self).wf(),
        ensures
            final(self).wf(),
            final(self).opened_over(old(self), kind@),
    {
        self.popups.push(Popup::from_kind(kind));
        assert(self.popup_models() =~= old(self).popup_models().push(
            PopupModel::of(kind@),
        ));
    }

    /// Handles a key press. A key with control is a command, a key with alt
    /// switches files; any other goes to the popup on top, or to the text
    /// where no popup is open.
    pub fn handle_key(&mut self, key: KeyEvent) -> (effect: Effect)
        requires
            old(self).wf(),
        ensures
            final(self).wf(),
            if key.modifiers.control {
                final(self).commanded(old(self), key.code, effect)
            } else if key.modifiers.alt {
                effect is Idle && final(self).switched(old(self), key.code)
            } else if old(self).popups.len() > 0 {
                final(self).went_to_popup(old(self), key.code, effect)
            } else {
                effect is Idle && final(self).went_to_editor(old(self), key.code)
            },
    {
        if key.modifiers.control {
            match key.code {
                KeyCode::Char('q') => Effect::Quit,
                KeyCode::Char('s') => match self.editor.save_file() {
                    Ok(request) => Effect::Save(request),
                    Err(error) => {
                        proof {
                            reveal_strlit("No path!");
                        }
                        self.open_popup(PopupKind::IOError(error.message()));
                        Effect::Idle
                    },
                },
                KeyCode::Char('h') => {
                    self.open_popup(PopupKind::Help);
                    Effect::Idle
                },
                KeyCode::Char('t') => {
                    self.open_popup(PopupKind::SaveFile(String::new()));
                    Effect::Idle
                },
                _ => Effect::Idle,
            }
        } else if key.modifiers.alt {
            match key.code {
                KeyCode::Char('u') => self.editor.decrement_file_idx(),
                KeyCode::Char('i') => self.editor.increment_file_idx(),
                _ => {},
            }
            Effect::Idle
        } else if self.popups.len() > 0 {
            let top = self.popups.len() - 1;
            let action = self.popups[top].handle_key(key, &mut self.editor);
            let ghost after_key = self.popups[top as int]@;
            assert(self.popup_models() =~= old(self).popup_models().update(top as int, after_key));
            match action {
                PopupAction::Stay => Effect::Idle,
                PopupAction::Close => {
                    self.popups.pop();
                    assert(self.popup_models() =~= old(self).popup_models().drop_last());
                    Effect::Idle
                },
                PopupAction::Write(request) => {
                    assert(self.popup_models() =~= old(self).popup_models());
                    Effect::PopupWrite(request)
                },
                PopupAction::Read(path) => {
                    assert(self.popup_models() =~= old(self).popup_models());
                    Effect::PopupRead(path)
                },
            }
        } else {
            self.editor.handle_key(key);
            Effect::Idle
        }
    }

    /// Takes the outcome of the write asked for with `Effect::Save`. After a
    /// write that took place the file shown is saved; after one that failed
    /// an error popup with the message opens.
    pub fn save_finished(&mut self, written: Result<(), String>)
        requires
            old(self).wf(),
        ensures
            final(self).wf(),
            match written {
                Ok(_) => final(self).editor.saved_from(&old(self).editor) && final(self).popup_models() == old(self).popup_models(),
                Err(message) => final(self).opened_over(old(self), KindModel::IOError(message@)),
            },
    {
        match self.editor.finish_save(written) {
            Ok(_) => {},
            Err(error) => self.open_popup(PopupKind::IOError(error.message())),
        }
    }

    /// Takes the outcome of the write asked for with `Effect::PopupWrite`
    /// and hands it to the popup on top, which is closed after a write that
    /// took place; see `Popup::write_finished`. Where no popup is open this
    /// is `save_finished`.
    pub fn popup_write_finished(&mut self, written: Result<(), String>)
        requires
            old(self).wf(),
        ensures
            final(self).wf(),
            match written {
                Ok(_) => final(self).editor.saved_from(&old(self).editor) && final(self).popup_models() == if old(self).popups.len() > 0 {
                    old(self).popup_models().drop_last()
                } else {
                    old(self).popup_models()
                },
                Err(message) => final(self).editor.same_as(&old(self).editor) && final(self).popup_models() == if old(self).popups.len() > 0 {
                    old(self).popup_models().update(
                        old(self).popups.len() - 1,
                        PopupModel::of(KindModel::IOError(message@)),
                    )
                } else {
                    old(self).popup_models().push(PopupModel::of(KindModel::IOError(message@)))
                },
            },
    {
        if self.popups.len() > 0 {
            let top = self.popups.len() - 1;
            let close = self.popups[top].write_finished(&mut self.editor, written);
            let ghost shown = self.popups[top as int]@;
            assert(self.popup_models() =~= old(self).popup_models().update(top as int, shown));
            if close {
                self.popups.pop();
                assert(self.popup_models() =~= old(self).popup_models().drop_last());
            }
        } else {
            self.save_finished(written);
        }
    }

    /// Takes the outcome of the read of `path` asked for with
    /// `Effect::PopupRead` and hands it to the popup on top, which is closed
    /// after a read that took place; see `Popup::read_finished`. Where no
    /// popup is open, a read that failed opens an error popup.
    pub fn popup_read_finished(&mut self, path: String, read: Read)
        requires
            old(self).wf(),
        ensures
            final(self).wf(),
            match read {
                Ok(text) => final(self).editor.loaded_from(&old(self).editor, path@, text@)
                    && final(self).popup_models() == if old(self).popups.len() > 0 {
                    old(self).popup_models().drop_last()
                } else {
                    old(self).popup_models()
                },
                Err(message) => final(self).editor.same_as(&old(self).editor) && final(self).popup_models() == if old(self).popups.len() > 0 {
                    old(self).popup_models().update(
                        old(self).popups.len() - 1,
                        PopupModel::of(KindModel::IOError(message@)),
                    )
                } else {
                    old(self).popup_models().push(PopupModel::of(KindModel::IOError(message@)))
                },
            },
    {
        if self.popups.len() > 0 {
            let top = self.popups.len() - 1;
            let close = self.popups[top].read_finished(&mut self.editor, path, read);
            let ghost shown = self.popups[top as int]@;
            assert(self.popup_models() =~= old(self).popup_models().update(top as int, shown));
            if close {
                self.popups.pop();
                assert(self.popup_models() =~= old(self).popup_models().drop_last());
            }
        } else {
            match self.editor.load_file_from_path(path, read) {
                Ok(_) => {},
                Err(error) => self.open_popup(PopupKind::IOError(error.message())),
            }
        }
    }
}

} // verus!
