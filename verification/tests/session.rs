use rocket_editor::editor::{Editor, Read};
use rocket_editor::input::{KeyCode, KeyEvent, KeyModifiers};
use rocket_editor::popup::PopupButton;
use rocket_editor::session::{Effect, Session};

fn plain(code: KeyCode) -> KeyEvent {
    KeyEvent { code, modifiers: KeyModifiers { control: false, alt: false } }
}

fn control(c: char) -> KeyEvent {
    KeyEvent { code: KeyCode::Char(c), modifiers: KeyModifiers { control: true, alt: false } }
}

fn alt(c: char) -> KeyEvent {
    KeyEvent { code: KeyCode::Char(c), modifiers: KeyModifiers { control: false, alt: true } }
}

fn session_on(files: &[(&str, &str)]) -> Session {
    let reads: Vec<(String, Read)> =
        files.iter().map(|(p, t)| (p.to_string(), Ok(t.to_string()))).collect();
    Session::new(Editor::from_paths(reads).unwrap())
}

fn type_text(session: &mut Session, text: &str) {
    for c in text.chars() {
        assert_eq!(session.handle_key(plain(KeyCode::Char(c))), Effect::Idle);
    }
}

#[test]
fn a_session_starts_without_a_popup() {
    let session = session_on(&[("a.txt", "abc\n")]);
    assert!(session.popups.is_empty());
    assert!(session.top_popup().is_none());
}

#[test]
fn plain_keys_go_to_the_text_while_no_popup_is_open() {
    let mut session = session_on(&[]);
    type_text(&mut session, "hi");
    session.handle_key(plain(KeyCode::Enter));
    assert_eq!(session.editor.content(), &vec!["hi".to_string(), String::new()]);
    assert_eq!(session.editor.cursor(), (0, 1));
}

#[test]
fn control_q_ends_the_session() {
    let mut session = session_on(&[("a.txt", "abc\n")]);
    assert_eq!(session.handle_key(control('q')), Effect::Quit);
    assert!(session.popups.is_empty());
}

#[test]
fn control_h_opens_the_help() {
    let mut session = session_on(&[("a.txt", "abc\n")]);
    assert_eq!(session.handle_key(control('h')), Effect::Idle);
    assert_eq!(session.popups.len(), 1);
    assert_eq!(session.top_popup().unwrap().title(), "help menu");
    assert_eq!(session.handle_key(plain(KeyCode::Char('x'))), Effect::Idle);
    assert_eq!(session.editor.content(), &vec!["abc".to_string()]);
    assert_eq!(session.handle_key(plain(KeyCode::Enter)), Effect::Idle);
    assert!(session.popups.is_empty());
}

#[test]
fn control_s_asks_for_the_write() {
    let mut session = session_on(&[("a.txt", "abc\n")]);
    type_text(&mut session, "x");
    match session.handle_key(control('s')) {
        Effect::Save(request) => {
            assert_eq!(request.path, "a.txt");
            assert_eq!(request.text, "xabc\n");
        }
        other => panic!("{:?}", other),
    }
    session.save_finished(Ok(()));
    assert!(!session.editor.is_dirty());
    assert!(session.popups.is_empty());
}

#[test]
fn control_s_without_a_path_opens_an_error() {
    let mut session = session_on(&[]);
    type_text(&mut session, "x");
    assert_eq!(session.handle_key(control('s')), Effect::Idle);
    assert_eq!(session.popups.len(), 1);
    assert_eq!(session.top_popup().unwrap().title(), "io error");
    assert_eq!(session.top_popup().unwrap().content(), "No path!");
    assert!(session.editor.is_dirty());
}

#[test]
fn a_failed_save_opens_an_error() {
    let mut session = session_on(&[("a.txt", "abc\n")]);
    type_text(&mut session, "x");
    session.handle_key(control('s'));
    session.save_finished(Err("disk full".to_string()));
    assert_eq!(session.popups.len(), 1);
    assert_eq!(session.top_popup().unwrap().content(), "disk full");
    assert!(session.editor.is_dirty());
}

#[test]
fn other_commands_do_nothing() {
    let mut session = session_on(&[("a.txt", "abc\n")]);
    assert_eq!(session.handle_key(control('r')), Effect::Idle);
    assert_eq!(session.handle_key(control('x')), Effect::Idle);
    let enter = KeyEvent { code: KeyCode::Enter, modifiers: KeyModifiers { control: true, alt: false } };
    assert_eq!(session.handle_key(enter), Effect::Idle);
    assert!(session.popups.is_empty());
    assert_eq!(session.editor.content(), &vec!["abc".to_string()]);
}

#[test]
fn alt_switches_files() {
    let mut session = session_on(&[("a", ""), ("b", ""), ("c", "")]);
    assert_eq!(session.handle_key(alt('i')), Effect::Idle);
    assert_eq!(session.editor.cur_file_idx, 1);
    session.handle_key(alt('u'));
    session.handle_key(alt('u'));
    assert_eq!(session.editor.cur_file_idx, 2);
    session.handle_key(alt('x'));
    assert_eq!(session.editor.cur_file_idx, 2);
    assert_eq!(session.editor.content(), &vec![String::new()]);
}

#[test]
fn saving_under_a_new_path_through_the_popup() {
    let mut session = session_on(&[]);
    type_text(&mut session, "fn");
    assert_eq!(session.handle_key(control('t')), Effect::Idle);
    assert_eq!(session.top_popup().unwrap().title(), "save file");
    type_text(&mut session, "new.rsx");
    session.handle_key(plain(KeyCode::Backspace));
    assert_eq!(session.top_popup().unwrap().content(), "path >> new.rs");
    assert_eq!(session.editor.content(), &vec!["fn".to_string()]);
    session.handle_key(plain(KeyCode::Right));
    assert_eq!(session.top_popup().unwrap().button_idx, 1);
    match session.handle_key(plain(KeyCode::Enter)) {
        Effect::PopupWrite(request) => {
            assert_eq!(request.path, "new.rs");
            assert_eq!(request.text, "fn\n");
        }
        other => panic!("{:?}", other),
    }
    assert_eq!(session.popups.len(), 1);
    session.popup_write_finished(Ok(()));
    assert!(session.popups.is_empty());
    assert!(!session.editor.is_dirty());
    assert_eq!(session.editor.path(), Some(&"new.rs".to_string()));
}

#[test]
fn a_failed_write_keeps_an_error_popup_in_place() {
    let mut session = session_on(&[]);
    session.handle_key(control('h'));
    session.handle_key(control('t'));
    type_text(&mut session, "/x");
    session.handle_key(plain(KeyCode::Left));
    assert!(matches!(session.handle_key(plain(KeyCode::Enter)), Effect::PopupWrite(_)));
    session.popup_write_finished(Err("read-only".to_string()));
    assert_eq!(session.popups.len(), 2);
    assert_eq!(session.top_popup().unwrap().title(), "io error");
    assert_eq!(session.top_popup().unwrap().content(), "read-only");
    assert_eq!(session.top_popup().unwrap().buttons, vec![PopupButton::Okay]);
    assert_eq!(session.handle_key(plain(KeyCode::Enter)), Effect::Idle);
    assert_eq!(session.popups.len(), 1);
    assert_eq!(session.top_popup().unwrap().title(), "help menu");
}

#[test]
fn cancel_closes_the_popup_without_a_write() {
    let mut session = session_on(&[("a.txt", "abc\n")]);
    session.handle_key(control('t'));
    type_text(&mut session, "b.txt");
    assert_eq!(session.handle_key(plain(KeyCode::Enter)), Effect::Idle);
    assert!(session.popups.is_empty());
    assert_eq!(session.editor.path(), Some(&"a.txt".to_string()));
}

#[test]
fn a_read_that_was_asked_for_ends_in_the_editor() {
    let mut session = session_on(&[("a.txt", "abc\n")]);
    session.popup_read_finished("b.txt".to_string(), Ok("one\n".to_string()));
    assert_eq!(session.editor.content(), &vec!["one".to_string()]);
    session.popup_read_finished("c.txt".to_string(), Err("gone".to_string()));
    assert_eq!(session.popups.len(), 1);
    assert_eq!(session.top_popup().unwrap().content(), "gone");
    assert_eq!(session.editor.content(), &vec!["one".to_string()]);
    session.popup_read_finished("c.txt".to_string(), Ok("two\n".to_string()));
    assert!(session.popups.is_empty());
    assert_eq!(session.editor.content(), &vec!["two".to_string()]);
    session.popup_write_finished(Err("no".to_string()));
    assert_eq!(session.top_popup().unwrap().content(), "no");
}
