use rocket_editor::editor::{Editor, Read};
use rocket_editor::input::{KeyCode, KeyEvent, KeyModifiers};
use rocket_editor::popup::{Popup, PopupAction, PopupButton, PopupKind};

fn key(code: KeyCode) -> KeyEvent {
    KeyEvent { code, modifiers: KeyModifiers { control: false, alt: false } }
}

fn editor_on(path: &str, text: &str) -> Editor {
    let read: Read = Ok(text.to_string());
    Editor::from_paths(vec![(path.to_string(), read)]).unwrap()
}

fn type_text(popup: &mut Popup, editor: &mut Editor, text: &str) {
    for c in text.chars() {
        assert_eq!(popup.handle_key(key(KeyCode::Char(c)), editor), PopupAction::Stay);
    }
}

const HELP: &str = "ctrl + h // this menu   |   alt + u  // next file
ctrl + q // quit        |   alt + i  // next file
ctrl + s // save        |   ctrl + w // close file
ctrl + t // save as     |
ctrl + o // open file   |";

#[test]
fn buttons_have_their_words() {
    assert_eq!(PopupButton::Okay.get_text(), "okay");
    assert_eq!(PopupButton::IGotIt.get_text(), "i got it!");
    assert_eq!(PopupButton::Cancel.get_text(), "cancel");
}

#[test]
fn every_kind_has_its_buttons() {
    assert_eq!(PopupKind::Help.get_buttons(), vec![PopupButton::IGotIt]);
    assert_eq!(PopupKind::Dialogue("x".to_string()).get_buttons(), vec![PopupButton::Okay]);
    assert_eq!(
        PopupKind::SaveFile(String::new()).get_buttons(),
        vec![PopupButton::Cancel, PopupButton::Okay]
    );
    assert_eq!(
        PopupKind::LoadFile(String::new()).get_buttons(),
        vec![PopupButton::Cancel, PopupButton::Okay]
    );
    assert_eq!(PopupKind::IOError("x".to_string()).get_buttons(), vec![PopupButton::Okay]);
}

#[test]
fn every_kind_has_its_title_and_content() {
    assert_eq!(PopupKind::Help.title(), "help menu");
    assert_eq!(PopupKind::Help.content(), HELP);
    assert_eq!(PopupKind::Dialogue("hello".to_string()).title(), "dialogue");
    assert_eq!(PopupKind::Dialogue("hello".to_string()).content(), "hello");
    assert_eq!(PopupKind::SaveFile("a.txt".to_string()).title(), "save file");
    assert_eq!(PopupKind::SaveFile("a.txt".to_string()).content(), "path >> a.txt");
    assert_eq!(PopupKind::LoadFile("b".to_string()).title(), "load file");
    assert_eq!(PopupKind::LoadFile("b".to_string()).content(), "path >> b");
    assert_eq!(PopupKind::IOError("bad".to_string()).title(), "io error");
    assert_eq!(PopupKind::IOError("bad".to_string()).content(), "bad");
}

#[test]
fn a_popup_opens_with_its_first_button_selected() {
    let popup = Popup::from_kind(PopupKind::SaveFile("x".to_string()));
    assert_eq!(popup.buttons, vec![PopupButton::Cancel, PopupButton::Okay]);
    assert_eq!(popup.button_idx, 0);
    assert_eq!(popup.title(), "save file");
    assert_eq!(popup.content(), "path >> x");
}

#[test]
fn a_popup_tells_its_kind_buttons_and_selection() {
    let mut editor = editor_on("a.txt", "abc\n");
    let mut popup = Popup::from_kind(PopupKind::LoadFile("x".to_string()));
    assert!(matches!(popup.kind(), PopupKind::LoadFile(path) if path == "x"));
    assert_eq!(popup.buttons(), &vec![PopupButton::Cancel, PopupButton::Okay]);
    assert_eq!(popup.selected(), 0);
    popup.handle_key(key(KeyCode::Right), &mut editor);
    assert_eq!(popup.selected(), 1);
    popup.handle_key(key(KeyCode::Char('y')), &mut editor);
    assert!(matches!(popup.kind(), PopupKind::LoadFile(path) if path == "xy"));
}

#[test]
fn left_goes_round_the_two_buttons() {
    let mut editor = editor_on("a.txt", "abc\n");
    let mut popup = Popup::from_kind(PopupKind::SaveFile(String::new()));
    assert_eq!(popup.button_idx, 0);
    assert_eq!(popup.handle_key(key(KeyCode::Left), &mut editor), PopupAction::Stay);
    assert_eq!(popup.button_idx, 1);
    assert_eq!(popup.handle_key(key(KeyCode::Left), &mut editor), PopupAction::Stay);
    assert_eq!(popup.button_idx, 0);
}

#[test]
fn right_goes_round_the_two_buttons() {
    let mut editor = editor_on("a.txt", "abc\n");
    let mut popup = Popup::from_kind(PopupKind::LoadFile(String::new()));
    popup.handle_key(key(KeyCode::Right), &mut editor);
    assert_eq!(popup.button_idx, 1);
    popup.handle_key(key(KeyCode::Right), &mut editor);
    assert_eq!(popup.button_idx, 0);
}

#[test]
fn the_one_button_of_a_popup_stays_selected() {
    let mut editor = editor_on("a.txt", "abc\n");
    let mut popup = Popup::from_kind(PopupKind::Help);
    popup.handle_key(key(KeyCode::Left), &mut editor);
    assert_eq!(popup.button_idx, 0);
    popup.handle_key(key(KeyCode::Right), &mut editor);
    assert_eq!(popup.button_idx, 0);
}

#[test]
fn characters_go_to_the_path() {
    let mut editor = editor_on("a.txt", "abc\n");
    let mut popup = Popup::from_kind(PopupKind::SaveFile(String::new()));
    type_text(&mut popup, &mut editor, "b.rs");
    assert_eq!(popup.content(), "path >> b.rs");
    let mut load = Popup::from_kind(PopupKind::LoadFile("x".to_string()));
    type_text(&mut load, &mut editor, "y");
    assert_eq!(load.content(), "path >> xy");
    assert_eq!(editor.content(), &vec!["abc".to_string()]);
}

#[test]
fn characters_are_ignored_where_no_path_is_asked_for() {
    let mut editor = editor_on("a.txt", "abc\n");
    let mut popup = Popup::from_kind(PopupKind::Dialogue("hello".to_string()));
    type_text(&mut popup, &mut editor, "xy");
    assert_eq!(popup.handle_key(key(KeyCode::Backspace), &mut editor), PopupAction::Stay);
    assert_eq!(popup.content(), "hello");
    let mut error = Popup::from_kind(PopupKind::IOError("bad".to_string()));
    type_text(&mut error, &mut editor, "xy");
    error.handle_key(key(KeyCode::Backspace), &mut editor);
    assert_eq!(error.content(), "bad");
}

#[test]
fn backspace_takes_the_last_grapheme_cluster_off_the_path() {
    let mut editor = editor_on("a.txt", "abc\n");
    let mut popup = Popup::from_kind(PopupKind::SaveFile("abe\u{301}".to_string()));
    assert_eq!(popup.handle_key(key(KeyCode::Backspace), &mut editor), PopupAction::Stay);
    assert_eq!(popup.content(), "path >> ab");
    popup.handle_key(key(KeyCode::Backspace), &mut editor);
    popup.handle_key(key(KeyCode::Backspace), &mut editor);
    assert_eq!(popup.content(), "path >> ");
    popup.handle_key(key(KeyCode::Backspace), &mut editor);
    assert_eq!(popup.content(), "path >> ");
}

#[test]
fn other_keys_are_ignored() {
    let mut editor = editor_on("a.txt", "abc\n");
    let mut popup = Popup::from_kind(PopupKind::SaveFile("p".to_string()));
    for code in [KeyCode::Up, KeyCode::Down, KeyCode::Tab, KeyCode::Delete, KeyCode::Esc, KeyCode::Other] {
        assert_eq!(popup.handle_key(key(code), &mut editor), PopupAction::Stay);
    }
    assert_eq!(popup.content(), "path >> p");
    assert_eq!(popup.button_idx, 0);
}

#[test]
fn enter_closes_a_popup_that_only_tells() {
    let mut editor = editor_on("a.txt", "abc\n");
    for kind in [
        PopupKind::Help,
        PopupKind::Dialogue("d".to_string()),
        PopupKind::IOError("e".to_string()),
    ] {
        let mut popup = Popup::from_kind(kind);
        assert_eq!(popup.handle_key(key(KeyCode::Enter), &mut editor), PopupAction::Close);
        assert_eq!(popup.handle_enter(&mut editor), PopupAction::Close);
    }
}

#[test]
fn enter_on_cancel_closes_without_acting() {
    let mut editor = editor_on("a.txt", "abc\n");
    let mut save = Popup::from_kind(PopupKind::SaveFile("b.txt".to_string()));
    assert_eq!(save.handle_key(key(KeyCode::Enter), &mut editor), PopupAction::Close);
    assert_eq!(editor.path(), Some(&"a.txt".to_string()));
    let mut load = Popup::from_kind(PopupKind::LoadFile("b.txt".to_string()));
    assert_eq!(load.handle_key(key(KeyCode::Enter), &mut editor), PopupAction::Close);
}

#[test]
fn enter_on_okay_asks_for_the_write() {
    let mut editor = editor_on("a.txt", "abc\n");
    let mut popup = Popup::from_kind(PopupKind::SaveFile("b.txt".to_string()));
    popup.handle_key(key(KeyCode::Right), &mut editor);
    let action = popup.handle_key(key(KeyCode::Enter), &mut editor);
    match action {
        PopupAction::Write(request) => {
            assert_eq!(request.path, "b.txt");
            assert_eq!(request.text, "abc\n");
        }
        other => panic!("{:?}", other),
    }
    assert_eq!(editor.path(), Some(&"b.txt".to_string()));
    assert_eq!(popup.content(), "path >> b.txt");
    assert!(popup.write_finished(&mut editor, Ok(())));
    assert!(!editor.is_dirty());
    assert!(editor.seconds_since_save().is_some());
    assert_eq!(popup.title(), "save file");
}

#[test]
fn a_failed_write_turns_the_popup_into_an_error() {
    let mut editor = editor_on("a.txt", "abc\n");
    editor.handle_key(key(KeyCode::Char('x')));
    let mut popup = Popup::from_kind(PopupKind::SaveFile("b.txt".to_string()));
    popup.handle_key(key(KeyCode::Right), &mut editor);
    popup.handle_key(key(KeyCode::Enter), &mut editor);
    assert!(!popup.write_finished(&mut editor, Err("permission denied".to_string())));
    assert_eq!(popup.title(), "io error");
    assert_eq!(popup.content(), "permission denied");
    assert_eq!(popup.buttons, vec![PopupButton::Okay]);
    assert_eq!(popup.button_idx, 0);
    assert!(editor.is_dirty());
    assert_eq!(popup.handle_key(key(KeyCode::Enter), &mut editor), PopupAction::Close);
}

#[test]
fn enter_on_okay_asks_for_the_read() {
    let mut editor = editor_on("a.txt", "abc\n");
    let mut popup = Popup::from_kind(PopupKind::LoadFile("b.rs".to_string()));
    popup.handle_key(key(KeyCode::Left), &mut editor);
    let action = popup.handle_key(key(KeyCode::Enter), &mut editor);
    assert_eq!(action, PopupAction::Read("b.rs".to_string()));
    assert_eq!(editor.content(), &vec!["abc".to_string()]);
    assert!(popup.read_finished(&mut editor, "b.rs".to_string(), Ok("one\ntwo\n".to_string())));
    assert_eq!(editor.content(), &vec!["one".to_string(), "two".to_string()]);
    assert_eq!(editor.path(), Some(&"b.rs".to_string()));
    assert_eq!(popup.title(), "load file");
}

#[test]
fn a_failed_read_turns_the_popup_into_an_error() {
    let mut editor = editor_on("a.txt", "abc\n");
    let mut popup = Popup::from_kind(PopupKind::LoadFile("b.rs".to_string()));
    popup.handle_key(key(KeyCode::Right), &mut editor);
    popup.handle_key(key(KeyCode::Enter), &mut editor);
    assert!(!popup.read_finished(&mut editor, "b.rs".to_string(), Err("not found".to_string())));
    assert_eq!(popup.title(), "io error");
    assert_eq!(popup.content(), "not found");
    assert_eq!(popup.buttons, vec![PopupButton::Okay]);
    assert_eq!(editor.content(), &vec!["abc".to_string()]);
    assert_eq!(editor.path(), Some(&"a.txt".to_string()));
}
