use cref::model::Commit;
use cref::view::{Key, Screen, ScreenAction};

fn commit(message: &str) -> Commit {
    Commit { url: format!("https://example.com/{}", message.len()), message: message.to_string() }
}

fn screen() -> Screen {
    Screen::new(vec![
        commit("Fix typo in README"),
        commit("Add support for Kotlin"),
        commit("Fix crash when the list is empty"),
    ])
}

#[test]
fn empty_query_shows_every_commit() {
    let s = screen();
    assert_eq!(s.query_line(), "QUERY> ");
    assert_eq!(s.visible_messages().len(), 3);
}

#[test]
fn typing_filters_commits() {
    let mut s = screen();
    for c in "Fix".chars() {
        assert_eq!(s.handle_key(Key::Char(c)), ScreenAction::Redraw);
    }
    assert_eq!(s.query(), "Fix");
    assert_eq!(s.query_line(), "QUERY> Fix");
    assert_eq!(s.visible_messages(),
        vec!["Fix typo in README".to_string(), "Fix crash when the list is empty".to_string()]);
    s.handle_key(Key::Char(' '));
    s.handle_key(Key::Char('t'));
    assert_eq!(s.visible_messages(), vec!["Fix typo in README".to_string()]);
}

#[test]
fn backspace_undoes_typing() {
    let mut s = screen();
    s.handle_key(Key::Char('K'));
    assert_eq!(s.visible_messages(), vec!["Add support for Kotlin".to_string()]);
    assert_eq!(s.handle_key(Key::Backspace), ScreenAction::Redraw);
    assert_eq!(s.query(), "");
    assert_eq!(s.visible_messages().len(), 3);
    s.handle_key(Key::Backspace);
    assert_eq!(s.query(), "");
}

#[test]
fn escape_leaves_and_other_keys_change_nothing() {
    let mut s = screen();
    s.handle_key(Key::Char('x'));
    assert_eq!(s.handle_key(Key::Other), ScreenAction::Redraw);
    assert_eq!(s.query(), "x");
    assert_eq!(s.handle_key(Key::Esc), ScreenAction::Exit);
    assert_eq!(s.query(), "x");
}

#[test]
fn non_ascii_queries() {
    let mut s = Screen::new(vec![commit("Übersetzung ergänzt"), commit("plain")]);
    s.handle_key(Key::Char('ä'));
    assert_eq!(s.visible_messages(), vec!["Übersetzung ergänzt".to_string()]);
    s.handle_key(Key::Backspace);
    assert_eq!(s.query_line(), "QUERY> ");
}
