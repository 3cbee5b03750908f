use futureos::auth::authenticate;
use futureos::form::{App, SelectedInput};
use futureos::input::{Flow, Key, KeyKind, LOGIN_ALERT_TITLE, LOGIN_FAILURE, LOGIN_SUCCESS};

fn press(app: &mut App, key: Key) -> Flow {
    app.handle_key(key, KeyKind::Press)
}

fn type_str(app: &mut App, s: &str) {
    for c in s.chars() {
        assert_eq!(press(app, Key::Char(c)), Flow::Continue);
    }
}

fn snapshot(app: &App) -> (String, String, String, SelectedInput, Option<(String, String)>) {
    (
        app.username_input.clone(),
        app.password_input.clone(),
        app.censored_input.clone(),
        app.selected_input,
        app.popup.as_ref().map(|p| (p.title.clone(), p.body.clone())),
    )
}

#[test]
fn authenticate_accepts_only_the_fixed_pair() {
    assert!(authenticate("admin".to_string(), "foobar".to_string()));
    assert!(!authenticate("admin".to_string(), "wrong".to_string()));
    assert!(!authenticate("".to_string(), "".to_string()));
}

#[test]
fn authenticate_is_exact() {
    assert!(!authenticate("Admin".to_string(), "foobar".to_string()));
    assert!(!authenticate("admin ".to_string(), "foobar".to_string()));
    assert!(!authenticate("admin".to_string(), "foobar\n".to_string()));
    assert!(!authenticate("foobar".to_string(), "admin".to_string()));
}

#[test]
fn new_form_is_empty_with_username_focused() {
    let app = App::default();
    assert_eq!(app.username_input, "");
    assert_eq!(app.password_input, "");
    assert_eq!(app.censored_input, "");
    assert_eq!(app.selected_input, SelectedInput::Username);
    assert!(app.popup.is_none());
}

#[test]
fn successful_login_then_escape() {
    let mut app = App::default();
    type_str(&mut app, "admin");
    press(&mut app, Key::Tab);
    type_str(&mut app, "foobar");
    assert_eq!(press(&mut app, Key::Enter), Flow::Continue);
    let popup = app.popup.as_ref().expect("a popup after Enter");
    assert_eq!(popup.title, LOGIN_ALERT_TITLE);
    assert_eq!(popup.body, LOGIN_SUCCESS);
    assert_eq!(popup.body, "Successfully logged in!");
    assert_eq!(press(&mut app, Key::Esc), Flow::Continue);
    assert!(app.popup.is_none());
    assert_eq!(app.username_input, "admin");
    assert_eq!(app.password_input, "foobar");
    assert_eq!(app.censored_input, "******");
    assert_eq!(app.selected_input, SelectedInput::Password);
}

#[test]
fn failed_login_shows_failure_popup() {
    let mut app = App::default();
    type_str(&mut app, "admin");
    press(&mut app, Key::Tab);
    type_str(&mut app, "wrong");
    press(&mut app, Key::Enter);
    let popup = app.popup.as_ref().expect("a popup after Enter");
    assert_eq!(popup.title, "Login Alert");
    assert_eq!(popup.body, LOGIN_FAILURE);
    assert_eq!(popup.body, "Failed to log in! Please check your username and password!");
}

#[test]
fn enter_on_empty_form_fails() {
    let mut app = App::default();
    press(&mut app, Key::Enter);
    assert_eq!(app.popup.as_ref().map(|p| p.body.clone()), Some(LOGIN_FAILURE.to_string()));
}

#[test]
fn backspace_empties_password_and_echo() {
    let mut app = App::default();
    press(&mut app, Key::Tab);
    type_str(&mut app, "ab");
    assert_eq!(app.password_input, "ab");
    assert_eq!(app.censored_input, "**");
    press(&mut app, Key::Backspace);
    assert_eq!(app.password_input, "a");
    assert_eq!(app.censored_input, "*");
    press(&mut app, Key::Backspace);
    assert_eq!(app.password_input, "");
    assert_eq!(app.censored_input, "");
    let before = snapshot(&app);
    assert_eq!(press(&mut app, Key::Backspace), Flow::Continue);
    assert_eq!(snapshot(&app), before);
}

#[test]
fn popup_ignores_every_key_but_escape() {
    let mut app = App::default();
    type_str(&mut app, "ad");
    press(&mut app, Key::Enter);
    let shown = snapshot(&app);
    assert!(shown.4.is_some());
    for key in [Key::Tab, Key::Enter, Key::Char('x'), Key::Char('q'), Key::Backspace, Key::Other] {
        assert_eq!(press(&mut app, key), Flow::Continue);
        assert_eq!(snapshot(&app), shown);
    }
    assert_eq!(press(&mut app, Key::Esc), Flow::Continue);
    assert!(app.popup.is_none());
    assert_eq!(app.username_input, "ad");
}

#[test]
fn escape_without_popup_exits() {
    let mut app = App::default();
    type_str(&mut app, "x");
    let before = snapshot(&app);
    assert_eq!(press(&mut app, Key::Esc), Flow::Exit);
    assert_eq!(snapshot(&app), before);
}

#[test]
fn q_is_an_ordinary_character() {
    let mut app = App::default();
    assert_eq!(press(&mut app, Key::Char('q')), Flow::Continue);
    assert_eq!(app.username_input, "q");
}

#[test]
fn only_presses_are_acted_on() {
    let mut app = App::default();
    for kind in [KeyKind::Release, KeyKind::Repeat] {
        for key in [Key::Char('a'), Key::Tab, Key::Enter, Key::Esc, Key::Backspace] {
            assert_eq!(app.handle_key(key, kind), Flow::Continue);
        }
    }
    assert_eq!(snapshot(&app), snapshot(&App::default()));
}

#[test]
fn other_keys_are_ignored() {
    let mut app = App::default();
    type_str(&mut app, "u");
    let before = snapshot(&app);
    assert_eq!(press(&mut app, Key::Other), Flow::Continue);
    assert_eq!(snapshot(&app), before);
}

#[test]
fn echo_length_follows_password_on_every_append() {
    let mut app = App::default();
    app.invert_selected_input();
    for c in "p@ss wörd✓日本".chars() {
        app.append_char_to_focused(c);
        assert_eq!(app.censored_input.chars().count(), app.password_input.chars().count());
        assert!(app.censored_input.chars().all(|m| m == '*'));
    }
    assert_eq!(app.password_input, "p@ss wörd✓日本");
    assert_eq!(app.username_input, "");
}

#[test]
fn insert_and_delete_password_char() {
    let mut app = App::default();
    app.insert_password_char('z');
    app.insert_password_char('é');
    assert_eq!(app.password_input, "zé");
    assert_eq!(app.censored_input, "**");
    app.delete_password_char();
    assert_eq!(app.password_input, "z");
    assert_eq!(app.censored_input, "*");
    app.delete_password_char();
    app.delete_password_char();
    assert_eq!(app.password_input, "");
    assert_eq!(app.censored_input, "");
}

#[test]
fn toggle_twice_restores_focus() {
    let mut app = App::default();
    app.invert_selected_input();
    assert_eq!(app.selected_input, SelectedInput::Password);
    app.invert_selected_input();
    assert_eq!(app.selected_input, SelectedInput::Username);
}

#[test]
fn delete_on_empty_focused_box_is_a_no_op() {
    let mut app = App::default();
    app.delete_last_char_from_focused();
    assert_eq!(snapshot(&app), snapshot(&App::default()));
    app.invert_selected_input();
    let before = snapshot(&app);
    app.delete_last_char_from_focused();
    assert_eq!(snapshot(&app), before);
}

#[test]
fn delete_touches_only_the_focused_box() {
    let mut app = App::default();
    type_str(&mut app, "ab");
    press(&mut app, Key::Tab);
    type_str(&mut app, "cd");
    app.delete_last_char_from_focused();
    assert_eq!(app.username_input, "ab");
    assert_eq!(app.password_input, "c");
    press(&mut app, Key::Tab);
    app.delete_last_char_from_focused();
    assert_eq!(app.username_input, "a");
    assert_eq!(app.password_input, "c");
    assert_eq!(app.censored_input, "*");
}

#[test]
fn open_and_close_popup() {
    let mut app = App::default();
    app.open_popup("T".to_string(), "B".to_string());
    let p = app.popup.as_ref().unwrap();
    assert_eq!((p.title.as_str(), p.body.as_str()), ("T", "B"));
    app.close_popup();
    assert!(app.popup.is_none());
}
