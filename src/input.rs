//! The input dispatcher: one key event at a time, applied to the form.
use vstd::prelude::*;
use crate::auth::{accepts, authenticate};
use crate::form::{App, FormModel, PopupModel};

verus! {

/// The title of the popup that reports a login attempt.
pub const LOGIN_ALERT_TITLE: &'static str = "Login Alert";

/// The popup's text after a successful login.
pub const LOGIN_SUCCESS: &'static str = "Successfully logged in!";

/// The popup's text after a failed login.
pub const LOGIN_FAILURE: &'static str = "Failed to log in! Please check your username and password!";

/// The key of a key event.
#[derive(Clone, Copy, Debug, PartialEq, Eq, Structural)]
pub enum Key {
    Enter,
    Backspace,
    Tab,
    Esc,
    Char(char),
    /// Any key that the form does not use.
    Other,
}

/// What happened to the key: only presses are acted on.
#[derive(Clone, Copy, Debug, PartialEq, Eq, Structural)]
pub enum KeyKind {
    Press,
    Repeat,
    Release,
}

/// Whether the session goes on after an event.
#[derive(Clone, Copy, Debug, PartialEq, Eq, Structural)]
pub enum Flow {
    Continue,
    Exit,
}

/// The popup that reports a login attempt.
pub open spec fn login_alert(success: bool) -> PopupModel {
    PopupModel {
        title: LOGIN_ALERT_TITLE@,
        body: if success {
            LOGIN_SUCCESS@
        } else {
            LOGIN_FAILURE@
        },
    }
}

impl FormModel {
    /// The state after one key event, and whether the session goes on.
    ///
    /// Only presses count. While a popup is shown, Escape closes it and every
    /// other key is ignored. Otherwise Enter checks the credentials and shows
    /// the outcome in a popup, Backspace and characters edit the focused box,
    /// Tab moves the focus, and Escape ends the session.
    pub open spec fn step(self, key: Key, kind: KeyKind) -> (FormModel, Flow) {
        if !(kind is Press) {
            (self, Flow::Continue)
        } else if self.popup is Some {
            if key is Esc {
                (self.with_popup(None), Flow::Continue)
            } else {
                (self, Flow::Continue)
            }
        } else {
            match key {
                Key::Enter => (
                    self.with_popup(Some(login_alert(accepts(self.username, self.password)))),
                    Flow::Continue,
                ),
                Key::Backspace => (self.without_last_char(), Flow::Continue),
                Key::Tab => (self.toggled(), Flow::Continue),
                Key::Esc => (self, Flow::Exit),
                Key::Char(c) => (self.with_char(c), Flow::Continue),
                Key::Other => (self, Flow::Continue),
            }
        }
    }
}

/// While a popup is shown, no key but Escape changes anything: the state
/// and the popup stay as they are and the session goes on.
pub proof fn lemma_popup_blocks_input(m: FormModel, key: Key, kind: KeyKind)
    requires
        m.popup is Some,
        !(key is Esc),
    ensures
        m.step(key, kind) == (m, Flow::Continue),
{
}

/// While a popup is shown, pressing Escape closes it and changes nothing else.
pub proof fn lemma_escape_closes_popup(m: FormModel)
    requires
        m.popup is Some,
    ensures
        m.step(Key::Esc, KeyKind::Press) == (m.with_popup(None), Flow::Continue),
{
}

impl App {
    /// Applies one key event to the form.
    pub fn handle_key(&mut self, key: Key, kind: KeyKind) -> (flow: Flow)
        ensures
            (final(self)@, flow) == old(self)@.step(key, kind),
            old(self)@.wf() ==> final(self)@.wf(),
    {
        if !matches!(kind, KeyKind::Press) {
            return Flow::Continue;
        }
        if self.popup.is_some() {
            if matches!(key, Key::Esc) {
                self.close_popup();
            }
            return Flow::Continue;
        }
        match key {
            Key::Enter => {
                let success = authenticate(self.username_input.clone(), self.password_input.clone());
                let body = if success {
                    String::from_str(LOGIN_SUCCESS)
                } else {
                    String::from_str(LOGIN_FAILURE)
                };
                self.open_popup(String::from_str(LOGIN_ALERT_TITLE), body);
                Flow::Continue
            },
            Key::Backspace => {
                self.delete_last_char_from_focused();
                Flow::Continue
            },
            Key::Tab => {
                self.invert_selected_input();
                Flow::Continue
            },
            Key::Esc => Flow::Exit,
            Key::Char(c) => {
                self.append_char_to_focused(c);
                Flow::Continue
            },
            Key::Other => Flow::Continue,
        }
    }
}

} // verus!
