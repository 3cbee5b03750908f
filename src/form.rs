//! The state of the login form and the primitives that edit it.
use vstd::prelude::*;

verus! {

/// The glyph that stands for each character of the password on screen.
pub const MASK_CHAR: char = '*';

/// Which of the two input boxes receives typed characters.
#[derive(Clone, Copy, Debug, PartialEq, Eq, Structural)]
pub enum SelectedInput {
    Username,
    Password,
}

impl SelectedInput {
    /// The other box.
    pub open spec fn other(self) -> SelectedInput {
        match self {
            SelectedInput::Username => SelectedInput::Password,
            SelectedInput::Password => SelectedInput::Username,
        }
    }
}

/// A modal message shown above the form.
pub struct Popup {
    pub title: String,
    pub body: String,
}

/// What a popup shows, as character sequences.
pub struct PopupModel {
    pub title: Seq<char>,
    pub body: Seq<char>,
}

impl View for Popup {
    type V = PopupModel;

    open spec fn view(&self) -> PopupModel {
        PopupModel { title: self.title@, body: self.body@ }
    }
}

/// The form's state for one login session.
pub struct App {
    /// What was typed in the user name box.
    pub username_input: String,
    /// What was typed in the password box: the secret itself.
    pub password_input: String,
    /// One mask glyph per character of the password: what the screen shows.
    pub censored_input: String,
    /// The focused box.
    pub selected_input: SelectedInput,
    /// The popup on screen, if any; while there is one it takes all input.
    pub popup: Option<Popup>,
}

/// The form's state as mathematical values.
pub struct FormModel {
    pub username: Seq<char>,
    pub password: Seq<char>,
    pub echo: Seq<char>,
    pub focus: SelectedInput,
    pub popup: Option<PopupModel>,
}

impl View for App {
    type V = FormModel;

    open spec fn view(&self) -> FormModel {
        FormModel {
            username: self.username_input@,
            password: self.password_input@,
            echo: self.censored_input@,
            focus: self.selected_input,
            popup: match self.popup {
                Some(p) => Some(p@),
                None => None,
            },
        }
    }
}

/// `n` mask glyphs.
pub open spec fn mask(n: nat) -> Seq<char> {
    Seq::new(n, |_i: int| MASK_CHAR)
}

/// `s` without its last character, or `s` itself when it is empty.
pub open spec fn drop_last_char(s: Seq<char>) -> Seq<char> {
    if s.len() == 0 {
        s
    } else {
        s.drop_last()
    }
}

impl FormModel {
    /// The state at the start of a session: empty texts, the user name box
    /// focused, no popup.
    pub open spec fn initial() -> FormModel {
        FormModel {
            username: Seq::empty(),
            password: Seq::empty(),
            echo: Seq::empty(),
            focus: SelectedInput::Username,
            popup: None,
        }
    }

    /// The echo is one mask glyph per password character.
    pub open spec fn wf(self) -> bool {
        self.echo == mask(self.password.len())
    }

    /// The text of the focused box.
    pub open spec fn focused_text(self) -> Seq<char> {
        match self.focus {
            SelectedInput::Username => self.username,
            SelectedInput::Password => self.password,
        }
    }

    /// Focus moved to the other box.
    pub open spec fn toggled(self) -> FormModel {
        FormModel { focus: self.focus.other(), ..self }
    }

    /// `c` appended to the password, and a mask glyph to the echo.
    pub open spec fn with_password_char(self, c: char) -> FormModel {
        FormModel { password: self.password.push(c), echo: self.echo.push(MASK_CHAR), ..self }
    }

    /// The last character taken from the password and from the echo, each
    /// where there is one.
    pub open spec fn without_password_char(self) -> FormModel {
        FormModel {
            password: drop_last_char(self.password),
            echo: drop_last_char(self.echo),
            ..self
        }
    }

    /// `c` appended to the focused box.
    pub open spec fn with_char(self, c: char) -> FormModel {
        match self.focus {
            SelectedInput::Username => FormModel { username: self.username.push(c), ..self },
            SelectedInput::Password => self.with_password_char(c),
        }
    }

    /// The last character taken from the focused box, where there is one.
    pub open spec fn without_last_char(self) -> FormModel {
        match self.focus {
            SelectedInput::Username => FormModel {
                username: drop_last_char(self.username),
                ..self
            },
            SelectedInput::Password => self.without_password_char(),
        }
    }

    /// The same state with `popup` on screen (or none).
    pub open spec fn with_popup(self, popup: Option<PopupModel>) -> FormModel {
        FormModel { popup, ..self }
    }
}

/// The state after typing `cs`, one character after another, into the
/// focused box.
pub open spec fn type_chars(m: FormModel, cs: Seq<char>) -> FormModel
    decreases cs.len(),
{
    if cs.len() == 0 {
        m
    } else {
        type_chars(m, cs.drop_last()).with_char(cs.last())
    }
}

proof fn lemma_with_char_wf(m: FormModel, c: char)
    requires
        m.wf(),
    ensures
        m.with_char(c).wf(),
{
    assert(mask(m.password.len() + 1) =~= mask(m.password.len()).push(MASK_CHAR));
}

/// Typing keeps the echo as long as the password: after every character of
/// any sequence typed into the form, whichever box has the focus, there is
/// one mask glyph per password character.
pub proof fn lemma_typing_keeps_echo_length(m: FormModel, cs: Seq<char>)
    requires
        m.wf(),
    ensures
        forall|i: int|
            0 <= i <= cs.len() ==> (#[trigger] type_chars(m, cs.take(i))).echo.len()
                == type_chars(m, cs.take(i)).password.len(),
    decreases cs.len(),
{
    if cs.len() > 0 {
        lemma_typing_keeps_echo_length(m, cs.drop_last());
        lemma_typing_wf(m, cs);
        assert forall|i: int| 0 <= i <= cs.len() implies (#[trigger] type_chars(
            m,
            cs.take(i),
        )).echo.len() == type_chars(m, cs.take(i)).password.len() by {
            if i < cs.len() {
                assert(cs.take(i) =~= cs.drop_last().take(i));
            } else {
                assert(cs.take(i) =~= cs);
            }
        }
    } else {
        assert(cs.take(0) =~= cs);
    }
}

proof fn lemma_typing_wf(m: FormModel, cs: Seq<char>)
    requires
        m.wf(),
    ensures
        type_chars(m, cs).wf(),
    decreases cs.len(),
{
    if cs.len() > 0 {
        lemma_typing_wf(m, cs.drop_last());
        lemma_with_char_wf(type_chars(m, cs.drop_last()), cs.last());
    }
}

/// Moving the focus twice gives back the state one started from.
pub proof fn lemma_toggle_twice(m: FormModel)
    ensures
        m.toggled().toggled() == m,
{
}

/// Relies on `String::push`: the character is appended at the end.
#[verifier::external_body]
fn push_char(s: &mut String, c: char)
    ensures
        final(s)@ == old(s)@.push(c),
{
    s.push(c)
}

/// Relies on `String::pop`: the last character is removed and returned;
/// an empty string is left as it is and gives `None`.
#[verifier::external_body]
fn pop_char(s: &mut String) -> (r: Option<char>)
    ensures
        old(s)@.len() == 0 ==> r is None && final(s)@ == old(s)@,
        old(s)@.len() > 0 ==> r == Some(old(s)@.last()) && final(s)@ == old(s)@.drop_last(),
{
    s.pop()
}

impl Default for App {
    fn default() -> (r: App)
        ensures
            r@ == FormModel::initial(),
            r@.wf(),
    {
        let r = App {
            username_input: String::new(),
            password_input: String::new(),
            censored_input: String::new(),
            selected_input: SelectedInput::Username,
            popup: None,
        };
        assert(mask(0) =~= Seq::<char>::empty());
        r
    }
}

impl App {
    /// Moves the focus to the other box.
    pub fn invert_selected_input(&mut self)
        ensures
            final(self)@ == old(self)@.toggled(),
    {
        self.selected_input = match self.selected_input {
            SelectedInput::Username => SelectedInput::Password,
            SelectedInput::Password => SelectedInput::Username,
        };
    }

    /// Appends `c` to the password and a mask glyph to its echo.
    pub fn insert_password_char(&mut self, c: char)
        ensures
            final(self)@ == old(self)@.with_password_char(c),
            old(self)@.wf() ==> final(self)@.wf(),
    {
        push_char(&mut self.password_input, c);
        push_char(&mut self.censored_input, MASK_CHAR);
        proof {
            assert(mask((old(self).password_input@.len() + 1) as nat) =~= mask(
                old(self).password_input@.len(),
            ).push(MASK_CHAR));
        }
    }

    /// Removes the last character of the password and of its echo; on an
    /// empty password nothing changes.
    pub fn delete_password_char(&mut self)
        ensures
            final(self)@ == old(self)@.without_password_char(),
            old(self)@.wf() ==> final(self)@.wf(),
    {
        pop_char(&mut self.password_input);
        pop_char(&mut self.censored_input);
        proof {
            if old(self).password_input@.len() > 0 {
                assert(mask((old(self).password_input@.len() - 1) as nat) =~= mask(
                    old(self).password_input@.len(),
                ).drop_last());
            }
        }
    }

    /// Appends `c` to the focused box (and a mask glyph to the echo when it
    /// is the password box).
    pub fn append_char_to_focused(&mut self, c: char)
        ensures
            final(self)@ == old(self)@.with_char(c),
            old(self)@.wf() ==> final(self)@.wf(),
    {
        match self.selected_input {
            SelectedInput::Username => push_char(&mut self.username_input, c),
            SelectedInput::Password => self.insert_password_char(c),
        }
    }

    /// Removes the last character of the focused box (and of the echo when
    /// it is the password box); on an empty box nothing changes.
    pub fn delete_last_char_from_focused(&mut self)
        ensures
            final(self)@ == old(self)@.without_last_char(),
            old(self)@.wf() && old(self)@.focused_text().len() == 0 ==> final(self)@ == old(
                self,
            )@,
            old(self)@.wf() ==> final(self)@.wf(),
    {
        match self.selected_input {
            SelectedInput::Username => {
                pop_char(&mut self.username_input);
            },
            SelectedInput::Password => self.delete_password_char(),
        }
    }

    /// Shows a popup with `title` and `body`.
    pub fn open_popup(&mut self, title: String, body: String)
        ensures
            final(self)@ == old(self)@.with_popup(Some(PopupModel { title: title@, body: body@ })),
    {
        self.popup = Some(Popup { title, body });
    }

    /// Takes the popup off the screen.
    pub fn close_popup(&mut self)
        ensures
            final(self)@ == old(self)@.with_popup(None),
    {
        self.popup = None;
    }
}

} // verus!
