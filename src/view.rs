//! What one frame of the login screen shows: the regions, their texts,
//! which box is highlighted, where the cursor stands and the popup.
//!
//! A terminal front end draws a `LoginView`; it reads the form and never
//! changes it.
use vstd::prelude::*;
use crate::form::{App, FormModel, SelectedInput};
use crate::layout::{centered, centered_rect, form_layout, form_regions, Rect};
use crate::title::{get_window_title, window_title};

verus! {

/// The name of the login screen, shown in the outer border's title.
pub const SCREEN_NAME: &'static str = "Login";

/// Whether the password box shows mask glyphs instead of the password.
pub const CENSOR_PASSWORD: bool = true;

/// Width of the popup's frame, in percent of the screen.
pub const POPUP_PERCENT_X: u16 = 60;

/// Height of the popup's frame, in percent of the screen.
pub const POPUP_PERCENT_Y: u16 = 14;

/// Width of the popup's text region, in percent of the screen.
pub const POPUP_TEXT_PERCENT_X: u16 = 58;

/// Height of the popup's text region, in percent of the screen.
pub const POPUP_TEXT_PERCENT_Y: u16 = 10;

/// The number of terminal columns that a text takes.
pub uninterp spec fn display_width_of(s: Seq<char>) -> usize;

/// Relies on `unicode_width::UnicodeWidthStr::width`: the displayed width of
/// a string in columns, which depends on its characters alone.
#[verifier::external_body]
fn display_width(s: &str) -> (r: usize)
    ensures
        r == display_width_of(s@),
{
    unicode_width::UnicodeWidthStr::width(s)
}

/// An input box as drawn.
pub struct FieldView {
    pub area: Rect,
    /// The text shown inside the box.
    pub text: String,
    /// Whether the box is drawn highlighted.
    pub focused: bool,
}

/// The popup as drawn.
pub struct PopupView {
    /// The frame, cleared and bordered.
    pub area: Rect,
    /// The region of the message, centered on the screen on its own.
    pub text_area: Rect,
    pub title: String,
    pub body: String,
}

/// One frame of the login screen.
pub struct LoginView {
    /// The title on the outer border.
    pub title: String,
    pub username: FieldView,
    pub password: FieldView,
    /// The region of the help line.
    pub help: Rect,
    pub cursor_x: u16,
    pub cursor_y: u16,
    pub popup: Option<PopupView>,
}

/// What the password box shows.
pub open spec fn shown_password(m: FormModel, censor_password: bool) -> Seq<char> {
    if censor_password {
        m.echo
    } else {
        m.password
    }
}

/// The cursor's column in a box at column `box_x` that shows a text
/// `width` columns wide: just past the text, inside the left border; the
/// last column where that is off the grid.
pub open spec fn cursor_column(box_x: u16, width: usize) -> u16 {
    if box_x + width + 1 > u16::MAX {
        u16::MAX
    } else {
        (box_x + width + 1) as u16
    }
}

/// The cursor's row in a box whose top border is at row `box_y`: the line
/// below it; the last row where that is off the grid.
pub open spec fn cursor_row(box_y: u16) -> u16 {
    if box_y + 1 > u16::MAX {
        u16::MAX
    } else {
        (box_y + 1) as u16
    }
}

impl FieldView {
    /// The box shows `text` in `area`, highlighted iff `focused`.
    pub open spec fn shows(self, area: Rect, text: Seq<char>, focused: bool) -> bool {
        self.area == area && self.text@ == text && self.focused == focused
    }
}

/// Where the cursor goes: just past the text of `field`.
fn cursor_in(field: &FieldView) -> (r: (u16, u16))
    ensures
        r.0 == cursor_column(field.area.x, display_width_of(field.text@)),
        r.1 == cursor_row(field.area.y),
{
    let w = display_width(field.text.as_str());
    let x = if w >= (u16::MAX - field.area.x) as usize {
        u16::MAX
    } else {
        field.area.x + (w as u16) + 1
    };
    (x, field.area.y.saturating_add(1))
}

/// The frame that shows `app` on a screen `area`.
pub fn login_view(app: &App, area: Rect, censor_password: bool) -> (r: LoginView)
    requires
        area.wf(),
    ensures
        r.title@ == window_title(SCREEN_NAME@),
        r.username.shows(
            form_regions(area).username,
            app@.username,
            app@.focus == SelectedInput::Username,
        ),
        r.password.shows(
            form_regions(area).password,
            shown_password(app@, censor_password),
            app@.focus == SelectedInput::Password,
        ),
        r.help == form_regions(area).help,
        ({
            let field = if app@.focus == SelectedInput::Username {
                r.username
            } else {
                r.password
            };
            &&& r.cursor_x == cursor_column(field.area.x, display_width_of(field.text@))
            &&& r.cursor_y == cursor_row(field.area.y)
        }),
        app@.popup is None ==> r.popup is None,
        app@.popup matches Some(p) ==> r.popup matches Some(v) && v.area == centered(
            POPUP_PERCENT_X as int,
            POPUP_PERCENT_Y as int,
            area,
        ) && v.text_area == centered(
            POPUP_TEXT_PERCENT_X as int,
            POPUP_TEXT_PERCENT_Y as int,
            area,
        ) && v.title@ == p.title && v.body@ == p.body,
{
    let regions = form_layout(area);
    let username = FieldView {
        area: regions.username,
        text: app.username_input.clone(),
        focused: app.selected_input == SelectedInput::Username,
    };
    let password = FieldView {
        area: regions.password,
        text: if censor_password {
            app.censored_input.clone()
        } else {
            app.password_input.clone()
        },
        focused: app.selected_input == SelectedInput::Password,
    };
    let (cursor_x, cursor_y) = match app.selected_input {
        SelectedInput::Username => cursor_in(&username),
        SelectedInput::Password => cursor_in(&password),
    };
    let popup = match &app.popup {
        Some(p) => Some(
            PopupView {
                area: centered_rect(POPUP_PERCENT_X, POPUP_PERCENT_Y, area),
                text_area: centered_rect(POPUP_TEXT_PERCENT_X, POPUP_TEXT_PERCENT_Y, area),
                title: p.title.clone(),
                body: p.body.clone(),
            },
        ),
        None => None,
    };
    LoginView {
        title: get_window_title(SCREEN_NAME),
        username,
        password,
        help: regions.help,
        cursor_x,
        cursor_y,
        popup,
    }
}

} // verus!
