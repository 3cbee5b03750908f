//! The logic of a full-screen terminal login form: the form state and the
//! key dispatcher that edits it, the fixed-credential check, the screen
//! layout, and the description of each frame that a terminal front end draws.

pub mod title;
pub mod auth;
pub mod form;
pub mod input;
pub mod layout;
pub mod view;
