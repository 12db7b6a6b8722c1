//! Staged window configuration: edits are collected in a draft and applied
//! together to the live window state, with fullscreen modes absorbing the
//! staged monitor and resolution choices.

pub mod window;

pub mod topology;
pub mod draft;
pub mod commit;
pub mod buttons;
pub mod laws;
