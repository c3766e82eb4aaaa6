//! Decisions behind the REST endpoints.

pub mod dmenu;
pub mod i3msg;
pub mod xdotool;
pub mod properties;
pub mod scrot;
