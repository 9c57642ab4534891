//! The verified core of a desktop tray application: the event routing for
//! a system-tray icon with a show/logout/quit menu and a hide-on-close main
//! window, and the pure half of a generic HTTP relay — method validation,
//! response normalization, and the interpretation of login responses. The
//! transport and the windowing calls themselves live outside this crate;
//! what is here decides, for every event and every delivered response, what
//! the shell must do with it.

pub mod json;
pub mod relay;
pub mod text;
pub mod tray;
