//! Short-lived, human-typable passwords and the session state around one
//! generated value: which character classes are enabled, how the value reaches
//! the clipboard, and the countdown that closes the session.

pub mod charset;
pub mod clipboard;
pub mod config;
pub mod generator;
pub mod grouping;
pub mod i18n;
pub mod quota;
pub mod random;
pub mod session;
pub mod shuffle;
pub mod text;
pub mod theme;
pub mod timer;
