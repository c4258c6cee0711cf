//! Preferences and window lifecycle for a desktop application shell.
//!
//! The crate holds the decisions; the host performs the file, codec and
//! windowing work and hands the outcomes back as plain values.

pub mod text;
pub mod auth;
pub mod common;
pub mod config;
pub mod window;
