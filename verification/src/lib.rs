//! Window, tray and autostart coordination for a desktop shell that hosts a
//! remote web application in native webview windows.
//!
//! The crate decides; the host performs. Every function here works on plain
//! values and states in its contract what it returns and how it changes the
//! window registry.

pub mod address;
pub mod autostart;
pub mod config;
pub mod host;
pub mod label;
pub mod laws;
pub mod resolver;
pub mod script;
pub mod startup;
pub mod text;
pub mod tray;
pub mod window;
