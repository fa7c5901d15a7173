//! Core logic of the What-N-When desktop calendar widget: the persisted
//! options and their editing rules, the desktop double-click listener, and the
//! show / hide / transparency state machine of the main widget window.
//!
//! Everything that talks to the operating system (files, the registry, the
//! Win32 mouse hook, the webview windows) lives outside this crate; it hands
//! plain values to the functions here and performs the commands they return.

pub mod options;
pub mod state;
pub mod widget;
pub mod desktop;
pub mod commands;
pub mod laws;
