//! Verified core of an auto-keypress desktop tool: key tables and key-event
//! planning, the window picker's decisions, the interface text in two
//! languages, the saved configuration, send statistics and the state of the
//! main window. Everything that touches the operating system or the GUI
//! toolkit lives in the companion application crate.
pub mod text;
pub mod key_sender;
pub mod i18n;
pub mod scheduler;
pub mod config;
pub mod window_picker;
pub mod app_state;
