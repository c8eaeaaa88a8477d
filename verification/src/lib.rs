//! Screen Crab: the decisions behind a screen capture and screen recording tool.
//!
//! The library holds what the application decides: the answers it hands back to
//! its front end, the command lines it runs on each platform, how it reads the
//! areas and shortcut keys it is given, and how its menu toggles behave. The
//! application around it runs the processes, windows and dialogs.

pub mod response;
pub mod text;
pub mod parse;
pub mod keys;
pub mod flow;
pub mod commands;
pub mod area;
pub mod request;
pub mod hotkeys;
pub mod menu;
pub mod settings;
pub mod paths;
pub mod monitors;
pub mod formats;
pub mod layout;
