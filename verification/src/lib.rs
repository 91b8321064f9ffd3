//! Logic of a terminal application.
//!
//! - `pty` describes terminal sessions and decides how they are opened.
//! - `term` connects a session with the escape parser and the surface.
//! - `ui_engine` turns what the user does in a terminal into requests.
//! - `quick_launch` keeps a tree of saved commands and launches them.
//! - `terminal_workspace` keeps terminal tabs and their panes.
//! - `session_options`, `settings`, `paths` and `events` hold what the widgets
//!   share.
//!
//! Each part states what it does in contracts over mathematical values, and
//! keeps what holds whatever happens as proof functions.

pub mod events;
pub mod geometry;
pub mod ids;
pub mod option_laws;
pub mod part_laws;
pub mod path_laws;
pub mod paths;
pub mod pty;
pub mod quick_launch;
pub mod reading_laws;
pub mod session_options;
pub mod settings;
pub mod term;
pub mod terminal_workspace;
pub mod text;
pub mod ui_engine;
pub mod ui_laws;
pub mod value_laws;
