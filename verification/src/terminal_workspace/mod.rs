//! Terminal tabs: their panes, the terminals in them and the interaction with
//! them.

pub mod commands;
pub mod event_laws;
pub mod laws;
pub mod layout;
pub mod panes;
pub mod reducer;
pub mod state;
pub mod types;
pub mod use_laws;
