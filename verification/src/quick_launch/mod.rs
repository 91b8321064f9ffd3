//! The quick launch tree: saved commands, their editor and their launches.

pub mod edit_laws;
pub mod errors;
pub mod event;
pub mod frame_laws;
pub mod launch_laws;
pub mod launches;
pub mod pointer_laws;
pub mod reducer;
pub mod reducer_laws;
pub mod services;
pub mod setup;
pub mod state;
pub mod transitions;
pub mod tree;
pub mod tree_laws;
pub mod types;
pub mod use_laws;
pub mod widget_laws;
pub mod wizard;
