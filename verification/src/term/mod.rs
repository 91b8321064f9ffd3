//! The terminal engine: it connects a session with the escape parser and the
//! surface, and hands events to whoever shows the terminal.

pub mod channel;
pub mod engine;
pub mod engine_laws;
pub mod escape;
pub mod error;
pub mod laws;
pub mod loop_laws;
pub mod run;
pub mod runtime;
pub mod steps;
pub mod surface;
pub mod sync;
pub mod turn_laws;
pub mod use_laws;
