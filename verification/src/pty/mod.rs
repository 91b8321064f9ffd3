//! Pseudo terminal sessions: the trait that all of them share, the values
//! they exchange, and the two kinds of session.

pub mod laws;
pub mod local;
pub mod session;
pub mod ssh;
