//! Errors of the terminal engine.

use vstd::prelude::*;

use crate::pty::session::SessionError;

verus! {

/// Why the terminal engine failed.
#[derive(Debug)]
pub enum Error {
    Session(SessionError),
    EventChannelFull,
    EventChannelClosed,
    RuntimeChannelClosed,
    Poll(String),
    Wake(String),
}

} // verus!
