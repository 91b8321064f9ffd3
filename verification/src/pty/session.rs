//! The session trait and the values that sessions exchange.

use vstd::prelude::*;

use crate::paths::Platform;

verus! {

/// A length of time in nanoseconds.
#[derive(Debug, Clone, Copy, PartialEq, Eq, Structural)]
pub struct Span {
    pub nanos: u128,
}

impl Span {
    pub fn from_millis(millis: u64) -> (span: Span)
        ensures
            span.nanos == millis * 1_000_000,
    {
        Span { nanos: millis as u128 * 1_000_000 }
    }

    pub fn from_secs(secs: u64) -> (span: Span)
        ensures
            span.nanos == secs * 1_000_000_000,
    {
        Span { nanos: secs as u128 * 1_000_000_000 }
    }
}

/// Size of a pseudo terminal, in cells and in pixels per cell.
#[derive(Debug, Clone, Copy, PartialEq, Eq, Structural)]
pub struct PtySize {
    pub rows: u16,
    pub cols: u16,
    pub cell_width: u16,
    pub cell_height: u16,
}

impl PtySize {
    /// The size that a session has where none was asked for.
    pub open spec fn spec_default() -> PtySize {
        PtySize { rows: 24, cols: 80, cell_width: 0, cell_height: 0 }
    }
}

impl Default for PtySize {
    fn default() -> (r: Self)
        ensures
            r == PtySize::spec_default(),
    {
        PtySize { rows: 24, cols: 80, cell_width: 0, cell_height: 0 }
    }
}

/// The kinds of input/output error that the sessions tell apart.
#[derive(Debug, Clone, Copy, PartialEq, Eq, Structural)]
pub enum IoErrorKind {
    WouldBlock,
    Interrupted,
    UnexpectedEof,
    Other,
}

/// An input/output error.
#[derive(Debug)]
pub struct IoError {
    pub kind: IoErrorKind,
    /// The number that the operating system gave, if it came from there.
    pub raw_os_error: Option<i32>,
    pub message: String,
}

/// The number by which the SSH library names an error.
#[derive(Debug, Clone, Copy, PartialEq, Eq, Structural)]
pub enum SshErrorCode {
    Session(i32),
    Sftp(i32),
}

/// An error of the SSH library.
#[derive(Debug)]
pub struct SshError {
    pub code: SshErrorCode,
    pub message: String,
}

/// Why a session operation failed.
#[derive(Debug)]
pub enum SessionError {
    IO(IoError),
    SSH2(SshError),
    NoAddresses,
    Cancelled,
    Timeout { step: String, duration: Span },
    Internal(String),
}

/// How a child process ended: the wait status of a Unix system, or the exit
/// code of Windows.
#[derive(Debug, Clone, Copy, PartialEq, Eq, Structural)]
pub struct ExitStatus {
    pub raw: i32,
}

impl ExitStatus {
    /// The exit code of a process that ended by itself. In a wait status it is
    /// the second byte, where no signal stands in the low seven bits.
    pub open spec fn spec_code(self, platform: Platform) -> Option<i32> {
        match platform {
            Platform::Unix => if self.raw & 0x7f == 0 {
                Some((self.raw >> 8) & 0xff)
            } else {
                None
            },
            Platform::Windows => Some(self.raw),
        }
    }

    /// The exit code of a process that ended by itself.
    pub fn code(&self, platform: Platform) -> (code: Option<i32>)
        ensures
            code == self.spec_code(platform),
    {
        match platform {
            Platform::Unix => if self.raw & 0x7f == 0 {
                Some((self.raw >> 8) & 0xff)
            } else {
                None
            },
            Platform::Windows => Some(self.raw),
        }
    }
}

/// The status of a process that exited with `code`. In a wait status the low
/// byte of the code stands in the second byte.
pub open spec fn status_of_code(platform: Platform, code: i32) -> ExitStatus {
    match platform {
        Platform::Unix => ExitStatus { raw: (code & 0xff) << 8 },
        Platform::Windows => ExitStatus { raw: code },
    }
}

/// The status of a process that exited with `code`.
pub fn exit_status_from_code(platform: Platform, code: i32) -> (status: ExitStatus)
    ensures
        status == status_of_code(platform, code),
{
    match platform {
        Platform::Unix => {
            let low: i32 = code & 0xff;
            assert(0 <= (code & 0xff) <= 0xff) by (bit_vector);
            ExitStatus { raw: low << 8 }
        },
        Platform::Windows => ExitStatus { raw: code },
    }
}

/// The exit code survives the way through the status: its low byte on a Unix
/// system, all of it on Windows.
pub proof fn exit_code_survives(platform: Platform, code: i32)
    ensures
        status_of_code(platform, code).spec_code(platform) == Some(
            if platform is Unix {
                code & 0xff
            } else {
                code
            },
        ),
{
    assert(((code & 0xff) << 8) & 0x7f == 0) by (bit_vector);
    assert((((code & 0xff) << 8) >> 8) & 0xff == code & 0xff) by (bit_vector);
}

/// Whether an error only says that the call was interrupted.
pub open spec fn is_interrupted(error: SessionError) -> bool {
    error matches SessionError::IO(err) && err.kind == IoErrorKind::Interrupted
}

/// Whether an error only says that the call would block.
pub open spec fn is_blocked(error: SessionError) -> bool {
    error matches SessionError::IO(err) && err.kind == IoErrorKind::WouldBlock
}

/// A call to a session with its outcome, as it stands in the record of calls.
pub enum SessionCall {
    /// There was room for that many bytes; `bytes` are those that were handed
    /// out.
    Read { room: nat, bytes: Seq<u8>, got: Result<usize, SessionError> },
    Write { input: Seq<u8>, taken: Result<usize, SessionError> },
    Resize { size: PtySize, agreed: Result<(), SessionError> },
    Close { code: Result<i32, SessionError> },
    CheckExit { status: Result<Option<ExitStatus>, SessionError> },
}

/// The bytes that the session takes over in a call.
pub open spec fn taken_by(call: SessionCall) -> Seq<u8> {
    match call {
        SessionCall::Write { input, taken: Ok(n) } => input.take(n as int),
        _ => Seq::empty(),
    }
}

/// The bytes that the session hands out in a call.
pub open spec fn given_by(call: SessionCall) -> Seq<u8> {
    match call {
        SessionCall::Read { bytes, .. } => bytes,
        _ => Seq::empty(),
    }
}

/// The bytes that a session has taken over in a run of calls, in order.
pub open spec fn accepted_in(calls: Seq<SessionCall>) -> Seq<u8>
    decreases calls.len(),
{
    if calls.len() == 0 {
        Seq::empty()
    } else {
        accepted_in(calls.drop_last()) + taken_by(calls.last())
    }
}

/// The bytes that a session has handed out in a run of calls, in order.
pub open spec fn delivered_in(calls: Seq<SessionCall>) -> Seq<u8>
    decreases calls.len(),
{
    if calls.len() == 0 {
        Seq::empty()
    } else {
        delivered_in(calls.drop_last()) + given_by(calls.last())
    }
}

/// What a read leaves in the buffer.
pub open spec fn read_bytes(buf: Seq<u8>, outcome: Result<usize, SessionError>) -> Seq<u8> {
    match outcome {
        Ok(n) => buf.take(n as int),
        Err(_) => Seq::empty(),
    }
}

/// A pseudo terminal session, whatever carries it.
///
/// `calls` stands for the record of the calls so far, in order. `patience`
/// bounds how often in a row a session can hand out data or be interrupted
/// before it says that it would block. A session that is itself verified says
/// what the two are.
pub trait Session {
    open spec fn calls(&self) -> Seq<SessionCall> {
        Seq::empty()
    }

    open spec fn patience(&self) -> nat {
        0
    }

    /// Read data from the terminal side into the supplied buffer.
    fn read(&mut self, buf: &mut [u8]) -> (r: Result<usize, SessionError>)
        ensures
            final(buf)@.len() == old(buf)@.len(),
            final(self).calls() == old(self).calls().push(
                (SessionCall::Read {
                    room: old(buf)@.len(),
                    bytes: read_bytes(final(buf)@, r),
                    got: r,
                }),
            ),
            match r {
                Ok(n) => n <= old(buf)@.len() && (n > 0 ==> final(self).patience() < old(
                    self,
                ).patience()),
                Err(error) => is_interrupted(error) ==> final(self).patience() < old(
                    self,
                ).patience(),
            },
    ;

    /// Write data into the terminal, forwarding it to the child process. What
    /// is taken over is a leading part of the input, and its length is the
    /// result.
    fn write(&mut self, input: &[u8]) -> (r: Result<usize, SessionError>)
        ensures
            final(self).calls() == old(self).calls().push(
                (SessionCall::Write { input: input@, taken: r }),
            ),
            match r {
                Ok(n) => n <= input@.len(),
                Err(error) => is_interrupted(error) ==> final(self).patience() < old(
                    self,
                ).patience(),
            },
    ;

    /// Request a resize of the underlying pseudo terminal.
    fn resize(&mut self, size: PtySize) -> (r: Result<(), SessionError>)
        ensures
            final(self).calls() == old(self).calls().push(
                (SessionCall::Resize { size, agreed: r }),
            ),
    ;

    /// Terminate the session and return the exit code if one is available.
    fn close(&mut self) -> (r: Result<i32, SessionError>)
        ensures
            final(self).calls() == old(self).calls().push((SessionCall::Close { code: r })),
    ;

    /// Poll the child process for exit status updates without blocking.
    fn try_get_child_exit_status(&mut self) -> (r: Result<Option<ExitStatus>, SessionError>)
        ensures
            final(self).calls() == old(self).calls().push((SessionCall::CheckExit { status: r })),
    ;
}

} // verus!
