//! How a session is opened over SSH, and what is made of its answers.

use std::sync::atomic::AtomicBool;
use std::sync::Arc;

use vstd::prelude::*;

use crate::paths::Platform;
use crate::pty::local::{LocalSession, LocalSessionBuilder};
use crate::pty::session::{
    status_of_code, ExitStatus, IoError, IoErrorKind, PtySize, SessionError, Span, SshError,
    SshErrorCode,
};
use crate::pty::ssh::{
    channel_read, channel_write, check_cancel, check_timeout, close_code, close_step, connect_first,
    connect_next, connect_wait, next_stage, pty_request, socket_ready, ssh, stage_name, AuthModel,
    ChannelRead, ChannelWrite, ConnectNext, ExitRecord, PtyRequest, Readiness, Retry,
    RetryableExecutor, SSHAuth, SSHSessionBuilder, SpawnStage, StepOutcome,
};

verus! {

/// The steps that open a session, in their order: each that works leads to the
/// next, and what the agent is asked comes before the command's own key or
/// password.
pub proof fn launch_takes_its_steps(
    stage: SpawnStage,
    outcome: StepOutcome,
    r: Result<SpawnStage, SessionError>,
)
    requires
        call_ensures(next_stage, (stage, outcome), r),
        outcome is Done,
    ensures
        stage is Connect ==> r == Ok::<_, SessionError>(SpawnStage::Handshake),
        stage is Handshake ==> r == Ok::<_, SessionError>(SpawnStage::OpenAgent),
        stage is OpenAgent ==> r == Ok::<_, SessionError>(SpawnStage::ConnectAgent),
        stage is ConnectAgent ==> r == Ok::<_, SessionError>(SpawnStage::RefreshIdentities),
        stage is RefreshIdentities ==> r == Ok::<_, SessionError>(SpawnStage::ListIdentities),
        stage is AgentAuth ==> r == Ok::<_, SessionError>(SpawnStage::AskAuthenticated),
        stage is Authenticate ==> r == Ok::<_, SessionError>(SpawnStage::OpenChannel),
        stage is OpenChannel ==> r == Ok::<_, SessionError>(SpawnStage::SetupChannel),
        stage is SetupChannel ==> r == Ok::<_, SessionError>(SpawnStage::RequestPty),
        stage is RequestPty ==> r == Ok::<_, SessionError>(SpawnStage::StartShell),
        stage is StartShell ==> r == Ok::<_, SessionError>(SpawnStage::Ready),
{
}

/// The agent's identities are tried one after the other, until one works or none
/// is left; only where that has not logged in, the command's own way is tried.
pub proof fn identities_are_tried_in_turn(
    total: usize,
    index: usize,
    error: SessionError,
    listed: Result<SpawnStage, SessionError>,
    failed: Result<SpawnStage, SessionError>,
    logged_in: Result<SpawnStage, SessionError>,
    not_logged_in: Result<SpawnStage, SessionError>,
)
    requires
        call_ensures(
            next_stage,
            (SpawnStage::ListIdentities, StepOutcome::Identities(total)),
            listed,
        ),
        call_ensures(
            next_stage,
            (SpawnStage::AgentAuth(index, total), StepOutcome::Failed(error)),
            failed,
        ),
        call_ensures(
            next_stage,
            (SpawnStage::AskAuthenticated, StepOutcome::Authenticated(true)),
            logged_in,
        ),
        call_ensures(
            next_stage,
            (SpawnStage::AskAuthenticated, StepOutcome::Authenticated(false)),
            not_logged_in,
        ),
    ensures
        total > 0 ==> listed == Ok::<_, SessionError>(SpawnStage::AgentAuth(0, total)),
        total == 0 ==> listed == Ok::<_, SessionError>(SpawnStage::AskAuthenticated),
        index + 1 < total ==> failed == Ok::<_, SessionError>(
            SpawnStage::AgentAuth((index + 1) as usize, total),
        ),
        index + 1 >= total ==> failed == Ok::<_, SessionError>(SpawnStage::AskAuthenticated),
        logged_in == Ok::<_, SessionError>(SpawnStage::OpenChannel),
        not_logged_in == Ok::<_, SessionError>(SpawnStage::Authenticate),
{
}

/// A step that fails ends the launch with its own error, but for those with the
/// agent, after which the launch goes on without it.
pub proof fn failed_step_ends_the_launch(
    stage: SpawnStage,
    error: SessionError,
    r: Result<SpawnStage, SessionError>,
)
    requires
        call_ensures(next_stage, (stage, StepOutcome::Failed(error)), r),
    ensures
        (stage is Connect || stage is Handshake || stage is Authenticate || stage is OpenChannel
            || stage is SetupChannel || stage is RequestPty || stage is StartShell) ==> r == Err::<
            SpawnStage,
            _,
        >(error),
        (stage is OpenAgent || stage is ConnectAgent || stage is RefreshIdentities
            || stage is ListIdentities) ==> r == Ok::<_, SessionError>(
            SpawnStage::AskAuthenticated,
        ),
        stage is AskAuthenticated ==> r == Ok::<_, SessionError>(SpawnStage::Authenticate),
{
}

/// The name under which a step that takes too long is reported.
pub proof fn steps_have_their_names(stage: SpawnStage, auth: SSHAuth, name: &'static str)
    requires
        call_ensures(stage_name, (stage, &auth), name),
    ensures
        stage is Connect ==> name@ == "tcp connect"@,
        stage is Handshake ==> name@ == "ssh handshake"@,
        stage is Authenticate && auth@ is Password ==> name@ == "ssh password auth"@,
        stage is Authenticate && auth@ is KeyFile ==> name@ == "ssh key auth"@,
        stage is OpenChannel ==> name@ == "ssh channel open"@,
        stage is RequestPty ==> name@ == "ssh request pty"@,
        stage is StartShell ==> name@ == "ssh shell"@,
{
}

/// A step is not tried once the launch is canceled, which comes first, or has
/// taken as long as it may; the error names the step and the time it had.
pub proof fn no_try_after_cancel_or_timeout(
    executor: RetryableExecutor,
    canceled: bool,
    elapsed: Span,
    step: &str,
    r: Result<(), SessionError>,
)
    requires
        call_ensures(RetryableExecutor::before_try, (&executor, canceled, elapsed, step), r),
    ensures
        canceled ==> r == Err::<(), _>(SessionError::Cancelled),
        !canceled && executor.timeout is None ==> r is Ok,
        !canceled ==> (executor.timeout matches Some(limit) ==> if elapsed.nanos >= limit.nanos {
            r matches Err(SessionError::Timeout { step: name, duration }) && name@ == step@
                && duration == limit
        } else {
            r is Ok
        }),
{
}

/// A cancel and a timeout are the only reasons for which a check fails.
pub proof fn checks_fail_for_their_reason(
    canceled: bool,
    elapsed: Span,
    timeout: Option<Span>,
    step: &str,
    first: Result<(), SessionError>,
    second: Result<(), SessionError>,
)
    requires
        call_ensures(check_cancel, (canceled,), first),
        call_ensures(check_timeout, (elapsed, timeout, step), second),
    ensures
        first is Err == canceled,
        first matches Err(error) ==> error is Cancelled,
        second is Err == (timeout is Some && elapsed.nanos >= timeout->0.nanos),
        second matches Err(error) ==> error is Timeout && error->duration == timeout->0
            && error->step@ == step@,
{
}

/// The number by which the library says that it would block.
pub open spec fn says_again(error: SshError) -> bool {
    error.code == SshErrorCode::Session(-37i32)
}

/// A step that would block is tried again; one that works is done; any other
/// error ends the launch as it is.
pub proof fn blocked_step_is_tried_again(
    executor: RetryableExecutor,
    outcome: Result<(), SshError>,
    next: Retry,
)
    requires
        call_ensures(RetryableExecutor::after_try, (&executor, outcome), next),
    ensures
        outcome is Ok ==> next is Done,
        outcome matches Err(error) ==> if says_again(error) {
            next is Again
        } else {
            next == Retry::Fail(SessionError::SSH2(error))
        },
{
}

/// The addresses of a host are tried from the first on, each after the one before
/// it could not be reached. No address, or none that can be reached, is an error;
/// so is running out of time, with the time there was.
pub proof fn addresses_are_tried_in_turn(
    count: usize,
    index: usize,
    outcome: Result<(), SessionError>,
    timeout: Option<Span>,
    first: ConnectNext,
    next: ConnectNext,
)
    requires
        index < count,
        call_ensures(connect_first, (count,), first),
        call_ensures(connect_next, (count, index, outcome, timeout), next),
    ensures
        first == ConnectNext::Try(0),
        outcome is Ok ==> next is Connected,
        outcome matches Err(SessionError::IO(_)) ==> if index + 1 < count {
            next == ConnectNext::Try((index + 1) as usize)
        } else {
            next matches ConnectNext::Fail(SessionError::Internal(message)) && message@
                == "ssh connect failed"@
        },
        outcome matches Err(SessionError::Timeout { .. }) ==> (
        next matches ConnectNext::Fail(SessionError::Timeout { step, duration }) && step@
            == "tcp connect"@ && (timeout matches Some(limit) ==> duration == limit)),
        outcome matches Err(SessionError::Cancelled) ==> next == ConnectNext::Fail(
            SessionError::Cancelled,
        ),
{
}

/// A host without an address cannot be tried.
pub proof fn no_address_is_an_error(first: ConnectNext)
    requires
        call_ensures(connect_first, (0usize,), first),
    ensures
        first == ConnectNext::Fail(SessionError::NoAddresses),
{
}

/// A wait for a connection is short, and never longer than what is left.
pub proof fn wait_fits_into_what_is_left(timeout: Option<Span>, elapsed: Span, wait: Span)
    requires
        call_ensures(connect_wait, (timeout, elapsed), wait),
    ensures
        wait.nanos <= 200_000_000,
        timeout is None ==> wait.nanos == 200_000_000,
        timeout matches Some(limit) ==> {
            &&& elapsed.nanos >= limit.nanos ==> wait.nanos == 0
            &&& elapsed.nanos + 200_000_000 <= limit.nanos ==> wait.nanos == 200_000_000
            &&& elapsed.nanos <= limit.nanos < elapsed.nanos + 200_000_000 ==> elapsed.nanos
                + wait.nanos == limit.nanos
        },
{
}

/// A connection is ready once its socket can be read or written; nothing else
/// makes it so.
pub proof fn socket_makes_a_connection_ready(event: Readiness)
    ensures
        event.token == 0 && event.writable ==> socket_ready(event),
        event.token == 0 && event.readable ==> socket_ready(event),
        event.token != 0 || !(event.readable || event.writable) ==> !socket_ready(event),
{
}

/// The terminal of an SSH session has the columns and rows that were asked for,
/// and as many pixels as its cells make up.
pub proof fn remote_terminal_has_the_size(size: PtySize, request: PtyRequest)
    requires
        call_ensures(pty_request, (size,), request),
    ensures
        request.cols == size.cols,
        request.rows == size.rows,
        request.pixel_width == size.cols * size.cell_width,
        request.pixel_height == size.rows * size.cell_height,
{
    assert(size.cols * size.cell_width == size.cell_width * size.cols) by (nonlinear_arith);
    assert(size.rows * size.cell_height == size.cell_height * size.rows) by (nonlinear_arith);
}

/// Reading an SSH channel: no bytes are the end, a call that would block finds it
/// not ready, and any other error is passed on. Writing is judged alike.
pub proof fn channel_answers_are_judged(
    outcome: Result<usize, IoError>,
    read: ChannelRead,
    write: ChannelWrite,
)
    requires
        call_ensures(channel_read, (outcome,), read),
        call_ensures(channel_write, (outcome,), write),
    ensures
        outcome matches Ok(n) ==> write == ChannelWrite::Written(n) && if n == 0 {
            read is Eof
        } else {
            read == ChannelRead::Bytes(n)
        },
        outcome matches Err(error) ==> if error.kind == IoErrorKind::WouldBlock {
            read is NotReady && write is NotReady
        } else {
            read == ChannelRead::Fail(SessionError::IO(error)) && write == ChannelWrite::Fail(
                SessionError::IO(error),
            )
        },
{
}

/// Closing a channel that would block counts as closed.
pub proof fn closing_does_not_wait(outcome: Result<(), SshError>, r: Result<(), SessionError>)
    requires
        call_ensures(close_step, (outcome,), r),
    ensures
        outcome is Ok ==> r is Ok,
        outcome matches Err(error) ==> if says_again(error) {
            r is Ok
        } else {
            r == Err::<(), _>(SessionError::SSH2(error))
        },
{
}

/// An exit is asked for only at the end of the channel, and kept once it is
/// known: later answers do not change it.
pub proof fn exit_is_kept(
    record: &mut ExitRecord,
    platform: Platform,
    eof: bool,
    answer: Result<i32, SshError>,
    r: Result<Option<ExitStatus>, SessionError>,
)
    requires
        call_ensures(ExitRecord::try_get_exit_status, (record, platform, eof, answer), r),
    ensures
        final(record).exit_notified == old(record).exit_notified,
        old(record).exit_status matches Some(status) ==> final(record).exit_status == Some(status)
            && (r matches Ok(told) && told == Some(status)),
        old(record).exit_status is None && !eof ==> final(record).exit_status is None && (
        r matches Ok(told) && told is None),
        old(record).exit_status is None && eof ==> match answer {
            Ok(code) => final(record).exit_status == Some(status_of_code(platform, code)) && (
            r matches Ok(told) && told == Some(status_of_code(platform, code))),
            Err(error) => final(record).exit_status is None && if says_again(error) {
                r matches Ok(told) && told is None
            } else {
                r == Err::<Option<ExitStatus>, _>(SessionError::SSH2(error))
            },
        },
{
}

/// The status of an exit carries its code: in the second byte on Unix, as it is
/// on Windows.
pub proof fn status_carries_the_code(code: i32)
    ensures
        0 <= code < 256 ==> status_of_code(Platform::Unix, code).raw == code * 256,
        status_of_code(Platform::Windows, code).raw == code,
        status_of_code(Platform::Windows, code).spec_code(Platform::Windows) == Some(code),
{
    assert(0 <= code < 256 ==> (code & 0xff) << 8 == code * 256) by (bit_vector);
}

/// A process that a signal ended has no code on Unix; one that ended by itself
/// has the second byte of its status.
pub proof fn signals_leave_no_code(status: ExitStatus)
    ensures
        status.raw & 0x7f != 0 ==> status.spec_code(Platform::Unix) is None,
        0 <= status.raw < 0x10000 && status.raw % 256 == 0 ==> status.spec_code(Platform::Unix)
            == Some((status.raw as int / 256) as i32),
{
    let raw = status.raw;
    assert(0 <= raw < 0x10000 && raw % 256 == 0 ==> raw & 0x7f == 0 && (raw >> 8) & 0xff == raw
        / 256) by (bit_vector);
}

/// A closed session ends with the code of its child, and with zero where that has
/// none.
pub proof fn closed_session_has_the_code(
    platform: Platform,
    status: Option<ExitStatus>,
    code: i32,
)
    requires
        call_ensures(close_code, (platform, status), code),
    ensures
        status is None ==> code == 0,
        status matches Some(status) ==> match status.spec_code(platform) {
            Some(known) => code == known,
            None => code == 0,
        },
{
}

/// Whoever waits for the exit is told once.
pub proof fn exit_is_told_once(record: &mut ExitRecord)
    requires
        call_ensures(ExitRecord::notified, (record,), ()),
    ensures
        final(record).exit_notified,
        final(record).exit_status == old(record).exit_status,
{
}

/// Every option that is set on an SSH session is the one it is opened with, and
/// leaves the others as they were.
pub proof fn ssh_options_are_kept(
    builder: SSHSessionBuilder,
    host: &str,
    user: &str,
    auth: SSHAuth,
    size: PtySize,
    timeout: Span,
    cancel: Arc<AtomicBool>,
    a: SSHSessionBuilder,
    b: SSHSessionBuilder,
    c: SSHSessionBuilder,
    d: SSHSessionBuilder,
    e: SSHSessionBuilder,
    f: SSHSessionBuilder,
)
    requires
        call_ensures(SSHSessionBuilder::with_host, (builder, host), a),
        call_ensures(SSHSessionBuilder::with_user, (a, user), b),
        call_ensures(SSHSessionBuilder::with_auth, (b, auth), c),
        call_ensures(SSHSessionBuilder::with_size, (c, size), d),
        call_ensures(SSHSessionBuilder::with_timeout, (d, timeout), e),
        call_ensures(SSHSessionBuilder::with_cancel_token, (e, cancel), f),
    ensures
        f@.host == host@,
        f@.user == user@,
        f@.auth == auth@,
        f@.size == size,
        f@.timeout == Some(timeout),
        f@.cancel == Some(cancel),
{
}

/// An SSH session for which nothing was set goes nowhere as nobody, with an empty
/// password and without a limit of time.
pub proof fn bare_ssh_session(builder: SSHSessionBuilder)
    requires
        call_ensures(ssh, (), builder),
    ensures
        builder@.host.len() == 0,
        builder@.user.len() == 0,
        builder@.auth matches AuthModel::Password(word) && word.len() == 0,
        builder@.timeout is None,
        builder@.cancel is None,
        builder@.size.rows == 24 && builder@.size.cols == 80,
{
}

/// A local session on Windows is refused, and the words point to SSH.
pub proof fn local_sessions_are_refused_on_windows(
    builder: LocalSessionBuilder,
    r: Result<LocalSession, SessionError>,
)
    requires
        call_ensures(LocalSessionBuilder::spawn, (builder,), r),
    ensures
        r matches Err(SessionError::Internal(message)) && message@
            == "local terminal sessions are not supported on Windows yet; use a Quick Launch SSH target to connect to a remote host"@,
{
}

} // verus!
