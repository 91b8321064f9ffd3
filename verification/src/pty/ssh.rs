//! SSH sessions: how they are described, and the decisions on the way from an
//! address to a running remote shell and to its exit status.

use std::sync::atomic::{AtomicBool, Ordering};
use std::sync::Arc;

use vstd::prelude::*;

use crate::paths::Platform;
use crate::pty::session::{
    exit_status_from_code, status_of_code, ExitStatus, IoError, IoErrorKind, PtySize,
    SessionError, Span, SshError, SshErrorCode,
};
use crate::quick_launch::types::copy_option;
use crate::text::text_opt;

verus! {

/// The code by which the SSH library says that an operation would block.
pub const LIBSSH2_ERROR_EAGAIN: i32 = -37;

/// The terminal type that is requested for the remote shell.
pub const REQUEST_PTY_TAG: &'static str = "xterm-256color";

/// Milliseconds that one wait for a connection may take.
pub const CONNECT_POLL_MS: u64 = 200;

/// Milliseconds to wait before an operation that would block is tried again.
pub const SSH_RETRY_DELAY_MS: u64 = 10;

/// How a session authenticates.
#[derive(Debug)]
pub enum SSHAuth {
    /// With a plain-text password.
    Password(String),
    /// With a private key file, optionally protected by a passphrase.
    KeyFile { private_key_path: String, passphrase: Option<String> },
}

/// The mathematical value of an authentication strategy.
pub enum AuthModel {
    Password(Seq<char>),
    KeyFile(Seq<char>, Option<Seq<char>>),
}

impl View for SSHAuth {
    type V = AuthModel;

    open spec fn view(&self) -> AuthModel {
        match self {
            SSHAuth::Password(password) => AuthModel::Password(password@),
            SSHAuth::KeyFile { private_key_path, passphrase } => AuthModel::KeyFile(
                private_key_path@,
                text_opt(*passphrase),
            ),
        }
    }
}

impl Clone for SSHAuth {
    fn clone(&self) -> (r: Self)
        ensures
            r@ == self@,
    {
        match self {
            SSHAuth::Password(password) => SSHAuth::Password(password.clone()),
            SSHAuth::KeyFile { private_key_path, passphrase } => SSHAuth::KeyFile {
                private_key_path: private_key_path.clone(),
                passphrase: copy_option(passphrase),
            },
        }
    }
}

impl Default for SSHAuth {
    fn default() -> (r: Self)
        ensures
            r@ == AuthModel::Password(Seq::empty()),
    {
        let empty = String::new();
        assert(empty@ =~= Seq::<char>::empty());
        SSHAuth::Password(empty)
    }
}

/// Describes how to establish an SSH session.
#[derive(Debug)]
pub struct SSHSessionBuilder {
    host: String,
    user: String,
    auth: SSHAuth,
    size: PtySize,
    timeout: Option<Span>,
    cancel: Option<Arc<AtomicBool>>,
}

/// The mathematical value of an SSH session builder.
#[verifier::ext_equal]
pub struct SshBuilderModel {
    pub host: Seq<char>,
    pub user: Seq<char>,
    pub auth: AuthModel,
    pub size: PtySize,
    pub timeout: Option<Span>,
    pub cancel: Option<Arc<AtomicBool>>,
}

impl View for SSHSessionBuilder {
    type V = SshBuilderModel;

    closed spec fn view(&self) -> SshBuilderModel {
        SshBuilderModel {
            host: self.host@,
            user: self.user@,
            auth: self.auth@,
            size: self.size,
            timeout: self.timeout,
            cancel: self.cancel,
        }
    }
}

/// A builder on which nothing is set.
pub open spec fn bare_ssh() -> SshBuilderModel {
    SshBuilderModel {
        host: Seq::empty(),
        user: Seq::empty(),
        auth: AuthModel::Password(Seq::empty()),
        size: PtySize::spec_default(),
        timeout: None,
        cancel: None,
    }
}

impl Default for SSHSessionBuilder {
    fn default() -> (r: Self)
        ensures
            r@ == bare_ssh(),
    {
        let r = SSHSessionBuilder {
            host: String::new(),
            user: String::new(),
            auth: SSHAuth::default(),
            size: PtySize::default(),
            timeout: None,
            cancel: None,
        };
        assert(r@ =~= bare_ssh());
        r
    }
}

/// Start building an SSH session.
pub fn ssh() -> (r: SSHSessionBuilder)
    ensures
        r@ == bare_ssh(),
{
    SSHSessionBuilder::default()
}

impl SSHSessionBuilder {
    /// Set the `<host>:<port>` pair that the session should connect to.
    pub fn with_host(self, host: &str) -> (r: Self)
        ensures
            r@ == (SshBuilderModel { host: host@, ..self@ }),
    {
        SSHSessionBuilder { host: host.to_string(), ..self }
    }

    /// Set the user that should be authenticated on the remote host.
    pub fn with_user(self, user: &str) -> (r: Self)
        ensures
            r@ == (SshBuilderModel { user: user@, ..self@ }),
    {
        SSHSessionBuilder { user: user.to_string(), ..self }
    }

    /// Configure the authentication mechanism for the upcoming connection.
    pub fn with_auth(self, auth: SSHAuth) -> (r: Self)
        ensures
            r@ == (SshBuilderModel { auth: auth@, ..self@ }),
    {
        SSHSessionBuilder { auth, ..self }
    }

    /// Override the initial remote PTY size advertised to the server.
    pub fn with_size(self, size: PtySize) -> (r: Self)
        ensures
            r@ == (SshBuilderModel { size, ..self@ }),
    {
        SSHSessionBuilder { size, ..self }
    }

    /// Set an overall timeout for connecting and authenticating the session.
    pub fn with_timeout(self, timeout: Span) -> (r: Self)
        ensures
            r@ == (SshBuilderModel { timeout: Some(timeout), ..self@ }),
    {
        SSHSessionBuilder { timeout: Some(timeout), ..self }
    }

    /// Provide a cancellation token to abort session launch.
    pub fn with_cancel_token(self, cancel: Arc<AtomicBool>) -> (r: Self)
        ensures
            r@ == (SshBuilderModel { cancel: Some(cancel), ..self@ }),
    {
        SSHSessionBuilder { cancel: Some(cancel), ..self }
    }

    /// What the builder describes, for whoever establishes the session.
    pub fn into_parts(self) -> (parts: SshTarget)
        ensures
            parts.host@ == self@.host,
            parts.user@ == self@.user,
            parts.auth@ == self@.auth,
            parts.size == self@.size,
            parts.timeout == self@.timeout,
            parts.cancel == self@.cancel,
    {
        SshTarget {
            host: self.host,
            user: self.user,
            auth: self.auth,
            size: self.size,
            timeout: self.timeout,
            cancel: self.cancel,
        }
    }
}

/// What an SSH session connects to, and how.
#[derive(Debug)]
pub struct SshTarget {
    pub host: String,
    pub user: String,
    pub auth: SSHAuth,
    pub size: PtySize,
    pub timeout: Option<Span>,
    pub cancel: Option<Arc<AtomicBool>>,
}

/// Whether an error of the SSH library asks for another try.
pub open spec fn would_block(code: SshErrorCode) -> bool {
    code == SshErrorCode::Session(LIBSSH2_ERROR_EAGAIN)
}

/// Whether an error of the SSH library asks for another try.
pub fn is_would_block(err: &SshError) -> (r: bool)
    ensures
        r == would_block(err.code),
{
    match err.code {
        SshErrorCode::Session(code) => code == LIBSSH2_ERROR_EAGAIN,
        SshErrorCode::Sftp(_) => false,
    }
}

/// Whether the launch was asked to stop. What a raised flag holds is a matter
/// between threads and is not stated.
pub fn is_canceled(cancel: Option<&Arc<AtomicBool>>) -> (canceled: bool)
    ensures
        cancel is None ==> !canceled,
{
    match cancel {
        Some(flag) => flag.load(Ordering::Relaxed),
        None => false,
    }
}

/// Fail once the launch was asked to stop.
pub fn check_cancel(canceled: bool) -> (r: Result<(), SessionError>)
    ensures
        canceled ==> r == Err::<(), _>(SessionError::Cancelled),
        !canceled ==> r == Ok::<_, SessionError>(()),
{
    if canceled {
        return Err(SessionError::Cancelled);
    }
    Ok(())
}

/// Whether the time for a launch is used up.
pub open spec fn timed_out(elapsed: Span, timeout: Option<Span>) -> bool {
    timeout is Some && elapsed.nanos >= timeout->0.nanos
}

/// Fail once the time for a launch is used up.
pub fn check_timeout(elapsed: Span, timeout: Option<Span>, step: &str) -> (r: Result<
    (),
    SessionError,
>)
    ensures
        timed_out(elapsed, timeout) ==> is_timeout(r, step@, timeout->0),
        !timed_out(elapsed, timeout) ==> r == Ok::<_, SessionError>(()),
{
    if let Some(limit) = timeout {
        if elapsed.nanos >= limit.nanos {
            return Err(SessionError::Timeout { step: step.to_string(), duration: limit });
        }
    }
    Ok(())
}

/// The failure of a step that took too long.
pub open spec fn is_timeout<T>(
    r: Result<T, SessionError>,
    step: Seq<char>,
    duration: Span,
) -> bool {
    r is Err && r->Err_0 is Timeout && r->Err_0->step@ == step && r->Err_0->duration == duration
}

/// What to do after one try of an operation.
#[derive(Debug)]
pub enum Retry {
    /// The operation is done.
    Done,
    /// Wait `SSH_RETRY_DELAY_MS` and try again.
    Again,
    /// The operation failed for good.
    Fail(SessionError),
}

/// Decides, try by try, how an operation goes on that may block: it ends when
/// the launch is canceled, when the time is used up, when the operation
/// succeeds, or when it fails with anything but a request to try again.
#[derive(Debug)]
pub struct RetryableExecutor {
    pub timeout: Option<Span>,
}

impl RetryableExecutor {
    /// Whether one more try is due.
    pub fn before_try(&self, canceled: bool, elapsed: Span, step: &str) -> (r: Result<
        (),
        SessionError,
    >)
        ensures
            canceled ==> r == Err::<(), _>(SessionError::Cancelled),
            !canceled && timed_out(elapsed, self.timeout) ==> is_timeout(
                r,
                step@,
                self.timeout->0,
            ),
            !canceled && !timed_out(elapsed, self.timeout) ==> r == Ok::<_, SessionError>(()),
    {
        match check_cancel(canceled) {
            Ok(()) => check_timeout(elapsed, self.timeout, step),
            Err(err) => Err(err),
        }
    }

    /// What one try means for the operation.
    pub fn after_try(&self, outcome: Result<(), SshError>) -> (next: Retry)
        ensures
            match outcome {
                Ok(_) => next is Done,
                Err(err) => if would_block(err.code) {
                    next is Again
                } else {
                    next == Retry::Fail(SessionError::SSH2(err))
                },
            },
    {
        match outcome {
            Ok(()) => Retry::Done,
            Err(err) => if is_would_block(&err) {
                Retry::Again
            } else {
                Retry::Fail(SessionError::SSH2(err))
            },
        }
    }
}

/// What to do after one address was tried.
#[derive(Debug)]
pub enum ConnectNext {
    /// The connection stands.
    Connected,
    /// Try the address of the given index.
    Try(usize),
    /// Give up.
    Fail(SessionError),
}

/// Start on the first of `count` addresses.
pub fn connect_first(count: usize) -> (next: ConnectNext)
    ensures
        next == (if count == 0 {
            ConnectNext::Fail(SessionError::NoAddresses)
        } else {
            ConnectNext::Try(0)
        }),
{
    if count == 0 {
        ConnectNext::Fail(SessionError::NoAddresses)
    } else {
        ConnectNext::Try(0)
    }
}

/// How connecting goes on after the address at `index` was tried: an
/// input/output error moves on to the next address, anything else ends it.
pub fn connect_next(
    count: usize,
    index: usize,
    outcome: Result<(), SessionError>,
    timeout: Option<Span>,
) -> (next: ConnectNext)
    requires
        index < count,
    ensures
        match outcome {
            Ok(_) => next is Connected,
            Err(SessionError::IO(_)) => if index + 1 < count {
                next == ConnectNext::Try((index + 1) as usize)
            } else {
                next is Fail && next->Fail_0 is Internal && next->Fail_0->Internal_0@
                    == "ssh connect failed"@
            },
            Err(SessionError::Timeout { .. }) => next is Fail && next->Fail_0 is Timeout
                && next->Fail_0->step@ == "tcp connect"@ && next->Fail_0->duration == (
            match timeout {
                Some(limit) => limit,
                None => Span { nanos: 0 },
            }),
            Err(err) => next == ConnectNext::Fail(err),
        },
{
    match outcome {
        Ok(()) => ConnectNext::Connected,
        Err(SessionError::IO(_)) => if index + 1 < count {
            ConnectNext::Try(index + 1)
        } else {
            ConnectNext::Fail(SessionError::Internal("ssh connect failed".to_string()))
        },
        Err(SessionError::Timeout { .. }) => {
            let duration = match timeout {
                Some(limit) => limit,
                None => Span { nanos: 0 },
            };
            ConnectNext::Fail(
                SessionError::Timeout { step: "tcp connect".to_string(), duration },
            )
        },
        Err(err) => ConnectNext::Fail(err),
    }
}

/// How long to wait for the connection before looking again: a short tick, and
/// never longer than what is left of the timeout.
pub fn connect_wait(timeout: Option<Span>, elapsed: Span) -> (wait: Span)
    ensures
        wait.nanos <= CONNECT_POLL_MS * 1_000_000,
        match timeout {
            None => wait.nanos == CONNECT_POLL_MS * 1_000_000,
            Some(limit) => {
                &&& elapsed.nanos >= limit.nanos ==> wait.nanos == 0
                &&& elapsed.nanos < limit.nanos && limit.nanos - elapsed.nanos < CONNECT_POLL_MS
                    * 1_000_000 ==> wait.nanos == limit.nanos - elapsed.nanos
                &&& limit.nanos - elapsed.nanos >= CONNECT_POLL_MS * 1_000_000 ==> wait.nanos
                    == CONNECT_POLL_MS * 1_000_000
            },
        },
{
    let tick = Span::from_millis(CONNECT_POLL_MS);
    match timeout {
        Some(limit) => {
            if elapsed.nanos >= limit.nanos {
                Span { nanos: 0 }
            } else if limit.nanos - elapsed.nanos < tick.nanos {
                Span { nanos: limit.nanos - elapsed.nanos }
            } else {
                tick
            }
        },
        None => tick,
    }
}

/// One readiness report of the poller.
#[derive(Debug, Clone, Copy, PartialEq, Eq, Structural)]
pub struct Readiness {
    pub token: usize,
    pub readable: bool,
    pub writable: bool,
}

/// Whether a report says that the socket with token zero can be looked at.
pub open spec fn socket_ready(event: Readiness) -> bool {
    event.token == 0 && (event.writable || event.readable)
}

/// Whether the connecting socket is ready.
pub fn connect_ready(events: &Vec<Readiness>) -> (ready: bool)
    ensures
        ready == exists|i: int| 0 <= i < events@.len() && socket_ready(#[trigger] events@[i]),
{
    let mut i: usize = 0;
    while i < events.len()
        invariant
            i <= events@.len(),
            forall|j: int| 0 <= j < i ==> !socket_ready(#[trigger] events@[j]),
        decreases events@.len() - i,
    {
        if events[i].token == 0 && (events[i].writable || events[i].readable) {
            assert(socket_ready(events@[i as int]));
            return true;
        }
        i += 1;
    }
    false
}

/// The size of a terminal as the SSH protocol asks for it: columns, rows,
/// width and height in pixels.
#[derive(Debug, Clone, Copy, PartialEq, Eq, Structural)]
pub struct PtyRequest {
    pub cols: u32,
    pub rows: u32,
    pub pixel_width: u32,
    pub pixel_height: u32,
}

/// What is asked of the server for a terminal of the given size.
pub fn pty_request(size: PtySize) -> (request: PtyRequest)
    ensures
        request.cols == size.cols,
        request.rows == size.rows,
        request.pixel_width == size.cell_width * size.cols,
        request.pixel_height == size.cell_height * size.rows,
{
    assert(size.cell_width * size.cols <= 0xffff * 0xffff) by (nonlinear_arith)
        requires
            size.cell_width <= 0xffff,
            size.cols <= 0xffff,
    ;
    assert(size.cell_height * size.rows <= 0xffff * 0xffff) by (nonlinear_arith)
        requires
            size.cell_height <= 0xffff,
            size.rows <= 0xffff,
    ;
    PtyRequest {
        cols: size.cols as u32,
        rows: size.rows as u32,
        pixel_width: size.cell_width as u32 * size.cols as u32,
        pixel_height: size.cell_height as u32 * size.rows as u32,
    }
}

/// The steps on the way to a remote shell.
#[derive(Debug, Clone, Copy, PartialEq, Eq, Structural)]
pub enum SpawnStage {
    Connect,
    Handshake,
    OpenAgent,
    ConnectAgent,
    RefreshIdentities,
    ListIdentities,
    /// Offer the agent's identity of the given index, out of a total.
    AgentAuth(usize, usize),
    AskAuthenticated,
    Authenticate,
    OpenChannel,
    SetupChannel,
    RequestPty,
    StartShell,
    /// The remote shell runs.
    Ready,
}

/// How a step ended.
#[derive(Debug)]
pub enum StepOutcome {
    Done,
    /// The agent holds that many identities.
    Identities(usize),
    /// Whether the session is authenticated.
    Authenticated(bool),
    Failed(SessionError),
}

/// The step after `stage`. Steps with the agent may fail and are then skipped;
/// the failure of any other step ends the launch (`None`).
pub open spec fn stage_after(stage: SpawnStage, outcome: StepOutcome) -> Option<SpawnStage> {
    match stage {
        SpawnStage::Connect => if outcome is Failed {
            None
        } else {
            Some(SpawnStage::Handshake)
        },
        SpawnStage::Handshake => if outcome is Failed {
            None
        } else {
            Some(SpawnStage::OpenAgent)
        },
        SpawnStage::OpenAgent => if outcome is Failed {
            Some(SpawnStage::AskAuthenticated)
        } else {
            Some(SpawnStage::ConnectAgent)
        },
        SpawnStage::ConnectAgent => if outcome is Failed {
            Some(SpawnStage::AskAuthenticated)
        } else {
            Some(SpawnStage::RefreshIdentities)
        },
        SpawnStage::RefreshIdentities => if outcome is Failed {
            Some(SpawnStage::AskAuthenticated)
        } else {
            Some(SpawnStage::ListIdentities)
        },
        SpawnStage::ListIdentities => match outcome {
            StepOutcome::Identities(total) => if total > 0 {
                Some(SpawnStage::AgentAuth(0, total))
            } else {
                Some(SpawnStage::AskAuthenticated)
            },
            _ => Some(SpawnStage::AskAuthenticated),
        },
        SpawnStage::AgentAuth(index, total) => if outcome is Failed && index + 1 < total {
            Some(SpawnStage::AgentAuth((index + 1) as usize, total))
        } else {
            Some(SpawnStage::AskAuthenticated)
        },
        SpawnStage::AskAuthenticated => if outcome == StepOutcome::Authenticated(true) {
            Some(SpawnStage::OpenChannel)
        } else {
            Some(SpawnStage::Authenticate)
        },
        SpawnStage::Authenticate => if outcome is Failed {
            None
        } else {
            Some(SpawnStage::OpenChannel)
        },
        SpawnStage::OpenChannel => if outcome is Failed {
            None
        } else {
            Some(SpawnStage::SetupChannel)
        },
        SpawnStage::SetupChannel => if outcome is Failed {
            None
        } else {
            Some(SpawnStage::RequestPty)
        },
        SpawnStage::RequestPty => if outcome is Failed {
            None
        } else {
            Some(SpawnStage::StartShell)
        },
        SpawnStage::StartShell => if outcome is Failed {
            None
        } else {
            Some(SpawnStage::Ready)
        },
        SpawnStage::Ready => Some(SpawnStage::Ready),
    }
}

/// The error that ends the launch where a step without which it cannot go on
/// has failed.
pub open spec fn step_error(outcome: StepOutcome) -> SessionError {
    outcome->Failed_0
}

fn go_on(outcome: StepOutcome, next: SpawnStage) -> (r: Result<SpawnStage, SessionError>)
    ensures
        match outcome {
            StepOutcome::Failed(err) => r == Err::<SpawnStage, _>(err),
            _ => r == Ok::<_, SessionError>(next),
        },
{
    match outcome {
        StepOutcome::Failed(err) => Err(err),
        _ => Ok(next),
    }
}

fn agent_step(outcome: &StepOutcome, next: SpawnStage) -> (stage: SpawnStage)
    ensures
        stage == (if outcome is Failed {
            SpawnStage::AskAuthenticated
        } else {
            next
        }),
{
    match outcome {
        StepOutcome::Failed(_) => SpawnStage::AskAuthenticated,
        _ => next,
    }
}

/// The step after `stage`, or the error that ends the launch.
pub fn next_stage(stage: SpawnStage, outcome: StepOutcome) -> (r: Result<SpawnStage, SessionError>)
    ensures
        match stage_after(stage, outcome) {
            Some(next) => r == Ok::<_, SessionError>(next),
            None => r == Err::<SpawnStage, _>(step_error(outcome)),
        },
{
    match stage {
        SpawnStage::Connect => go_on(outcome, SpawnStage::Handshake),
        SpawnStage::Handshake => go_on(outcome, SpawnStage::OpenAgent),
        SpawnStage::OpenAgent => Ok(agent_step(&outcome, SpawnStage::ConnectAgent)),
        SpawnStage::ConnectAgent => Ok(agent_step(&outcome, SpawnStage::RefreshIdentities)),
        SpawnStage::RefreshIdentities => Ok(agent_step(&outcome, SpawnStage::ListIdentities)),
        SpawnStage::ListIdentities => match outcome {
            StepOutcome::Identities(total) => if total > 0 {
                Ok(SpawnStage::AgentAuth(0, total))
            } else {
                Ok(SpawnStage::AskAuthenticated)
            },
            _ => Ok(SpawnStage::AskAuthenticated),
        },
        SpawnStage::AgentAuth(index, total) => match outcome {
            StepOutcome::Failed(_) => if index < total && index + 1 < total {
                Ok(SpawnStage::AgentAuth(index + 1, total))
            } else {
                Ok(SpawnStage::AskAuthenticated)
            },
            _ => Ok(SpawnStage::AskAuthenticated),
        },
        SpawnStage::AskAuthenticated => match outcome {
            StepOutcome::Authenticated(true) => Ok(SpawnStage::OpenChannel),
            _ => Ok(SpawnStage::Authenticate),
        },
        SpawnStage::Authenticate => go_on(outcome, SpawnStage::OpenChannel),
        SpawnStage::OpenChannel => go_on(outcome, SpawnStage::SetupChannel),
        SpawnStage::SetupChannel => go_on(outcome, SpawnStage::RequestPty),
        SpawnStage::RequestPty => go_on(outcome, SpawnStage::StartShell),
        SpawnStage::StartShell => go_on(outcome, SpawnStage::Ready),
        SpawnStage::Ready => Ok(SpawnStage::Ready),
    }
}

/// A channel is opened only on a session that says that it is authenticated,
/// or on which the configured authentication has just succeeded.
pub proof fn channel_needs_authentication(stage: SpawnStage, outcome: StepOutcome)
    requires
        stage_after(stage, outcome) == Some(SpawnStage::OpenChannel),
    ensures
        (stage == SpawnStage::AskAuthenticated && outcome == StepOutcome::Authenticated(true)) || (
        stage == SpawnStage::Authenticate && !(outcome is Failed)),
{
}

/// The agent never ends a launch: whatever comes of its steps, the launch goes
/// on.
pub proof fn agent_never_ends_a_launch(stage: SpawnStage, outcome: StepOutcome)
    requires
        stage is OpenAgent || stage is ConnectAgent || stage is RefreshIdentities
            || stage is ListIdentities || stage is AgentAuth,
    ensures
        stage_after(stage, outcome) is Some,
{
}

/// How many steps are left at most, given how many identities the agent holds.
pub open spec fn steps_left(stage: SpawnStage, identities: int) -> int {
    match stage {
        SpawnStage::Connect => identities + 12,
        SpawnStage::Handshake => identities + 11,
        SpawnStage::OpenAgent => identities + 10,
        SpawnStage::ConnectAgent => identities + 9,
        SpawnStage::RefreshIdentities => identities + 8,
        SpawnStage::ListIdentities => identities + 7,
        SpawnStage::AgentAuth(index, total) => if index < total {
            total - index + 6
        } else {
            7
        },
        SpawnStage::AskAuthenticated => 6,
        SpawnStage::Authenticate => 5,
        SpawnStage::OpenChannel => 4,
        SpawnStage::SetupChannel => 3,
        SpawnStage::RequestPty => 2,
        SpawnStage::StartShell => 1,
        SpawnStage::Ready => 0,
    }
}

/// A launch ends: every step brings it closer to the running shell.
pub proof fn launch_ends(stage: SpawnStage, outcome: StepOutcome, identities: int)
    requires
        identities >= 0,
        stage != SpawnStage::Ready,
        outcome matches StepOutcome::Identities(total) ==> total <= identities,
    ensures
        steps_left(stage, identities) > 0,
        stage_after(stage, outcome) is Some ==> steps_left(
            stage_after(stage, outcome)->0,
            identities,
        ) < steps_left(stage, identities),
{
}

/// The name of a step, for the error of one that takes too long.
pub open spec fn stage_label(stage: SpawnStage, auth: AuthModel) -> Seq<char> {
    match stage {
        SpawnStage::Connect => "tcp connect"@,
        SpawnStage::Handshake => "ssh handshake"@,
        SpawnStage::OpenAgent => "ssh agent"@,
        SpawnStage::ConnectAgent => "ssh agent connect"@,
        SpawnStage::RefreshIdentities => "ssh agent identities"@,
        SpawnStage::ListIdentities => "ssh agent list"@,
        SpawnStage::AgentAuth(_, _) => "ssh agent auth"@,
        SpawnStage::AskAuthenticated => "ssh authenticated"@,
        SpawnStage::Authenticate => if auth is Password {
            "ssh password auth"@
        } else {
            "ssh key auth"@
        },
        SpawnStage::OpenChannel => "ssh channel open"@,
        SpawnStage::SetupChannel => "ssh channel setup"@,
        SpawnStage::RequestPty => "ssh request pty"@,
        SpawnStage::StartShell => "ssh shell"@,
        SpawnStage::Ready => "ssh ready"@,
    }
}

/// The name of a step, for the error of one that takes too long.
pub fn stage_name(stage: SpawnStage, auth: &SSHAuth) -> (name: &'static str)
    ensures
        name@ == stage_label(stage, auth@),
{
    match stage {
        SpawnStage::Connect => "tcp connect",
        SpawnStage::Handshake => "ssh handshake",
        SpawnStage::OpenAgent => "ssh agent",
        SpawnStage::ConnectAgent => "ssh agent connect",
        SpawnStage::RefreshIdentities => "ssh agent identities",
        SpawnStage::ListIdentities => "ssh agent list",
        SpawnStage::AgentAuth(_, _) => "ssh agent auth",
        SpawnStage::AskAuthenticated => "ssh authenticated",
        SpawnStage::Authenticate => match auth {
            SSHAuth::Password(_) => "ssh password auth",
            SSHAuth::KeyFile { .. } => "ssh key auth",
        },
        SpawnStage::OpenChannel => "ssh channel open",
        SpawnStage::SetupChannel => "ssh channel setup",
        SpawnStage::RequestPty => "ssh request pty",
        SpawnStage::StartShell => "ssh shell",
        SpawnStage::Ready => "ssh ready",
    }
}

/// What a read from the channel means for the session.
#[derive(Debug)]
pub enum ChannelRead {
    /// The remote side is done: note its exit status and notify of the exit.
    Eof,
    /// That many bytes have arrived.
    Bytes(usize),
    /// Nothing to read yet.
    NotReady,
    Fail(SessionError),
}

/// What a read from the channel means for the session.
pub fn channel_read(outcome: Result<usize, IoError>) -> (read: ChannelRead)
    ensures
        match outcome {
            Ok(n) => read == (if n == 0 {
                ChannelRead::Eof
            } else {
                ChannelRead::Bytes(n)
            }),
            Err(err) => if err.kind == IoErrorKind::WouldBlock {
                read is NotReady
            } else {
                read == ChannelRead::Fail(SessionError::IO(err))
            },
        },
{
    match outcome {
        Ok(n) => if n == 0 {
            ChannelRead::Eof
        } else {
            ChannelRead::Bytes(n)
        },
        Err(err) => if err.kind == IoErrorKind::WouldBlock {
            ChannelRead::NotReady
        } else {
            ChannelRead::Fail(SessionError::IO(err))
        },
    }
}

/// What a write to the channel means for the session.
#[derive(Debug)]
pub enum ChannelWrite {
    /// That many bytes are on their way: flush the channel.
    Written(usize),
    /// The channel takes nothing right now.
    NotReady,
    Fail(SessionError),
}

/// What a write to the channel means for the session.
pub fn channel_write(outcome: Result<usize, IoError>) -> (write: ChannelWrite)
    ensures
        match outcome {
            Ok(n) => write == ChannelWrite::Written(n),
            Err(err) => if err.kind == IoErrorKind::WouldBlock {
                write is NotReady
            } else {
                write == ChannelWrite::Fail(SessionError::IO(err))
            },
        },
{
    match outcome {
        Ok(n) => ChannelWrite::Written(n),
        Err(err) => if err.kind == IoErrorKind::WouldBlock {
            ChannelWrite::NotReady
        } else {
            ChannelWrite::Fail(SessionError::IO(err))
        },
    }
}

/// What one step of the teardown means: an operation that would block is
/// passed over, any other failure ends the teardown.
pub fn close_step(outcome: Result<(), SshError>) -> (r: Result<(), SessionError>)
    ensures
        match outcome {
            Ok(_) => r == Ok::<_, SessionError>(()),
            Err(err) => if would_block(err.code) {
                r == Ok::<_, SessionError>(())
            } else {
                r == Err::<(), _>(SessionError::SSH2(err))
            },
        },
{
    match outcome {
        Ok(()) => Ok(()),
        Err(err) => if is_would_block(&err) {
            Ok(())
        } else {
            Err(SessionError::SSH2(err))
        },
    }
}

/// What is known of the end of the remote process, and whether the poller has
/// been told.
#[derive(Debug, Clone, Copy, PartialEq, Eq, Structural)]
pub struct ExitRecord {
    pub exit_status: Option<ExitStatus>,
    pub exit_notified: bool,
}

impl ExitRecord {
    pub fn new() -> (r: ExitRecord)
        ensures
            r == (ExitRecord { exit_status: None, exit_notified: false }),
    {
        ExitRecord { exit_status: None, exit_notified: false }
    }

    /// Whether the channel has to be asked for the exit status: not where it
    /// is known already, and not before the remote side is done.
    pub fn needs_status(&self, eof: bool) -> (r: bool)
        ensures
            r == (self.exit_status is None && eof),
    {
        self.exit_status.is_none() && eof
    }

    /// The exit status, given whether the remote side is done and what the
    /// channel answered. A status that came once is kept.
    pub fn try_get_exit_status(
        &mut self,
        platform: Platform,
        eof: bool,
        answer: Result<i32, SshError>,
    ) -> (r: Result<Option<ExitStatus>, SessionError>)
        ensures
            final(self).exit_notified == old(self).exit_notified,
            match old(self).exit_status {
                Some(status) => r == Ok::<_, SessionError>(Some(status))
                    && final(self).exit_status == Some(status),
                None => if !eof {
                    r == Ok::<Option<ExitStatus>, SessionError>(None)
                        && final(self).exit_status is None
                } else {
                    match answer {
                        Ok(code) => {
                            &&& r == Ok::<_, SessionError>(Some(status_of_code(platform, code)))
                            &&& final(self).exit_status == Some(status_of_code(platform, code))
                        },
                        Err(err) => {
                            &&& final(self).exit_status is None
                            &&& would_block(err.code) ==> r == Ok::<
                                Option<ExitStatus>,
                                SessionError,
                            >(None)
                            &&& !would_block(err.code) ==> r == Err::<Option<ExitStatus>, _>(
                                SessionError::SSH2(err),
                            )
                        },
                    }
                },
            },
    {
        if let Some(status) = self.exit_status {
            return Ok(Some(status));
        }
        if !eof {
            return Ok(None);
        }
        match answer {
            Ok(code) => {
                let status = exit_status_from_code(platform, code);
                self.exit_status = Some(status);
                Ok(Some(status))
            },
            Err(err) => if is_would_block(&err) {
                Ok(None)
            } else {
                Err(SessionError::SSH2(err))
            },
        }
    }

    /// Whether the poller still has to be told of the exit.
    pub fn must_notify(&self) -> (r: bool)
        ensures
            r == !self.exit_notified,
    {
        !self.exit_notified
    }

    /// The poller has been told of the exit.
    pub fn notified(&mut self)
        ensures
            *final(self) == (ExitRecord { exit_notified: true, ..*old(self) }),
    {
        self.exit_notified = true;
    }
}

/// The exit code with which a session is closed: that of the status, and zero
/// where there is no status or it holds no code.
pub fn close_code(platform: Platform, status: Option<ExitStatus>) -> (code: i32)
    ensures
        code == match status {
            Some(status) => match status.spec_code(platform) {
                Some(code) => code,
                None => 0,
            },
            None => 0,
        },
{
    let status = match status {
        Some(status) => status,
        None => exit_status_from_code(platform, 0),
    };
    proof {
        crate::pty::session::exit_code_survives(platform, 0);
        assert(0i32 & 0xff == 0) by (bit_vector);
    }
    match status.code(platform) {
        Some(code) => code,
        None => 0,
    }
}

} // verus!
