//! Local sessions on Windows, which are not supported yet.
//!
//! The builder takes every option that a local session can have; spawning
//! fails with an error that points to SSH.

use vstd::prelude::*;

use crate::pty::session::{
    read_bytes, ExitStatus, PtySize, Session, SessionCall, SessionError,
};
use crate::text::{push_text, text_opt, texts};

verus! {

/// What a local session answers to every request.
pub const UNSUPPORTED: &'static str = "local terminal sessions are not supported on Windows yet; use a Quick Launch SSH target to connect to a remote host";

/// A local session, which can never be constructed on Windows.
pub struct LocalSession {
    record: Ghost<Seq<SessionCall>>,
}

/// Describes a local session.
pub struct LocalSessionBuilder {
    program: String,
    args: Vec<String>,
    envs: Vec<(String, Option<String>)>,
    size: PtySize,
    work_dir: Option<String>,
    controlling_tty: bool,
}

/// The mathematical value of a local session builder.
#[verifier::ext_equal]
pub struct LocalModel {
    pub program: Seq<char>,
    pub args: Seq<Seq<char>>,
    pub envs: Seq<(Seq<char>, Option<Seq<char>>)>,
    pub size: PtySize,
    pub work_dir: Option<Seq<char>>,
    pub controlling_tty: bool,
}

/// A list of environment changes; a variable without a value is removed.
pub open spec fn env_changes(envs: Seq<(String, Option<String>)>) -> Seq<
    (Seq<char>, Option<Seq<char>>),
> {
    envs.map_values(|e: (String, Option<String>)| (e.0@, text_opt(e.1)))
}

impl View for LocalSessionBuilder {
    type V = LocalModel;

    closed spec fn view(&self) -> LocalModel {
        LocalModel {
            program: self.program@,
            args: texts(self.args@),
            envs: env_changes(self.envs@),
            size: self.size,
            work_dir: text_opt(self.work_dir),
            controlling_tty: self.controlling_tty,
        }
    }
}

/// A builder on which nothing but the program is set.
pub open spec fn bare_local(program: Seq<char>) -> LocalModel {
    LocalModel {
        program,
        args: Seq::empty(),
        envs: Seq::empty(),
        size: PtySize::spec_default(),
        work_dir: None,
        controlling_tty: false,
    }
}

/// Start building a local session for the provided executable.
pub fn local(program: &str) -> (r: LocalSessionBuilder)
    ensures
        r@ == bare_local(program@),
{
    let r = LocalSessionBuilder {
        program: program.to_string(),
        args: Vec::new(),
        envs: Vec::new(),
        size: PtySize::default(),
        work_dir: None,
        controlling_tty: false,
    };
    assert(r@ =~= bare_local(program@));
    r
}

impl Default for LocalSessionBuilder {
    fn default() -> (r: Self)
        ensures
            r@ == bare_local("cmd.exe"@),
    {
        local("cmd.exe")
    }
}

impl LocalSessionBuilder {
    /// Append a single argument to the command line.
    pub fn with_arg(self, arg: &str) -> (r: Self)
        ensures
            r@ == (LocalModel { args: self@.args.push(arg@), ..self@ }),
    {
        let mut args = self.args;
        args.push(arg.to_string());
        let r = LocalSessionBuilder { args, ..self };
        assert(r@.args =~= self@.args.push(arg@));
        r
    }

    /// Append a list of arguments to the command line.
    pub fn with_args(self, args: &[String]) -> (r: Self)
        ensures
            r@ == (LocalModel { args: self@.args + texts(args@), ..self@ }),
    {
        let mut all = self.args;
        let mut i: usize = 0;
        while i < args.len()
            invariant
                i <= args@.len(),
                texts(all@) == texts(self.args@) + texts(args@).take(i as int),
            decreases args@.len() - i,
        {
            push_text(&mut all, args[i].clone());
            i += 1;
            assert(texts(all@) =~= texts(self.args@) + texts(args@).take(i as int));
        }
        let r = LocalSessionBuilder { args: all, ..self };
        assert(r@.args =~= self@.args + texts(args@));
        r
    }

    /// Set an environment variable for the spawned child process.
    pub fn with_env(self, key: &str, value: &str) -> (r: Self)
        ensures
            r@ == (LocalModel { envs: self@.envs.push((key@, Some(value@))), ..self@ }),
    {
        let mut envs = self.envs;
        envs.push((key.to_string(), Some(value.to_string())));
        let r = LocalSessionBuilder { envs, ..self };
        assert(r@.envs =~= self@.envs.push((key@, Some(value@))));
        r
    }

    /// Remove an environment variable from the child process environment.
    pub fn with_env_remove(self, key: &str) -> (r: Self)
        ensures
            r@ == (LocalModel { envs: self@.envs.push((key@, None)), ..self@ }),
    {
        let mut envs = self.envs;
        envs.push((key.to_string(), None));
        let r = LocalSessionBuilder { envs, ..self };
        assert(r@.envs =~= self@.envs.push((key@, None)));
        r
    }

    /// Advertise the initial PTY size for the child process.
    pub fn with_size(self, size: PtySize) -> (r: Self)
        ensures
            r@ == (LocalModel { size, ..self@ }),
    {
        LocalSessionBuilder { size, ..self }
    }

    /// Change the working directory of the spawned child process.
    pub fn with_cwd(self, path: &str) -> (r: Self)
        ensures
            r@ == (LocalModel { work_dir: Some(path@), ..self@ }),
    {
        LocalSessionBuilder { work_dir: Some(path.to_string()), ..self }
    }

    /// Ask for a controlling terminal; nothing comes of it on Windows.
    pub fn set_controling_tty_enable(self) -> (r: Self)
        ensures
            r@ == (LocalModel { controlling_tty: true, ..self@ }),
    {
        LocalSessionBuilder { controlling_tty: true, ..self }
    }

    /// Always fails: there is no local backend on Windows yet.
    pub fn spawn(self) -> (r: Result<LocalSession, SessionError>)
        ensures
            is_unsupported(r),
    {
        Err(unsupported())
    }
}

/// The error of a request that the platform does not support.
pub open spec fn is_unsupported<T>(r: Result<T, SessionError>) -> bool {
    r is Err && r->Err_0 is Internal && r->Err_0->Internal_0@ == UNSUPPORTED@
}

fn unsupported() -> (error: SessionError)
    ensures
        error is Internal,
        error->Internal_0@ == UNSUPPORTED@,
{
    SessionError::Internal(UNSUPPORTED.to_string())
}

impl Session for LocalSession {
    closed spec fn calls(&self) -> Seq<SessionCall> {
        self.record@
    }

    open spec fn patience(&self) -> nat {
        0
    }

    fn read(&mut self, buf: &mut [u8]) -> (r: Result<usize, SessionError>)
        ensures
            is_unsupported(r),
            final(buf)@ == old(buf)@,
    {
        let r: Result<usize, SessionError> = Err(unsupported());
        self.record = Ghost(
            self.record@.push(
                SessionCall::Read { room: buf@.len(), bytes: read_bytes(buf@, r), got: r },
            ),
        );
        r
    }

    fn write(&mut self, input: &[u8]) -> (r: Result<usize, SessionError>)
        ensures
            is_unsupported(r),
    {
        let r: Result<usize, SessionError> = Err(unsupported());
        self.record = Ghost(self.record@.push(SessionCall::Write { input: input@, taken: r }));
        r
    }

    fn resize(&mut self, size: PtySize) -> (r: Result<(), SessionError>)
        ensures
            is_unsupported(r),
    {
        let r: Result<(), SessionError> = Err(unsupported());
        self.record = Ghost(self.record@.push(SessionCall::Resize { size, agreed: r }));
        r
    }

    fn close(&mut self) -> (r: Result<i32, SessionError>)
        ensures
            is_unsupported(r),
    {
        let r: Result<i32, SessionError> = Err(unsupported());
        self.record = Ghost(self.record@.push(SessionCall::Close { code: r }));
        r
    }

    fn try_get_child_exit_status(&mut self) -> (r: Result<Option<ExitStatus>, SessionError>)
        ensures
            is_unsupported(r),
    {
        let r: Result<Option<ExitStatus>, SessionError> = Err(unsupported());
        self.record = Ghost(self.record@.push(SessionCall::CheckExit { status: r }));
        r
    }
}

} // verus!
