//! What a terminal runs: the options of a local or an SSH session.

use std::sync::atomic::AtomicBool;
use std::sync::Arc;

use vstd::prelude::*;

use crate::pty::session::Span;
use crate::pty::ssh::{AuthModel, SSHAuth};
use crate::quick_launch::launches::share_token;
use crate::quick_launch::types::{copy_option, copy_strings};
use crate::text::{str_opt, text_opt, text_pairs, texts};

verus! {

/// Options of a local session.
#[derive(Debug)]
pub struct LocalSessionOptions {
    program: String,
    args: Vec<String>,
    envs: Vec<(String, String)>,
    working_directory: Option<String>,
}

/// The mathematical value of the options of a local session.
#[verifier::ext_equal]
pub struct LocalOptionsModel {
    pub program: Seq<char>,
    pub args: Seq<Seq<char>>,
    pub envs: Seq<(Seq<char>, Seq<char>)>,
    pub working_directory: Option<Seq<char>>,
}

impl View for LocalSessionOptions {
    type V = LocalOptionsModel;

    closed spec fn view(&self) -> LocalOptionsModel {
        LocalOptionsModel {
            program: self.program@,
            args: texts(self.args@),
            envs: text_pairs(self.envs@),
            working_directory: text_opt(self.working_directory),
        }
    }
}

/// Options on which nothing is set.
pub open spec fn bare_local_options() -> LocalOptionsModel {
    LocalOptionsModel {
        program: Seq::empty(),
        args: Seq::empty(),
        envs: Seq::empty(),
        working_directory: None,
    }
}

impl Default for LocalSessionOptions {
    fn default() -> (r: Self)
        ensures
            r@ == bare_local_options(),
    {
        let r = LocalSessionOptions {
            program: String::new(),
            args: Vec::new(),
            envs: Vec::new(),
            working_directory: None,
        };
        assert(r@ =~= bare_local_options());
        r
    }
}

impl Clone for LocalSessionOptions {
    fn clone(&self) -> (r: Self)
        ensures
            r@ == self@,
    {
        LocalSessionOptions {
            program: self.program.clone(),
            args: copy_strings(&self.args),
            envs: copy_pairs(&self.envs),
            working_directory: copy_option(&self.working_directory),
        }
    }
}

/// A copy of a list of string pairs.
pub fn copy_pairs(pairs: &Vec<(String, String)>) -> (copy: Vec<(String, String)>)
    ensures
        text_pairs(copy@) == text_pairs(pairs@),
{
    let mut copy: Vec<(String, String)> = Vec::new();
    let mut i: usize = 0;
    while i < pairs.len()
        invariant
            i <= pairs@.len(),
            copy@.len() == i,
            forall|j: int|
                0 <= j < i ==> (#[trigger] copy@[j]).0@ == pairs@[j].0@ && copy@[j].1@
                    == pairs@[j].1@,
        decreases pairs@.len() - i,
    {
        copy.push((pairs[i].0.clone(), pairs[i].1.clone()));
        i += 1;
    }
    assert(text_pairs(copy@) =~= text_pairs(pairs@));
    copy
}

impl LocalSessionOptions {
    pub fn with_program(self, program: &str) -> (r: Self)
        ensures
            r@ == (LocalOptionsModel { program: program@, ..self@ }),
    {
        LocalSessionOptions { program: program.to_string(), ..self }
    }

    pub fn with_args(self, args: Vec<String>) -> (r: Self)
        ensures
            r@ == (LocalOptionsModel { args: texts(args@), ..self@ }),
    {
        LocalSessionOptions { args, ..self }
    }

    pub fn with_env(self, key: &str, value: &str) -> (r: Self)
        ensures
            r@ == (LocalOptionsModel { envs: self@.envs.push((key@, value@)), ..self@ }),
    {
        let mut envs = self.envs;
        let ghost before = envs@;
        envs.push((key.to_string(), value.to_string()));
        assert(text_pairs(envs@) =~= text_pairs(before).push((key@, value@)));
        LocalSessionOptions { envs, ..self }
    }

    pub fn with_working_directory(self, dir: &str) -> (r: Self)
        ensures
            r@ == (LocalOptionsModel { working_directory: Some(dir@), ..self@ }),
    {
        LocalSessionOptions { working_directory: Some(dir.to_string()), ..self }
    }

    pub fn program(&self) -> (program: &str)
        ensures
            program@ == self@.program,
    {
        self.program.as_str()
    }

    pub fn args(&self) -> (args: &Vec<String>)
        ensures
            texts(args@) == self@.args,
    {
        &self.args
    }

    pub fn envs(&self) -> (envs: &Vec<(String, String)>)
        ensures
            text_pairs(envs@) == self@.envs,
    {
        &self.envs
    }

    pub fn working_directory(&self) -> (dir: Option<&str>)
        ensures
            str_opt(dir) == self@.working_directory,
    {
        match &self.working_directory {
            Some(dir) => Some(dir.as_str()),
            None => None,
        }
    }
}

/// Options of an SSH session.
#[derive(Debug)]
pub struct SSHSessionOptions {
    host: String,
    user: String,
    auth: SSHAuth,
    timeout: Option<Span>,
    cancel_token: Option<Arc<AtomicBool>>,
}

/// The mathematical value of the options of an SSH session.
#[verifier::ext_equal]
pub struct SshOptionsModel {
    pub host: Seq<char>,
    pub user: Seq<char>,
    pub auth: AuthModel,
    pub timeout: Option<Span>,
    pub cancel_token: Option<Arc<AtomicBool>>,
}

impl View for SSHSessionOptions {
    type V = SshOptionsModel;

    closed spec fn view(&self) -> SshOptionsModel {
        SshOptionsModel {
            host: self.host@,
            user: self.user@,
            auth: self.auth@,
            timeout: self.timeout,
            cancel_token: self.cancel_token,
        }
    }
}

/// Options on which nothing is set.
pub open spec fn bare_ssh_options() -> SshOptionsModel {
    SshOptionsModel {
        host: Seq::empty(),
        user: Seq::empty(),
        auth: AuthModel::Password(Seq::empty()),
        timeout: None,
        cancel_token: None,
    }
}

impl Default for SSHSessionOptions {
    fn default() -> (r: Self)
        ensures
            r@ == bare_ssh_options(),
    {
        let r = SSHSessionOptions {
            host: String::new(),
            user: String::new(),
            auth: SSHAuth::default(),
            timeout: None,
            cancel_token: None,
        };
        assert(r@ =~= bare_ssh_options());
        r
    }
}

impl Clone for SSHSessionOptions {
    fn clone(&self) -> (r: Self)
        ensures
            r@ == self@,
    {
        SSHSessionOptions {
            host: self.host.clone(),
            user: self.user.clone(),
            auth: self.auth.clone(),
            timeout: self.timeout,
            cancel_token: match &self.cancel_token {
                Some(token) => Some(share_token(token)),
                None => None,
            },
        }
    }
}

impl SSHSessionOptions {
    pub fn with_host(self, host: &str) -> (r: Self)
        ensures
            r@ == (SshOptionsModel { host: host@, ..self@ }),
    {
        SSHSessionOptions { host: host.to_string(), ..self }
    }

    pub fn with_user(self, user: &str) -> (r: Self)
        ensures
            r@ == (SshOptionsModel { user: user@, ..self@ }),
    {
        SSHSessionOptions { user: user.to_string(), ..self }
    }

    pub fn with_auth(self, auth: SSHAuth) -> (r: Self)
        ensures
            r@ == (SshOptionsModel { auth: auth@, ..self@ }),
    {
        SSHSessionOptions { auth, ..self }
    }

    pub fn with_timeout(self, timeout: Span) -> (r: Self)
        ensures
            r@ == (SshOptionsModel { timeout: Some(timeout), ..self@ }),
    {
        SSHSessionOptions { timeout: Some(timeout), ..self }
    }

    pub fn with_cancel_token(self, token: Arc<AtomicBool>) -> (r: Self)
        ensures
            r@ == (SshOptionsModel { cancel_token: Some(token), ..self@ }),
    {
        SSHSessionOptions { cancel_token: Some(token), ..self }
    }

    pub fn host(&self) -> (host: &str)
        ensures
            host@ == self@.host,
    {
        self.host.as_str()
    }

    pub fn user(&self) -> (user: &str)
        ensures
            user@ == self@.user,
    {
        self.user.as_str()
    }

    pub fn auth(&self) -> (auth: SSHAuth)
        ensures
            auth@ == self@.auth,
    {
        self.auth.clone()
    }

    pub fn timeout(&self) -> (timeout: Option<Span>)
        ensures
            timeout == self@.timeout,
    {
        self.timeout
    }

    pub fn cancel_token(&self) -> (token: Option<Arc<AtomicBool>>)
        ensures
            token == self@.cancel_token,
    {
        match &self.cancel_token {
            Some(token) => Some(share_token(token)),
            None => None,
        }
    }
}

/// What a terminal runs.
#[derive(Debug)]
pub enum SessionKind {
    Local(LocalSessionOptions),
    Ssh(SSHSessionOptions),
}

/// The mathematical value of what a terminal runs.
#[verifier::ext_equal]
pub enum SessionModel {
    Local(LocalOptionsModel),
    Ssh(SshOptionsModel),
}

impl View for SessionKind {
    type V = SessionModel;

    open spec fn view(&self) -> SessionModel {
        match self {
            SessionKind::Local(options) => SessionModel::Local(options@),
            SessionKind::Ssh(options) => SessionModel::Ssh(options@),
        }
    }
}

impl Clone for SessionKind {
    fn clone(&self) -> (r: Self)
        ensures
            r@ == self@,
    {
        match self {
            SessionKind::Local(options) => SessionKind::Local(options.clone()),
            SessionKind::Ssh(options) => SessionKind::Ssh(options.clone()),
        }
    }
}

/// The settings of a terminal as far as they decide what it runs. `appearance`
/// names the look that the toolkit keeps for it.
#[derive(Debug)]
pub struct Settings {
    pub appearance: u64,
    pub session: SessionKind,
}

/// The mathematical value of the settings of a terminal.
#[verifier::ext_equal]
pub struct SettingsModel {
    pub appearance: u64,
    pub session: SessionModel,
}

impl View for Settings {
    type V = SettingsModel;

    open spec fn view(&self) -> SettingsModel {
        SettingsModel { appearance: self.appearance, session: self.session@ }
    }
}

impl Default for Settings {
    fn default() -> (r: Self)
        ensures
            r@ == (SettingsModel {
                appearance: 0,
                session: SessionModel::Local(bare_local_options()),
            }),
    {
        Settings { appearance: 0, session: SessionKind::Local(LocalSessionOptions::default()) }
    }
}

impl Clone for Settings {
    fn clone(&self) -> (r: Self)
        ensures
            r@ == self@,
    {
        Settings { appearance: self.appearance, session: self.session.clone() }
    }
}

/// The given settings, for a terminal that runs another session.
pub fn terminal_settings_for_session(settings: &Settings, session: SessionKind) -> (r: Settings)
    ensures
        r@ == (SettingsModel { session: session@, ..settings@ }),
{
    Settings { appearance: settings.appearance, session }
}

} // verus!
