//! Preparing a launch: the session that a command opens, and the checks on the
//! way to it.

use std::sync::atomic::AtomicBool;
use std::sync::Arc;

use vstd::prelude::*;
use vstd::string::StringExecFns;

use crate::paths::{join_path, path_join, Platform};
use crate::pty::session::Span;
use crate::pty::ssh::{ssh, AuthModel, SSHAuth, SSHSessionBuilder, SshBuilderModel};
use crate::quick_launch::errors::QuickLaunchError;
use crate::quick_launch::launches::share_token;
use crate::quick_launch::types::{
    copy_strings, CommandSpec, CustomCommand, CustomModel, EnvModel, LaunchModel, NodePath,
    QuickLaunch, SpecModel, SshCommand, SshModel,
};
use crate::session_options::{
    terminal_settings_for_session, LocalOptionsModel, LocalSessionOptions, SSHSessionOptions,
    SessionKind, SessionModel, Settings, SettingsModel, SshOptionsModel,
};
use crate::text::{
    blank, decimal, decimal_text, is_blank, joined, push_text, str_opt, text_opt, texts,
};

verus! {

/// Seconds after which the attempt to open an SSH session is given up.
pub const QUICK_LAUNCH_SSH_TIMEOUT_SECS: u64 = 15;

/// What an SSH command takes from the environment where it does not say.
#[derive(Debug)]
pub struct SshDefaults {
    /// The variable `USER`.
    pub user: Option<String>,
    /// The variable `USERNAME`.
    pub username: Option<String>,
    /// The user's default identity file, where there is one.
    pub identity_file: Option<String>,
}

/// The mathematical value of what the environment says.
#[verifier::ext_equal]
pub struct SshDefaultsModel {
    pub user: Option<Seq<char>>,
    pub username: Option<Seq<char>>,
    pub identity_file: Option<Seq<char>>,
}

impl View for SshDefaults {
    type V = SshDefaultsModel;

    open spec fn view(&self) -> SshDefaultsModel {
        SshDefaultsModel {
            user: text_opt(self.user),
            username: text_opt(self.username),
            identity_file: text_opt(self.identity_file),
        }
    }
}

/// The value, unless it is absent or blank.
pub open spec fn unless_blank(value: Option<Seq<char>>) -> Option<Seq<char>> {
    match value {
        Some(text) => if is_blank(text) {
            None
        } else {
            Some(text)
        },
        None => None,
    }
}

/// The user that an SSH command logs in as: its own, else that of the
/// environment, else none.
pub open spec fn ssh_user(ssh: SshModel, defaults: SshDefaultsModel) -> Seq<char> {
    match unless_blank(ssh.user) {
        Some(user) => user,
        None => match defaults.user {
            Some(user) => user,
            None => match defaults.username {
                Some(user) => user,
                None => Seq::empty(),
            },
        },
    }
}

/// How an SSH command authenticates: with its own identity file, else with the
/// default one, else with an empty password.
pub open spec fn ssh_auth(ssh: SshModel, defaults: SshDefaultsModel) -> AuthModel {
    match unless_blank(ssh.identity_file) {
        Some(path) => AuthModel::KeyFile(path, None),
        None => match defaults.identity_file {
            Some(path) => AuthModel::KeyFile(path, None),
            None => AuthModel::Password(Seq::empty()),
        },
    }
}

/// The session that an SSH command opens.
pub open spec fn ssh_options_of(
    ssh: SshModel,
    cancel: Arc<AtomicBool>,
    defaults: SshDefaultsModel,
) -> SshOptionsModel {
    SshOptionsModel {
        host: ssh.host + ":"@ + decimal_text(ssh.port as nat),
        user: ssh_user(ssh, defaults),
        auth: ssh_auth(ssh, defaults),
        timeout: Some(Span { nanos: (QUICK_LAUNCH_SSH_TIMEOUT_SECS * 1_000_000_000) as u128 }),
        cancel_token: Some(cancel),
    }
}

/// The session that a custom command opens.
pub open spec fn local_options_of(custom: CustomModel) -> LocalOptionsModel {
    LocalOptionsModel {
        program: custom.program,
        args: custom.args,
        envs: custom.env.map_values(|e: EnvModel| (e.key, e.value)),
        working_directory: custom.working_directory,
    }
}

/// The session that a command opens.
pub open spec fn session_of(
    command: LaunchModel,
    cancel: Arc<AtomicBool>,
    defaults: SshDefaultsModel,
) -> SessionModel {
    match command.spec {
        SpecModel::Custom(custom) => SessionModel::Local(local_options_of(custom)),
        SpecModel::Ssh(ssh) => SessionModel::Ssh(ssh_options_of(ssh, cancel, defaults)),
    }
}

fn copy_unless_blank(value: Option<&str>) -> (r: Option<String>)
    ensures
        text_opt(r) == unless_blank(str_opt(value)),
{
    match value {
        Some(text) => if blank(text) {
            None
        } else {
            Some(text.to_string())
        },
        None => None,
    }
}

fn login_name(ssh: &SshCommand, defaults: &SshDefaults) -> (user: String)
    ensures
        user@ == ssh_user(ssh@, defaults@),
{
    if let Some(user) = copy_unless_blank(ssh.user()) {
        return user;
    }
    if let Some(user) = &defaults.user {
        return user.clone();
    }
    if let Some(user) = &defaults.username {
        return user.clone();
    }
    let none = String::new();
    assert(none@ =~= Seq::<char>::empty());
    none
}

fn login_auth(ssh: &SshCommand, defaults: &SshDefaults) -> (auth: SSHAuth)
    ensures
        auth@ == ssh_auth(ssh@, defaults@),
{
    if let Some(path) = copy_unless_blank(ssh.identity_file()) {
        return SSHAuth::KeyFile { private_key_path: path, passphrase: None };
    }
    if let Some(path) = &defaults.identity_file {
        return SSHAuth::KeyFile { private_key_path: path.clone(), passphrase: None };
    }
    SSHAuth::default()
}

/// The session that an SSH command opens.
pub fn ssh_session(ssh: &SshCommand, cancel: &Arc<AtomicBool>, defaults: &SshDefaults) -> (options:
    SSHSessionOptions)
    ensures
        options@ == ssh_options_of(ssh@, *cancel, defaults@),
{
    let prefix = joined(ssh.host(), ":");
    let host = joined(prefix.as_str(), decimal(ssh.port() as u64).as_str());
    let user = login_name(ssh, defaults);
    let auth = login_auth(ssh, defaults);
    let options = SSHSessionOptions::default().with_host(host.as_str()).with_user(
        user.as_str(),
    ).with_auth(auth).with_timeout(
        Span::from_secs(QUICK_LAUNCH_SSH_TIMEOUT_SECS),
    ).with_cancel_token(share_token(cancel));
    assert(options@ =~= ssh_options_of(ssh@, *cancel, defaults@));
    options
}

/// The session that a custom command opens.
pub fn custom_session(custom: &CustomCommand) -> (options: LocalSessionOptions)
    ensures
        options@ == local_options_of(custom@),
{
    let mut options = LocalSessionOptions::default().with_program(custom.program()).with_args(
        copy_strings(custom.args()),
    );
    let ghost base = options@;
    let ghost pairs = custom@.env.map_values(|e: EnvModel| (e.key, e.value));
    let mut i: usize = 0;
    assert(pairs.take(0) =~= Seq::empty());
    while i < custom.env.len()
        invariant
            i <= custom.env@.len(),
            pairs == custom@.env.map_values(|e: EnvModel| (e.key, e.value)),
            options@ == (LocalOptionsModel { envs: pairs.take(i as int), ..base }),
        decreases custom.env@.len() - i,
    {
        let env = &custom.env[i];
        assert(custom@.env[i as int] == env@);
        assert(pairs.take(i + 1) =~= pairs.take(i as int).push((env@.key, env@.value)));
        options = options.with_env(env.key(), env.value());
        i += 1;
    }
    assert(pairs.take(custom.env@.len() as int) =~= pairs);
    if let Some(dir) = custom.working_directory() {
        options = options.with_working_directory(dir);
    }
    options
}

/// The session that a command opens.
pub fn command_session(
    command: &QuickLaunch,
    cancel: &Arc<AtomicBool>,
    defaults: &SshDefaults,
) -> (session: SessionKind)
    ensures
        session@ == session_of(command@, *cancel, defaults@),
{
    match &command.spec {
        CommandSpec::Custom { custom } => SessionKind::Local(custom_session(custom)),
        CommandSpec::Ssh { ssh } => SessionKind::Ssh(ssh_session(ssh, cancel, defaults)),
    }
}

/// The SSH session to be tried out before a command is launched.
pub fn probe_builder(options: &SSHSessionOptions) -> (builder: SSHSessionBuilder)
    ensures
        builder@ == (SshBuilderModel {
            host: options@.host,
            user: options@.user,
            auth: options@.auth,
            size: crate::pty::session::PtySize::spec_default(),
            timeout: options@.timeout,
            cancel: options@.cancel_token,
        }),
{
    let mut builder = ssh().with_host(options.host()).with_user(options.user()).with_auth(
        options.auth(),
    );
    if let Some(timeout) = options.timeout() {
        builder = builder.with_timeout(timeout);
    }
    if let Some(token) = options.cancel_token() {
        builder = builder.with_cancel_token(token);
    }
    builder
}

/// The names of the identity files that are tried, in this order.
pub open spec fn default_identity_names() -> Seq<Seq<char>> {
    seq!["id_rsa"@, "id_ecdsa"@, "id_ed25519"@, "id_dsa"@]
}

/// The paths of the identity files that are tried, in this order.
pub open spec fn default_identity_paths(platform: Platform, ssh_dir: Seq<char>) -> Seq<Seq<char>> {
    default_identity_names().map_values(|name: Seq<char>| path_join(platform, ssh_dir, name))
}

/// The paths of the identity files that are tried, in this order.
pub fn default_identity_places(platform: Platform, ssh_dir: &str) -> (places: Vec<String>)
    ensures
        texts(places@) == default_identity_paths(platform, ssh_dir@),
{
    let mut places: Vec<String> = Vec::new();
    push_text(&mut places, join_path(platform, ssh_dir, "id_rsa"));
    push_text(&mut places, join_path(platform, ssh_dir, "id_ecdsa"));
    push_text(&mut places, join_path(platform, ssh_dir, "id_ed25519"));
    push_text(&mut places, join_path(platform, ssh_dir, "id_dsa"));
    assert(texts(places@) =~= default_identity_paths(platform, ssh_dir@));
    places
}

/// Whether `i` is the first place at which there is a file.
pub open spec fn is_first_file(is_file: Seq<bool>, i: int) -> bool {
    &&& 0 <= i < is_file.len()
    &&& is_file[i]
    &&& forall|j: int| 0 <= j < i ==> !is_file[j]
}

/// The first identity file that is there, given for each place whether there
/// is a file.
pub fn default_identity_file_in(platform: Platform, ssh_dir: &str, is_file: &Vec<bool>) -> (path:
    Option<String>)
    requires
        is_file@.len() == default_identity_names().len(),
    ensures
        match path {
            Some(path) => exists|i: int| #[trigger]
                is_first_file(is_file@, i) && path@ == default_identity_paths(
                    platform,
                    ssh_dir@,
                )[i],
            None => forall|i: int| 0 <= i < is_file@.len() ==> !is_file@[i],
        },
{
    let places = default_identity_places(platform, ssh_dir);
    let ghost paths = default_identity_paths(platform, ssh_dir@);
    let mut i: usize = 0;
    while i < is_file.len()
        invariant
            i <= is_file@.len(),
            is_file@.len() == 4,
            paths == default_identity_paths(platform, ssh_dir@),
            paths.len() == 4,
            texts(places@) == paths,
            forall|j: int| 0 <= j < i ==> !is_file@[j],
        decreases is_file@.len() - i,
    {
        if is_file[i] {
            assert(is_first_file(is_file@, i as int));
            assert(paths[i as int] == places@[i as int]@);
            return Some(places[i].clone());
        }
        i += 1;
    }
    None
}

/// Where the default identity files are, given the home directory.
pub fn default_ssh_dir(platform: Platform, home: &str) -> (dir: String)
    ensures
        dir@ == path_join(platform, home@, ".ssh"@),
{
    join_path(platform, home, ".ssh")
}

/// A launch that is ready to be shown in a tab.
#[derive(Debug)]
pub struct PreparedQuickLaunch {
    pub path: NodePath,
    pub launch_id: u64,
    pub title: String,
    pub settings: Settings,
    pub command: Box<QuickLaunch>,
}

/// How the preparation of a launch ended.
#[derive(Debug)]
pub enum QuickLaunchSetupOutcome {
    Prepared(Box<PreparedQuickLaunch>),
    Failed { path: NodePath, launch_id: u64, command: Box<QuickLaunch>, error: QuickLaunchError },
    Canceled { path: NodePath, launch_id: u64 },
}

/// The steps of a preparation.
#[derive(Debug, Clone, Copy, PartialEq, Eq, Structural)]
pub enum SetupStage {
    /// Ask whether the launch was canceled, before anything is done.
    AskFirst,
    /// Validate the command.
    Validate,
    /// Ask whether the launch was canceled, after the validation.
    AskAgain,
    /// Try out the SSH session.
    Probe,
    /// Ask whether the launch was canceled, before it is handed over.
    AskLast,
}

/// What came of a step.
#[derive(Debug)]
pub enum SetupEvent {
    /// Whether the launch was canceled.
    Asked(bool),
    /// What the validation said.
    Validated(Result<(), QuickLaunchError>),
    /// Whether the SSH session could be opened, or why not.
    Probed(Result<(), String>),
}

/// A preparation in progress.
#[derive(Debug)]
pub struct SetupRun {
    pub command: QuickLaunch,
    pub path: NodePath,
    pub launch_id: u64,
    pub settings: Settings,
    pub cancel: Arc<AtomicBool>,
    pub defaults: SshDefaults,
    pub stage: SetupStage,
}

/// What follows a step.
#[derive(Debug)]
pub enum SetupNext {
    /// Go on with the step that the run names.
    Continue(SetupRun),
    /// The preparation is over.
    Finished(QuickLaunchSetupOutcome),
}

/// What comes of a step: the next one, or how the preparation ends.
pub enum SetupVerdict {
    Stage(SetupStage),
    Prepared,
    Canceled,
    /// The error of the validation.
    Invalid,
    /// The SSH session could not be opened.
    Unreachable,
}

/// What comes of a step of the preparation of the given command. An answer
/// that belongs to another step leaves the preparation where it is.
pub open spec fn setup_verdict(
    stage: SetupStage,
    spec: SpecModel,
    event: SetupEvent,
) -> SetupVerdict {
    match (stage, event) {
        (SetupStage::AskFirst, SetupEvent::Asked(canceled)) => if canceled {
            SetupVerdict::Canceled
        } else {
            SetupVerdict::Stage(SetupStage::Validate)
        },
        (SetupStage::Validate, SetupEvent::Validated(result)) => if result is Err {
            SetupVerdict::Invalid
        } else {
            SetupVerdict::Stage(SetupStage::AskAgain)
        },
        (SetupStage::AskAgain, SetupEvent::Asked(canceled)) => if canceled {
            SetupVerdict::Canceled
        } else if spec is Ssh {
            SetupVerdict::Stage(SetupStage::Probe)
        } else {
            SetupVerdict::Stage(SetupStage::AskLast)
        },
        (SetupStage::Probe, SetupEvent::Probed(result)) => if result is Err {
            SetupVerdict::Unreachable
        } else {
            SetupVerdict::Stage(SetupStage::AskLast)
        },
        (SetupStage::AskLast, SetupEvent::Asked(canceled)) => if canceled {
            SetupVerdict::Canceled
        } else {
            SetupVerdict::Prepared
        },
        (_, _) => SetupVerdict::Stage(stage),
    }
}

/// Whether the outcome reports a failure of the given run.
pub open spec fn is_failure_of(
    outcome: QuickLaunchSetupOutcome,
    run: SetupRun,
) -> bool {
    &&& outcome is Failed
    &&& texts(outcome->Failed_path@) == texts(run.path@)
    &&& outcome->Failed_launch_id == run.launch_id
    &&& (*outcome->Failed_command)@ == run.command@
}

/// Prepare a launch: nothing has been asked yet.
pub fn prepare_quick_launch_setup(
    command: QuickLaunch,
    path: NodePath,
    launch_id: u64,
    terminal_settings: Settings,
    cancel: Arc<AtomicBool>,
    defaults: SshDefaults,
) -> (run: SetupRun)
    ensures
        run == (SetupRun {
            command,
            path,
            launch_id,
            settings: terminal_settings,
            cancel,
            defaults,
            stage: SetupStage::AskFirst,
        }),
{
    SetupRun {
        command,
        path,
        launch_id,
        settings: terminal_settings,
        cancel,
        defaults,
        stage: SetupStage::AskFirst,
    }
}

impl SetupRun {
    fn at(self, stage: SetupStage) -> (next: SetupNext)
        ensures
            next == SetupNext::Continue(SetupRun { stage, ..self }),
    {
        SetupNext::Continue(SetupRun { stage, ..self })
    }

    fn canceled(self) -> (next: SetupNext)
        ensures
            next == SetupNext::Finished(
                QuickLaunchSetupOutcome::Canceled { path: self.path, launch_id: self.launch_id },
            ),
    {
        SetupNext::Finished(
            QuickLaunchSetupOutcome::Canceled { path: self.path, launch_id: self.launch_id },
        )
    }

    fn failed(self, error: QuickLaunchError) -> (next: SetupNext)
        ensures
            next is Finished,
            is_failure_of(next->Finished_0, self),
            next->Finished_0->error == error,
    {
        SetupNext::Finished(
            QuickLaunchSetupOutcome::Failed {
                path: self.path,
                launch_id: self.launch_id,
                command: Box::new(self.command),
                error,
            },
        )
    }

    fn prepared(self) -> (next: SetupNext)
        ensures
            next is Finished,
            is_prepared(next->Finished_0, self),
    {
        let session = command_session(&self.command, &self.cancel, &self.defaults);
        let settings = terminal_settings_for_session(&self.settings, session);
        let title = self.command.title().to_string();
        SetupNext::Finished(
            QuickLaunchSetupOutcome::Prepared(
                Box::new(
                    PreparedQuickLaunch {
                        path: self.path,
                        launch_id: self.launch_id,
                        title,
                        settings,
                        command: Box::new(self.command),
                    },
                ),
            ),
        )
    }

    /// Go on after a step.
    pub fn step(self, event: SetupEvent) -> (next: SetupNext)
        ensures
            match setup_verdict(self.stage, self.command@.spec, event) {
                SetupVerdict::Stage(stage) => next == SetupNext::Continue(
                    SetupRun { stage, ..self },
                ),
                SetupVerdict::Prepared => next is Finished && is_prepared(next->Finished_0, self),
                SetupVerdict::Canceled => next == SetupNext::Finished(
                    QuickLaunchSetupOutcome::Canceled {
                        path: self.path,
                        launch_id: self.launch_id,
                    },
                ),
                SetupVerdict::Invalid => next is Finished && is_failure_of(next->Finished_0, self)
                    && next->Finished_0->error == event->Validated_0->Err_0,
                SetupVerdict::Unreachable => next is Finished && is_failure_of(
                    next->Finished_0,
                    self,
                ) && next->Finished_0->error is Validation
                    && next->Finished_0->error->message@ == "SSH connection failed: "@
                    + event->Probed_0->Err_0@,
            },
    {
        match (self.stage, event) {
            (SetupStage::AskFirst, SetupEvent::Asked(canceled)) => if canceled {
                self.canceled()
            } else {
                self.at(SetupStage::Validate)
            },
            (SetupStage::Validate, SetupEvent::Validated(result)) => match result {
                Err(error) => self.failed(error),
                Ok(()) => self.at(SetupStage::AskAgain),
            },
            (SetupStage::AskAgain, SetupEvent::Asked(canceled)) => if canceled {
                self.canceled()
            } else {
                let stage = match self.command.spec {
                    CommandSpec::Ssh { .. } => SetupStage::Probe,
                    CommandSpec::Custom { .. } => SetupStage::AskLast,
                };
                self.at(stage)
            },
            (SetupStage::Probe, SetupEvent::Probed(result)) => match result {
                Err(reason) => {
                    let message = joined("SSH connection failed: ", reason.as_str());
                    self.failed(QuickLaunchError::Validation { message })
                },
                Ok(()) => self.at(SetupStage::AskLast),
            },
            (SetupStage::AskLast, SetupEvent::Asked(canceled)) => if canceled {
                self.canceled()
            } else {
                self.prepared()
            },
            (stage, _) => self.at(stage),
        }
    }
}

/// Whether the outcome hands over the given run: its path, id, title and
/// command, with settings for the session that the command opens.
pub open spec fn is_prepared(outcome: QuickLaunchSetupOutcome, run: SetupRun) -> bool {
    &&& outcome is Prepared
    &&& {
        let launch = *outcome->Prepared_0;
        &&& launch.path == run.path
        &&& launch.launch_id == run.launch_id
        &&& launch.title@ == run.command@.title
        &&& (*launch.command)@ == run.command@
        &&& launch.settings@ == (SettingsModel {
            session: session_of(run.command@, run.cancel, run.defaults@),
            ..run.settings@
        })
    }
}

/// A preparation that is canceled at a question ends canceled, whatever the
/// command is.
pub proof fn cancel_always_wins(stage: SetupStage, spec: SpecModel)
    requires
        stage is AskFirst || stage is AskAgain || stage is AskLast,
    ensures
        setup_verdict(stage, spec, SetupEvent::Asked(true)) is Canceled,
{
}

/// A launch is handed over only from the last question, and an SSH command
/// gets there only through a session that could be opened.
pub proof fn prepared_only_after_probe(stage: SetupStage, spec: SpecModel, event: SetupEvent)
    ensures
        setup_verdict(stage, spec, event) is Prepared ==> stage is AskLast,
        stage != SetupStage::AskLast && setup_verdict(stage, spec, event) == SetupVerdict::Stage(
            SetupStage::AskLast,
        ) && spec is Ssh ==> stage is Probe && event matches SetupEvent::Probed(Ok(_)),
{
}

} // verus!
