//! The values that describe one saved command.

use vstd::prelude::*;

use crate::text::{decimal, decimal_text, push_text, str_opt, text_opt, text_pairs, texts};

verus! {

/// The titles from the root of the tree down to a node.
pub type NodePath = Vec<String>;

/// An environment variable of a custom command.
#[derive(Debug)]
pub struct EnvVar {
    pub key: String,
    pub value: String,
}

/// A command that runs a local program.
#[derive(Debug)]
pub struct CustomCommand {
    pub program: String,
    pub args: Vec<String>,
    pub env: Vec<EnvVar>,
    pub working_directory: Option<String>,
}

/// A command that opens an SSH session.
#[derive(Debug)]
pub struct SshCommand {
    pub host: String,
    pub port: u16,
    pub user: Option<String>,
    pub identity_file: Option<String>,
    pub extra_args: Vec<String>,
}

/// What a quick launch runs.
#[derive(Debug)]
pub enum CommandSpec {
    Custom { custom: CustomCommand },
    Ssh { ssh: SshCommand },
}

/// A saved command.
#[derive(Debug)]
pub struct QuickLaunch {
    pub title: String,
    pub spec: CommandSpec,
}

/// The mathematical value of an environment variable.
#[verifier::ext_equal]
pub struct EnvModel {
    pub key: Seq<char>,
    pub value: Seq<char>,
}

/// The mathematical value of a custom command.
#[verifier::ext_equal]
pub struct CustomModel {
    pub program: Seq<char>,
    pub args: Seq<Seq<char>>,
    pub env: Seq<EnvModel>,
    pub working_directory: Option<Seq<char>>,
}

/// The mathematical value of an SSH command.
#[verifier::ext_equal]
pub struct SshModel {
    pub host: Seq<char>,
    pub port: u16,
    pub user: Option<Seq<char>>,
    pub identity_file: Option<Seq<char>>,
    pub extra_args: Seq<Seq<char>>,
}

/// The mathematical value of what a quick launch runs.
#[verifier::ext_equal]
pub enum SpecModel {
    Custom(CustomModel),
    Ssh(SshModel),
}

/// The mathematical value of a saved command.
#[verifier::ext_equal]
pub struct LaunchModel {
    pub title: Seq<char>,
    pub spec: SpecModel,
}

/// The mathematical value of a list of environment variables.
pub open spec fn env_models(env: Seq<EnvVar>) -> Seq<EnvModel> {
    env.map_values(|e: EnvVar| e@)
}

impl View for EnvVar {
    type V = EnvModel;

    open spec fn view(&self) -> EnvModel {
        EnvModel { key: self.key@, value: self.value@ }
    }
}

impl View for CustomCommand {
    type V = CustomModel;

    open spec fn view(&self) -> CustomModel {
        CustomModel {
            program: self.program@,
            args: texts(self.args@),
            env: env_models(self.env@),
            working_directory: text_opt(self.working_directory),
        }
    }
}

impl View for SshCommand {
    type V = SshModel;

    open spec fn view(&self) -> SshModel {
        SshModel {
            host: self.host@,
            port: self.port,
            user: text_opt(self.user),
            identity_file: text_opt(self.identity_file),
            extra_args: texts(self.extra_args@),
        }
    }
}

impl View for CommandSpec {
    type V = SpecModel;

    open spec fn view(&self) -> SpecModel {
        match self {
            CommandSpec::Custom { custom } => SpecModel::Custom(custom@),
            CommandSpec::Ssh { ssh } => SpecModel::Ssh(ssh@),
        }
    }
}

impl View for QuickLaunch {
    type V = LaunchModel;

    open spec fn view(&self) -> LaunchModel {
        LaunchModel { title: self.title@, spec: self.spec@ }
    }
}

impl Clone for EnvVar {
    fn clone(&self) -> (r: Self)
        ensures
            r@ == self@,
    {
        EnvVar { key: self.key.clone(), value: self.value.clone() }
    }
}

impl EnvVar {
    pub fn key(&self) -> (key: &str)
        ensures
            key@ == self@.key,
    {
        self.key.as_str()
    }

    pub fn value(&self) -> (value: &str)
        ensures
            value@ == self@.value,
    {
        self.value.as_str()
    }
}

/// A copy of a list of strings.
pub fn copy_strings(strings: &Vec<String>) -> (copy: Vec<String>)
    ensures
        texts(copy@) == texts(strings@),
{
    let copy = strings.clone();
    assert(texts(copy@) =~= texts(strings@));
    copy
}

/// A copy of an optional string.
pub fn copy_option(value: &Option<String>) -> (copy: Option<String>)
    ensures
        text_opt(copy) == text_opt(*value),
{
    match value {
        Some(s) => Some(s.clone()),
        None => None,
    }
}

/// A copy of a list of environment variables.
pub fn copy_env(env: &Vec<EnvVar>) -> (copy: Vec<EnvVar>)
    ensures
        env_models(copy@) == env_models(env@),
{
    let copy = env.clone();
    assert(env_models(copy@) =~= env_models(env@));
    copy
}

impl Clone for CustomCommand {
    fn clone(&self) -> (r: Self)
        ensures
            r@ == self@,
    {
        CustomCommand {
            program: self.program.clone(),
            args: copy_strings(&self.args),
            env: copy_env(&self.env),
            working_directory: copy_option(&self.working_directory),
        }
    }
}

impl CustomCommand {
    pub fn program(&self) -> (program: &str)
        ensures
            program@ == self@.program,
    {
        self.program.as_str()
    }

    pub fn args(&self) -> (args: &Vec<String>)
        ensures
            texts(args@) == self@.args,
    {
        &self.args
    }

    pub fn env(&self) -> (env: &Vec<EnvVar>)
        ensures
            env_models(env@) == self@.env,
    {
        &self.env
    }

    pub fn working_directory(&self) -> (dir: Option<&str>)
        ensures
            str_opt(dir) == self@.working_directory,
    {
        borrowed(&self.working_directory)
    }
}

/// An optional string, borrowed.
pub fn borrowed(value: &Option<String>) -> (r: Option<&str>)
    ensures
        str_opt(r) == text_opt(*value),
{
    match value {
        Some(s) => Some(s.as_str()),
        None => None,
    }
}

impl Clone for SshCommand {
    fn clone(&self) -> (r: Self)
        ensures
            r@ == self@,
    {
        SshCommand {
            host: self.host.clone(),
            port: self.port,
            user: copy_option(&self.user),
            identity_file: copy_option(&self.identity_file),
            extra_args: copy_strings(&self.extra_args),
        }
    }
}

impl SshCommand {
    pub fn host(&self) -> (host: &str)
        ensures
            host@ == self@.host,
    {
        self.host.as_str()
    }

    pub fn port(&self) -> (port: u16)
        ensures
            port == self@.port,
    {
        self.port
    }

    pub fn user(&self) -> (user: Option<&str>)
        ensures
            str_opt(user) == self@.user,
    {
        borrowed(&self.user)
    }

    pub fn identity_file(&self) -> (path: Option<&str>)
        ensures
            str_opt(path) == self@.identity_file,
    {
        borrowed(&self.identity_file)
    }

    pub fn extra_args(&self) -> (args: &Vec<String>)
        ensures
            texts(args@) == self@.extra_args,
    {
        &self.extra_args
    }
}

impl Clone for CommandSpec {
    fn clone(&self) -> (r: Self)
        ensures
            r@ == self@,
    {
        match self {
            CommandSpec::Custom { custom } => CommandSpec::Custom { custom: custom.clone() },
            CommandSpec::Ssh { ssh } => CommandSpec::Ssh { ssh: ssh.clone() },
        }
    }
}

impl Clone for QuickLaunch {
    fn clone(&self) -> (r: Self)
        ensures
            r@ == self@,
    {
        QuickLaunch { title: self.title.clone(), spec: self.spec.clone() }
    }
}

impl QuickLaunch {
    pub fn title(&self) -> (title: &str)
        ensures
            title@ == self@.title,
    {
        self.title.as_str()
    }

    pub fn spec(&self) -> (spec: &CommandSpec)
        ensures
            spec@ == self@.spec,
    {
        &self.spec
    }
}

/// The two kinds of quick launch.
#[derive(Debug, Clone, Copy, PartialEq, Eq, Structural)]
pub enum QuickLaunchType {
    Custom,
    Ssh,
}

/// Port that an SSH draft starts with and that an empty port field stands for.
pub const SSH_DEFAULT_PORT: u16 = 22;

/// Draft of a custom command, as the editor's fields hold it.
#[derive(Debug)]
pub struct CommandLaunchOptions {
    program: String,
    working_directory: String,
    args: Vec<String>,
    env: Vec<(String, String)>,
}

/// Draft of an SSH command, as the editor's fields hold it.
#[derive(Debug)]
pub struct SshLaunchOptions {
    host: String,
    port: String,
    user: String,
    identity_file: String,
    extra_args: Vec<String>,
}

/// The mathematical value of a custom draft.
#[verifier::ext_equal]
pub struct CustomDraft {
    pub program: Seq<char>,
    pub working_directory: Seq<char>,
    pub args: Seq<Seq<char>>,
    pub env: Seq<(Seq<char>, Seq<char>)>,
}

/// The mathematical value of an SSH draft.
#[verifier::ext_equal]
pub struct SshDraft {
    pub host: Seq<char>,
    pub port: Seq<char>,
    pub user: Seq<char>,
    pub identity_file: Seq<char>,
    pub extra_args: Seq<Seq<char>>,
}

impl View for CommandLaunchOptions {
    type V = CustomDraft;

    closed spec fn view(&self) -> CustomDraft {
        CustomDraft {
            program: self.program@,
            working_directory: self.working_directory@,
            args: texts(self.args@),
            env: text_pairs(self.env@),
        }
    }
}

impl View for SshLaunchOptions {
    type V = SshDraft;

    closed spec fn view(&self) -> SshDraft {
        SshDraft {
            host: self.host@,
            port: self.port@,
            user: self.user@,
            identity_file: self.identity_file@,
            extra_args: texts(self.extra_args@),
        }
    }
}

/// `list` without the item at `index`; unchanged where there is none.
pub open spec fn removed_at<T>(list: Seq<T>, index: nat) -> Seq<T> {
    if index < list.len() {
        list.remove(index as int)
    } else {
        list
    }
}

/// `list` with the item at `index` replaced; unchanged where there is none.
pub open spec fn updated_at<T>(list: Seq<T>, index: nat, value: T) -> Seq<T> {
    if index < list.len() {
        list.update(index as int, value)
    } else {
        list
    }
}

fn remove_text(list: &mut Vec<String>, index: usize)
    ensures
        texts(final(list)@) == removed_at(texts(old(list)@), index as nat),
{
    if index < list.len() {
        list.remove(index);
        assert(texts(list@) =~= texts(old(list)@).remove(index as int));
    }
}

fn update_text(list: &mut Vec<String>, index: usize, value: String)
    ensures
        texts(final(list)@) == updated_at(texts(old(list)@), index as nat, value@),
{
    if index < list.len() {
        list[index] = value;
        assert(list@ == old(list)@.update(index as int, value));
        assert(texts(list@) =~= texts(old(list)@).update(index as int, value@));
    }
}

fn update_pair(list: &mut Vec<(String, String)>, index: usize, value: (String, String))
    requires
        index < old(list)@.len(),
    ensures
        text_pairs(final(list)@) == text_pairs(old(list)@).update(
            index as int,
            (value.0@, value.1@),
        ),
{
    list[index] = value;
    assert(list@ == old(list)@.update(index as int, value));
    assert(text_pairs(list@) =~= text_pairs(old(list)@).update(
        index as int,
        (value.0@, value.1@),
    ));
}

/// The draft with nothing filled in.
pub open spec fn empty_custom_draft() -> CustomDraft {
    CustomDraft {
        program: Seq::empty(),
        working_directory: Seq::empty(),
        args: Seq::empty(),
        env: Seq::empty(),
    }
}

/// The draft with nothing filled in but the default port.
pub open spec fn empty_ssh_draft() -> SshDraft {
    SshDraft {
        host: Seq::empty(),
        port: decimal_text(SSH_DEFAULT_PORT as nat),
        user: Seq::empty(),
        identity_file: Seq::empty(),
        extra_args: Seq::empty(),
    }
}

impl Default for CommandLaunchOptions {
    fn default() -> (r: Self)
        ensures
            r@ == empty_custom_draft(),
    {
        let r = CommandLaunchOptions {
            program: String::new(),
            working_directory: String::new(),
            args: Vec::new(),
            env: Vec::new(),
        };
        assert(r@ =~= empty_custom_draft());
        r
    }
}

impl Default for SshLaunchOptions {
    fn default() -> (r: Self)
        ensures
            r@ == empty_ssh_draft(),
    {
        let r = SshLaunchOptions {
            host: String::new(),
            port: decimal(SSH_DEFAULT_PORT as u64),
            user: String::new(),
            identity_file: String::new(),
            extra_args: Vec::new(),
        };
        assert(r@ =~= empty_ssh_draft());
        r
    }
}

impl Clone for CommandLaunchOptions {
    fn clone(&self) -> (r: Self)
        ensures
            r@ == self@,
    {
        let mut env: Vec<(String, String)> = Vec::new();
        let mut i: usize = 0;
        while i < self.env.len()
            invariant
                i <= self.env@.len(),
                env@.len() == i,
                forall|j: int|
                    0 <= j < i ==> (#[trigger] env@[j]).0@ == self.env@[j].0@ && env@[j].1@
                        == self.env@[j].1@,
            decreases self.env@.len() - i,
        {
            env.push((self.env[i].0.clone(), self.env[i].1.clone()));
            i += 1;
        }
        assert(text_pairs(env@) =~= text_pairs(self.env@));
        let r = CommandLaunchOptions {
            program: self.program.clone(),
            working_directory: self.working_directory.clone(),
            args: copy_strings(&self.args),
            env,
        };
        assert(r@ =~= self@);
        r
    }
}

impl Clone for SshLaunchOptions {
    fn clone(&self) -> (r: Self)
        ensures
            r@ == self@,
    {
        SshLaunchOptions {
            host: self.host.clone(),
            port: self.port.clone(),
            user: self.user.clone(),
            identity_file: self.identity_file.clone(),
            extra_args: copy_strings(&self.extra_args),
        }
    }
}

impl CommandLaunchOptions {
    pub fn program(&self) -> (program: &str)
        ensures
            program@ == self@.program,
    {
        self.program.as_str()
    }

    pub fn working_directory(&self) -> (dir: &str)
        ensures
            dir@ == self@.working_directory,
    {
        self.working_directory.as_str()
    }

    pub fn args(&self) -> (args: &Vec<String>)
        ensures
            texts(args@) == self@.args,
    {
        &self.args
    }

    pub fn env(&self) -> (env: &Vec<(String, String)>)
        ensures
            text_pairs(env@) == self@.env,
    {
        &self.env
    }

    pub fn set_program(&mut self, value: String)
        ensures
            final(self)@ == (CustomDraft { program: value@, ..old(self)@ }),
    {
        self.program = value;
    }

    pub fn set_working_directory(&mut self, value: String)
        ensures
            final(self)@ == (CustomDraft { working_directory: value@, ..old(self)@ }),
    {
        self.working_directory = value;
    }

    pub fn set_args(&mut self, args: Vec<String>)
        ensures
            final(self)@ == (CustomDraft { args: texts(args@), ..old(self)@ }),
    {
        self.args = args;
    }

    pub fn set_envs(&mut self, env: Vec<(String, String)>)
        ensures
            final(self)@ == (CustomDraft { env: text_pairs(env@), ..old(self)@ }),
    {
        self.env = env;
    }

    pub fn add_arg(&mut self)
        ensures
            final(self)@ == (CustomDraft { args: old(self)@.args.push(Seq::empty()), ..old(self)@ }),
    {
        push_text(&mut self.args, String::new());
        assert(self@.args =~= old(self)@.args.push(Seq::empty()));
    }

    pub fn remove_arg(&mut self, index: usize)
        ensures
            final(self)@ == (CustomDraft {
                args: removed_at(old(self)@.args, index as nat),
                ..old(self)@
            }),
    {
        remove_text(&mut self.args, index);
    }

    pub fn update_arg(&mut self, index: usize, value: String)
        ensures
            final(self)@ == (CustomDraft {
                args: updated_at(old(self)@.args, index as nat, value@),
                ..old(self)@
            }),
    {
        update_text(&mut self.args, index, value);
    }

    pub fn add_env(&mut self)
        ensures
            final(self)@ == (CustomDraft {
                env: old(self)@.env.push((Seq::empty(), Seq::empty())),
                ..old(self)@
            }),
    {
        self.env.push((String::new(), String::new()));
        assert(self@.env =~= old(self)@.env.push((Seq::empty(), Seq::empty())));
    }

    pub fn remove_env(&mut self, index: usize)
        ensures
            final(self)@ == (CustomDraft {
                env: removed_at(old(self)@.env, index as nat),
                ..old(self)@
            }),
    {
        if index < self.env.len() {
            self.env.remove(index);
        }
        assert(self@.env =~= removed_at(old(self)@.env, index as nat));
    }

    pub fn update_env_key(&mut self, index: usize, value: String)
        ensures
            final(self)@ == (CustomDraft {
                env: updated_at(
                    old(self)@.env,
                    index as nat,
                    (value@, old(self)@.env[index as int].1),
                ),
                ..old(self)@
            }),
    {
        if index < self.env.len() {
            let kept = self.env[index].1.clone();
            update_pair(&mut self.env, index, (value, kept));
        }
    }

    pub fn update_env_value(&mut self, index: usize, value: String)
        ensures
            final(self)@ == (CustomDraft {
                env: updated_at(
                    old(self)@.env,
                    index as nat,
                    (old(self)@.env[index as int].0, value@),
                ),
                ..old(self)@
            }),
    {
        if index < self.env.len() {
            let kept = self.env[index].0.clone();
            update_pair(&mut self.env, index, (kept, value));
        }
    }
}

impl SshLaunchOptions {
    pub fn host(&self) -> (host: &str)
        ensures
            host@ == self@.host,
    {
        self.host.as_str()
    }

    pub fn port(&self) -> (port: &str)
        ensures
            port@ == self@.port,
    {
        self.port.as_str()
    }

    pub fn user(&self) -> (user: &str)
        ensures
            user@ == self@.user,
    {
        self.user.as_str()
    }

    pub fn identity_file(&self) -> (path: &str)
        ensures
            path@ == self@.identity_file,
    {
        self.identity_file.as_str()
    }

    pub fn extra_args(&self) -> (args: &Vec<String>)
        ensures
            texts(args@) == self@.extra_args,
    {
        &self.extra_args
    }

    pub fn set_host(&mut self, value: String)
        ensures
            final(self)@ == (SshDraft { host: value@, ..old(self)@ }),
    {
        self.host = value;
    }

    pub fn set_port(&mut self, value: String)
        ensures
            final(self)@ == (SshDraft { port: value@, ..old(self)@ }),
    {
        self.port = value;
    }

    pub fn set_user(&mut self, value: String)
        ensures
            final(self)@ == (SshDraft { user: value@, ..old(self)@ }),
    {
        self.user = value;
    }

    pub fn set_identity_file(&mut self, value: String)
        ensures
            final(self)@ == (SshDraft { identity_file: value@, ..old(self)@ }),
    {
        self.identity_file = value;
    }

    pub fn set_extra_args(&mut self, args: Vec<String>)
        ensures
            final(self)@ == (SshDraft { extra_args: texts(args@), ..old(self)@ }),
    {
        self.extra_args = args;
    }

    pub fn add_extra_arg(&mut self)
        ensures
            final(self)@ == (SshDraft {
                extra_args: old(self)@.extra_args.push(Seq::empty()),
                ..old(self)@
            }),
    {
        push_text(&mut self.extra_args, String::new());
        assert(self@.extra_args =~= old(self)@.extra_args.push(Seq::empty()));
    }

    pub fn remove_extra_arg(&mut self, index: usize)
        ensures
            final(self)@ == (SshDraft {
                extra_args: removed_at(old(self)@.extra_args, index as nat),
                ..old(self)@
            }),
    {
        remove_text(&mut self.extra_args, index);
    }

    pub fn update_extra_arg(&mut self, index: usize, value: String)
        ensures
            final(self)@ == (SshDraft {
                extra_args: updated_at(old(self)@.extra_args, index as nat, value@),
                ..old(self)@
            }),
    {
        update_text(&mut self.extra_args, index, value);
    }
}

} // verus!
