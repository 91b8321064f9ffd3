//! The editors of quick launch commands, keyed by the tab that shows them.

use std::collections::HashMap;

use vstd::prelude::*;

use crate::quick_launch::types::{
    copy_strings, empty_custom_draft, empty_ssh_draft, removed_at, updated_at, CommandLaunchOptions,
    CommandSpec, CustomDraft, EnvVar, LaunchModel, NodePath, QuickLaunch, QuickLaunchType,
    SpecModel, SshDraft, SshLaunchOptions,
};
use crate::text::{decimal, decimal_text, str_opt, text_opt, text_pairs, texts};

verus! {

broadcast use vstd::std_specs::hash::group_hash_axioms;

/// Whether an editor creates a command or changes one.
#[derive(Debug)]
pub enum WizardMode {
    Create { parent_path: NodePath },
    Edit { path: NodePath },
}

/// The mathematical value of an editor's mode.
pub enum ModeModel {
    Create(Seq<Seq<char>>),
    Edit(Seq<Seq<char>>),
}

impl View for WizardMode {
    type V = ModeModel;

    open spec fn view(&self) -> ModeModel {
        match self {
            WizardMode::Create { parent_path } => ModeModel::Create(texts(parent_path@)),
            WizardMode::Edit { path } => ModeModel::Edit(texts(path@)),
        }
    }
}

/// The draft of an editor.
#[derive(Debug)]
pub enum WizardOptions {
    Custom(CommandLaunchOptions),
    Ssh(SshLaunchOptions),
}

/// The mathematical value of a draft.
#[verifier::ext_equal]
pub enum DraftModel {
    Custom(CustomDraft),
    Ssh(SshDraft),
}

impl View for WizardOptions {
    type V = DraftModel;

    open spec fn view(&self) -> DraftModel {
        match self {
            WizardOptions::Custom(custom) => DraftModel::Custom(custom@),
            WizardOptions::Ssh(ssh) => DraftModel::Ssh(ssh@),
        }
    }
}

impl DraftModel {
    /// The kind of command that the draft is for.
    pub open spec fn command_type(self) -> QuickLaunchType {
        match self {
            DraftModel::Custom(_) => QuickLaunchType::Custom,
            DraftModel::Ssh(_) => QuickLaunchType::Ssh,
        }
    }

    /// The draft with its custom part changed; an SSH draft stays as it is.
    pub open spec fn map_custom(self, f: spec_fn(CustomDraft) -> CustomDraft) -> DraftModel {
        match self {
            DraftModel::Custom(custom) => DraftModel::Custom(f(custom)),
            DraftModel::Ssh(_) => self,
        }
    }

    /// The draft with its SSH part changed; a custom draft stays as it is.
    pub open spec fn map_ssh(self, f: spec_fn(SshDraft) -> SshDraft) -> DraftModel {
        match self {
            DraftModel::Custom(_) => self,
            DraftModel::Ssh(ssh) => DraftModel::Ssh(f(ssh)),
        }
    }
}

impl WizardOptions {
    pub fn command_type(&self) -> (r: QuickLaunchType)
        ensures
            r == self@.command_type(),
    {
        match self {
            WizardOptions::Custom(_) => QuickLaunchType::Custom,
            WizardOptions::Ssh(_) => QuickLaunchType::Ssh,
        }
    }
}

/// State of one editor.
#[derive(Debug)]
pub struct WizardEditorState {
    mode: WizardMode,
    title: String,
    options: WizardOptions,
    error: Option<String>,
}

/// The mathematical value of an editor.
#[verifier::ext_equal]
pub struct EditorModel {
    pub mode: ModeModel,
    pub title: Seq<char>,
    pub options: DraftModel,
    pub error: Option<Seq<char>>,
}

impl View for WizardEditorState {
    type V = EditorModel;

    closed spec fn view(&self) -> EditorModel {
        EditorModel {
            mode: self.mode@,
            title: self.title@,
            options: self.options@,
            error: text_opt(self.error),
        }
    }
}

/// The draft that an editor for a kind of command starts with.
pub open spec fn empty_draft(command_type: QuickLaunchType) -> DraftModel {
    match command_type {
        QuickLaunchType::Custom => DraftModel::Custom(empty_custom_draft()),
        QuickLaunchType::Ssh => DraftModel::Ssh(empty_ssh_draft()),
    }
}

/// The editor that opens for a new command.
pub open spec fn create_editor(
    parent_path: Seq<Seq<char>>,
    command_type: QuickLaunchType,
) -> EditorModel {
    EditorModel {
        mode: ModeModel::Create(parent_path),
        title: Seq::empty(),
        options: empty_draft(command_type),
        error: None,
    }
}

/// The text that stands for a value that may be absent.
pub open spec fn text_or_empty(value: Option<Seq<char>>) -> Seq<char> {
    match value {
        Some(text) => text,
        None => Seq::empty(),
    }
}

/// The draft that shows a command.
pub open spec fn draft_of(spec: SpecModel) -> DraftModel {
    match spec {
        SpecModel::Custom(custom) => DraftModel::Custom(
            CustomDraft {
                program: custom.program,
                working_directory: text_or_empty(custom.working_directory),
                args: custom.args,
                env: Seq::new(custom.env.len(), |i: int| (custom.env[i].key, custom.env[i].value)),
            },
        ),
        SpecModel::Ssh(ssh) => DraftModel::Ssh(
            SshDraft {
                host: ssh.host,
                port: decimal_text(ssh.port as nat),
                user: text_or_empty(ssh.user),
                identity_file: text_or_empty(ssh.identity_file),
                extra_args: ssh.extra_args,
            },
        ),
    }
}

/// The editor that opens on a command.
pub open spec fn edit_editor(path: Seq<Seq<char>>, command: LaunchModel) -> EditorModel {
    EditorModel {
        mode: ModeModel::Edit(path),
        title: command.title,
        options: draft_of(command.spec),
        error: None,
    }
}

fn new_options(command_type: QuickLaunchType) -> (r: WizardOptions)
    ensures
        r@ == empty_draft(command_type),
{
    match command_type {
        QuickLaunchType::Custom => WizardOptions::Custom(CommandLaunchOptions::default()),
        QuickLaunchType::Ssh => WizardOptions::Ssh(SshLaunchOptions::default()),
    }
}

fn owned_or_empty(value: Option<&str>) -> (r: String)
    ensures
        r@ == text_or_empty(str_opt(value)),
{
    match value {
        Some(s) => s.to_string(),
        None => {
            let s = String::new();
            assert(s@ =~= Seq::<char>::empty());
            s
        },
    }
}

fn env_pairs(env: &Vec<EnvVar>) -> (pairs: Vec<(String, String)>)
    ensures
        text_pairs(pairs@) == Seq::new(env@.len(), |i: int| (env@[i]@.key, env@[i]@.value)),
{
    let mut pairs: Vec<(String, String)> = Vec::new();
    let mut i: usize = 0;
    while i < env.len()
        invariant
            i <= env@.len(),
            pairs@.len() == i,
            forall|j: int|
                0 <= j < i ==> (#[trigger] pairs@[j]).0@ == env@[j]@.key && pairs@[j].1@
                    == env@[j]@.value,
        decreases env@.len() - i,
    {
        pairs.push((env[i].key.clone(), env[i].value.clone()));
        i += 1;
    }
    assert(text_pairs(pairs@) =~= Seq::new(env@.len(), |i: int| (env@[i]@.key, env@[i]@.value)));
    pairs
}

impl WizardEditorState {
    /// The editor for a new command in the given folder.
    pub fn new(parent_path: NodePath, command_type: QuickLaunchType) -> (r: Self)
        ensures
            r@ == create_editor(texts(parent_path@), command_type),
    {
        let r = WizardEditorState {
            mode: WizardMode::Create { parent_path },
            title: String::new(),
            options: new_options(command_type),
            error: None,
        };
        assert(r@ =~= create_editor(texts(parent_path@), command_type));
        r
    }

    /// The editor for an existing command.
    pub fn from_command(path: NodePath, command: &QuickLaunch) -> (r: Self)
        ensures
            r@ == edit_editor(texts(path@), command@),
    {
        match &command.spec {
            CommandSpec::Custom { custom } => {
                let mut options = CommandLaunchOptions::default();
                options.set_program(custom.program.clone());
                options.set_working_directory(owned_or_empty(custom.working_directory()));
                options.set_args(copy_strings(&custom.args));
                options.set_envs(env_pairs(&custom.env));
                let r = WizardEditorState {
                    mode: WizardMode::Edit { path },
                    title: command.title.clone(),
                    options: WizardOptions::Custom(options),
                    error: None,
                };
                assert(r@.options->Custom_0.env =~= draft_of(command@.spec)->Custom_0.env);
                r
            },
            CommandSpec::Ssh { ssh } => {
                let mut options = SshLaunchOptions::default();
                options.set_host(ssh.host.clone());
                options.set_port(decimal(ssh.port as u64));
                options.set_user(owned_or_empty(ssh.user()));
                options.set_identity_file(owned_or_empty(ssh.identity_file()));
                options.set_extra_args(copy_strings(&ssh.extra_args));
                WizardEditorState {
                    mode: WizardMode::Edit { path },
                    title: command.title.clone(),
                    options: WizardOptions::Ssh(options),
                    error: None,
                }
            },
        }
    }

    pub fn mode(&self) -> (mode: &WizardMode)
        ensures
            mode@ == self@.mode,
    {
        &self.mode
    }

    pub fn title(&self) -> (title: &str)
        ensures
            title@ == self@.title,
    {
        self.title.as_str()
    }

    pub fn error(&self) -> (error: Option<&str>)
        ensures
            str_opt(error) == self@.error,
    {
        match &self.error {
            Some(error) => Some(error.as_str()),
            None => None,
        }
    }

    pub fn command_type(&self) -> (r: QuickLaunchType)
        ensures
            r == self@.options.command_type(),
    {
        self.options.command_type()
    }

    pub fn is_create_mode(&self) -> (r: bool)
        ensures
            r == self@.mode is Create,
    {
        match self.mode {
            WizardMode::Create { .. } => true,
            WizardMode::Edit { .. } => false,
        }
    }

    pub fn set_title(&mut self, value: String)
        ensures
            final(self)@ == (EditorModel { title: value@, ..old(self)@ }),
    {
        self.title = value;
    }

    pub fn set_error(&mut self, value: String)
        ensures
            final(self)@ == (EditorModel { error: Some(value@), ..old(self)@ }),
    {
        self.error = Some(value);
    }

    pub fn clear_error(&mut self)
        ensures
            final(self)@ == (EditorModel { error: None, ..old(self)@ }),
    {
        self.error = None;
    }

    /// Switch to another kind of command, which starts from an empty draft.
    /// The draft stays where the kind does.
    pub fn set_command_type(&mut self, command_type: QuickLaunchType)
        ensures
            final(self)@ == (EditorModel {
                options: if old(self)@.options.command_type() == command_type {
                    old(self)@.options
                } else {
                    empty_draft(command_type)
                },
                ..old(self)@
            }),
    {
        if self.command_type() == command_type {
            return;
        }
        self.options = new_options(command_type);
    }

    pub fn custom(&self) -> (custom: Option<&CommandLaunchOptions>)
        ensures
            match custom {
                Some(custom) => self@.options == DraftModel::Custom(custom@),
                None => self@.options is Ssh,
            },
    {
        match &self.options {
            WizardOptions::Custom(custom) => Some(custom),
            _ => None,
        }
    }

    pub fn ssh(&self) -> (ssh: Option<&SshLaunchOptions>)
        ensures
            match ssh {
                Some(ssh) => self@.options == DraftModel::Ssh(ssh@),
                None => self@.options is Custom,
            },
    {
        match &self.options {
            WizardOptions::Ssh(ssh) => Some(ssh),
            _ => None,
        }
    }

    fn custom_mut(&mut self) -> (custom: Option<&mut CommandLaunchOptions>)
        ensures
            match custom {
                Some(custom) => old(self)@.options == DraftModel::Custom(custom@) && final(self)@
                    == (EditorModel { options: DraftModel::Custom(final(custom)@), ..old(self)@ }),
                None => old(self)@.options is Ssh && final(self)@ == old(self)@,
            },
    {
        match &mut self.options {
            WizardOptions::Custom(custom) => Some(custom),
            _ => None,
        }
    }

    fn ssh_mut(&mut self) -> (ssh: Option<&mut SshLaunchOptions>)
        ensures
            match ssh {
                Some(ssh) => old(self)@.options == DraftModel::Ssh(ssh@) && final(self)@ == (
                EditorModel { options: DraftModel::Ssh(final(ssh)@), ..old(self)@ }),
                None => old(self)@.options is Custom && final(self)@ == old(self)@,
            },
    {
        match &mut self.options {
            WizardOptions::Ssh(ssh) => Some(ssh),
            _ => None,
        }
    }

    pub fn set_program(&mut self, value: String)
        ensures
            final(self)@ == (EditorModel {
                options: old(self)@.options.map_custom(
                    |d: CustomDraft| CustomDraft { program: value@, ..d },
                ),
                ..old(self)@
            }),
    {
        if let Some(custom) = self.custom_mut() {
            custom.set_program(value);
        }
    }

    pub fn set_working_directory(&mut self, value: String)
        ensures
            final(self)@ == (EditorModel {
                options: old(self)@.options.map_custom(
                    |d: CustomDraft| CustomDraft { working_directory: value@, ..d },
                ),
                ..old(self)@
            }),
    {
        if let Some(custom) = self.custom_mut() {
            custom.set_working_directory(value);
        }
    }

    pub fn add_arg(&mut self)
        ensures
            final(self)@ == (EditorModel {
                options: old(self)@.options.map_custom(
                    |d: CustomDraft| CustomDraft { args: d.args.push(Seq::empty()), ..d },
                ),
                ..old(self)@
            }),
    {
        if let Some(custom) = self.custom_mut() {
            custom.add_arg();
        }
    }

    pub fn remove_arg(&mut self, index: usize)
        ensures
            final(self)@ == (EditorModel {
                options: old(self)@.options.map_custom(
                    |d: CustomDraft| CustomDraft { args: removed_at(d.args, index as nat), ..d },
                ),
                ..old(self)@
            }),
    {
        if let Some(custom) = self.custom_mut() {
            custom.remove_arg(index);
        }
    }

    pub fn update_arg(&mut self, index: usize, value: String)
        ensures
            final(self)@ == (EditorModel {
                options: old(self)@.options.map_custom(
                    |d: CustomDraft| CustomDraft { args: updated_at(d.args, index as nat, value@), ..d },
                ),
                ..old(self)@
            }),
    {
        if let Some(custom) = self.custom_mut() {
            custom.update_arg(index, value);
        }
    }

    pub fn add_env(&mut self)
        ensures
            final(self)@ == (EditorModel {
                options: old(self)@.options.map_custom(
                    |d: CustomDraft| CustomDraft { env: d.env.push((Seq::empty(), Seq::empty())), ..d },
                ),
                ..old(self)@
            }),
    {
        if let Some(custom) = self.custom_mut() {
            custom.add_env();
        }
    }

    pub fn remove_env(&mut self, index: usize)
        ensures
            final(self)@ == (EditorModel {
                options: old(self)@.options.map_custom(
                    |d: CustomDraft| CustomDraft { env: removed_at(d.env, index as nat), ..d },
                ),
                ..old(self)@
            }),
    {
        if let Some(custom) = self.custom_mut() {
            custom.remove_env(index);
        }
    }

    pub fn update_env_key(&mut self, index: usize, value: String)
        ensures
            final(self)@ == (EditorModel {
                options: old(self)@.options.map_custom(
                    |d: CustomDraft| CustomDraft { env: updated_at(d.env, index as nat, (value@, d.env[index as int].1)), ..d },
                ),
                ..old(self)@
            }),
    {
        if let Some(custom) = self.custom_mut() {
            custom.update_env_key(index, value);
        }
    }

    pub fn update_env_value(&mut self, index: usize, value: String)
        ensures
            final(self)@ == (EditorModel {
                options: old(self)@.options.map_custom(
                    |d: CustomDraft| CustomDraft { env: updated_at(d.env, index as nat, (d.env[index as int].0, value@)), ..d },
                ),
                ..old(self)@
            }),
    {
        if let Some(custom) = self.custom_mut() {
            custom.update_env_value(index, value);
        }
    }

    pub fn set_host(&mut self, value: String)
        ensures
            final(self)@ == (EditorModel {
                options: old(self)@.options.map_ssh(
                    |d: SshDraft| SshDraft { host: value@, ..d },
                ),
                ..old(self)@
            }),
    {
        if let Some(ssh) = self.ssh_mut() {
            ssh.set_host(value);
        }
    }

    pub fn set_user(&mut self, value: String)
        ensures
            final(self)@ == (EditorModel {
                options: old(self)@.options.map_ssh(
                    |d: SshDraft| SshDraft { user: value@, ..d },
                ),
                ..old(self)@
            }),
    {
        if let Some(ssh) = self.ssh_mut() {
            ssh.set_user(value);
        }
    }

    pub fn set_port(&mut self, value: String)
        ensures
            final(self)@ == (EditorModel {
                options: old(self)@.options.map_ssh(
                    |d: SshDraft| SshDraft { port: value@, ..d },
                ),
                ..old(self)@
            }),
    {
        if let Some(ssh) = self.ssh_mut() {
            ssh.set_port(value);
        }
    }

    pub fn set_identity_file(&mut self, value: String)
        ensures
            final(self)@ == (EditorModel {
                options: old(self)@.options.map_ssh(
                    |d: SshDraft| SshDraft { identity_file: value@, ..d },
                ),
                ..old(self)@
            }),
    {
        if let Some(ssh) = self.ssh_mut() {
            ssh.set_identity_file(value);
        }
    }

    pub fn add_extra_arg(&mut self)
        ensures
            final(self)@ == (EditorModel {
                options: old(self)@.options.map_ssh(
                    |d: SshDraft| SshDraft { extra_args: d.extra_args.push(Seq::empty()), ..d },
                ),
                ..old(self)@
            }),
    {
        if let Some(ssh) = self.ssh_mut() {
            ssh.add_extra_arg();
        }
    }

    pub fn remove_extra_arg(&mut self, index: usize)
        ensures
            final(self)@ == (EditorModel {
                options: old(self)@.options.map_ssh(
                    |d: SshDraft| SshDraft { extra_args: removed_at(d.extra_args, index as nat), ..d },
                ),
                ..old(self)@
            }),
    {
        if let Some(ssh) = self.ssh_mut() {
            ssh.remove_extra_arg(index);
        }
    }

    pub fn update_extra_arg(&mut self, index: usize, value: String)
        ensures
            final(self)@ == (EditorModel {
                options: old(self)@.options.map_ssh(
                    |d: SshDraft| SshDraft { extra_args: updated_at(d.extra_args, index as nat, value@), ..d },
                ),
                ..old(self)@
            }),
    {
        if let Some(ssh) = self.ssh_mut() {
            ssh.update_extra_arg(index, value);
        }
    }
}

/// Editors by tab id.
#[derive(Debug)]
pub struct WizardState {
    editors: HashMap<u64, WizardEditorState>,
}

impl View for WizardState {
    type V = Map<u64, EditorModel>;

    closed spec fn view(&self) -> Map<u64, EditorModel> {
        editor_models(self.editors@)
    }
}

/// The mathematical values of a map of editors.
pub open spec fn editor_models(editors: Map<u64, WizardEditorState>) -> Map<u64, EditorModel> {
    editors.map_values(|editor: WizardEditorState| editor@)
}

impl Default for WizardState {
    fn default() -> (r: Self)
        ensures
            r@ == Map::<u64, EditorModel>::empty(),
    {
        let r = WizardState { editors: HashMap::new() };
        assert(r@ =~= Map::<u64, EditorModel>::empty());
        r
    }
}

impl WizardState {
    pub fn editor(&self, tab_id: u64) -> (editor: Option<&WizardEditorState>)
        ensures
            match editor {
                Some(editor) => self@.contains_key(tab_id) && self@[tab_id] == editor@,
                None => !self@.contains_key(tab_id),
            },
    {
        self.editors.get(&tab_id)
    }

    pub fn editor_mut(&mut self, tab_id: u64) -> (editor: Option<&mut WizardEditorState>)
        ensures
            match editor {
                Some(editor) => old(self)@.contains_key(tab_id) && old(self)@[tab_id] == editor@
                    && final(self)@ == old(self)@.insert(tab_id, final(editor)@),
                None => !old(self)@.contains_key(tab_id) && final(self)@ == old(self)@,
            },
    {
        proof {
            lemma_editor_views();
        }
        match self.editors.entry(tab_id) {
            std::collections::hash_map::Entry::Occupied(entry) => Some(entry.into_mut()),
            std::collections::hash_map::Entry::Vacant(_) => None,
        }
    }

    pub fn initialize_create(
        &mut self,
        tab_id: u64,
        parent: NodePath,
        command_type: QuickLaunchType,
    )
        ensures
            final(self)@ == old(self)@.insert(tab_id, create_editor(texts(parent@), command_type)),
    {
        self.set_editor(tab_id, WizardEditorState::new(parent, command_type));
    }

    pub fn initialize_edit(&mut self, tab_id: u64, path: NodePath, command: &QuickLaunch)
        ensures
            final(self)@ == old(self)@.insert(tab_id, edit_editor(texts(path@), command@)),
    {
        self.set_editor(tab_id, WizardEditorState::from_command(path, command));
    }

    pub fn remove_tab(&mut self, tab_id: u64)
        ensures
            final(self)@ == old(self)@.remove(tab_id),
    {
        self.editors.remove(&tab_id);
        assert(self@ =~= old(self)@.remove(tab_id));
    }

    pub fn set_editor(&mut self, tab_id: u64, editor: WizardEditorState)
        ensures
            final(self)@ == old(self)@.insert(tab_id, editor@),
    {
        self.editors.insert(tab_id, editor);
        assert(self@ =~= old(self)@.insert(tab_id, editor@));
    }
}

proof fn lemma_editor_views()
    ensures
        forall|m: Map<u64, WizardEditorState>, k: u64, e: WizardEditorState|
            #[trigger] editor_models(m.insert(k, e)) == editor_models(m).insert(k, e@),
        forall|m: Map<u64, WizardEditorState>, k: u64|
            !m.contains_key(k) ==> #[trigger] m.remove(k) == m,
{
    assert forall|m: Map<u64, WizardEditorState>, k: u64, e: WizardEditorState|
        #[trigger] editor_models(m.insert(k, e)) == editor_models(m).insert(k, e@) by {
        assert(editor_models(m.insert(k, e)) =~= editor_models(m).insert(k, e@));
    }
    assert forall|m: Map<u64, WizardEditorState>, k: u64| !m.contains_key(k) implies #[trigger]
        m.remove(k) == m by {
        assert(m.remove(k) =~= m);
    }
}

} // verus!
