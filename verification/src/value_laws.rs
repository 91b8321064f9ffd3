//! What the mathematical values of the library stand for: a value and its model
//! name the same thing and carry the same parts.

use vstd::prelude::*;

use crate::quick_launch::event::{EffectModel, QuickLaunchEffect, QuickLaunchTask, TaskModel};
use crate::quick_launch::services::LaunchHost;
use crate::quick_launch::setup::SshDefaults;
use crate::quick_launch::state::{
    ContextMenuTarget, DragState, DropModel, DropTarget, EditKindModel, InlineEditKind,
    InlineEditState, MenuTarget,
};
use crate::quick_launch::tree::{NodeModel, QuickLaunchFile, QuickLaunchFolder, QuickLaunchNode};
use crate::quick_launch::types::{
    env_models, CommandSpec, CustomCommand, EnvVar, QuickLaunch, SpecModel, SshCommand,
};
use crate::quick_launch::wizard::{DraftModel, ModeModel, WizardMode, WizardOptions};
use crate::session_options::{SessionKind, SessionModel, Settings};
use crate::terminal_workspace::types::{
    task_models, BlockCommand, BlockCommandModel, TerminalEntry, TerminalWorkspaceEffect,
    WorkspaceEffectModel, WorkspaceTask, WorkspaceTaskModel,
};
use crate::text::{text_opt, texts};

verus! {

/// A list of texts and its model have the same texts in the same order, and a text
/// that may be missing is missing in both.
pub proof fn texts_are_kept(list: Seq<String>, text: Option<String>)
    ensures
        texts(list).len() == list.len(),
        forall|i: int| 0 <= i < list.len() ==> #[trigger] texts(list)[i] == list[i]@,
        text is Some == text_opt(text) is Some,
        text matches Some(t) ==> text_opt(text) == Some(t@),
{
}

/// An order to the blocks of a terminal is known by its kind and its block.
pub proof fn block_orders_are_told_apart(command: BlockCommand)
    ensures
        command is SelectHovered == command@ is SelectHovered,
        command is ClearSelection == command@ is ClearSelection,
        command is CopySelection == command@ is CopySelection,
        command is PasteClipboard == command@ is PasteClipboard,
        command matches BlockCommand::Select(id) ==> command@ == BlockCommandModel::Select(id@),
        command matches BlockCommand::CopyContent(id) ==> command@
            == BlockCommandModel::CopyContent(id@),
        command matches BlockCommand::CopyPrompt(id) ==> command@ == BlockCommandModel::CopyPrompt(
            id@,
        ),
        command matches BlockCommand::CopyCommand(id) ==> command@
            == BlockCommandModel::CopyCommand(id@),
        command@ is Select == command is Select,
        command@ is CopyContent == command is CopyContent,
        command@ is CopyPrompt == command is CopyPrompt,
        command@ is CopyCommand == command is CopyCommand,
{
}

/// A piece of work of the workspace is known by its kind and by whom it is for.
pub proof fn workspace_work_is_told_apart(task: WorkspaceTask)
    ensures
        task@ is FocusTerminal == task is FocusTerminal,
        task@ is FocusElement == task is FocusElement,
        task@ is Block == task is Block,
        task@ is Forward == task is Forward,
        task@ is Restyle == task is Restyle,
        task@ is Effect == task is Effect,
        task matches WorkspaceTask::FocusTerminal { widget_id } ==> task@
            == WorkspaceTaskModel::FocusTerminal(widget_id),
        task matches WorkspaceTask::FocusElement { id } ==> task@
            == WorkspaceTaskModel::FocusElement(id),
        task matches WorkspaceTask::Block { widget_id, command } ==> task@
            == WorkspaceTaskModel::Block(widget_id, command@),
        task matches WorkspaceTask::Forward { terminal_id } ==> task@
            == WorkspaceTaskModel::Forward(terminal_id),
        task matches WorkspaceTask::Restyle { terminal_id } ==> task@
            == WorkspaceTaskModel::Restyle(terminal_id),
        task matches WorkspaceTask::Effect(effect) ==> task@ == WorkspaceTaskModel::Effect(effect@),
{
}

/// A list of work and its model have the same pieces in the same order.
pub proof fn work_is_kept_in_order(tasks: Seq<WorkspaceTask>)
    ensures
        task_models(tasks).len() == tasks.len(),
        forall|i: int| 0 <= i < tasks.len() ==> #[trigger] task_models(tasks)[i] == tasks[i]@,
{
}

/// What the workspace asks of the application is known by its kind and its tab.
pub proof fn workspace_requests_are_told_apart(effect: TerminalWorkspaceEffect)
    ensures
        effect@ is TabClosed == effect is TabClosed,
        effect@ is TitleChanged == effect is TitleChanged,
        effect@ is SyncExplorer == effect is SyncExplorer,
        effect@ is CommandTabOpenFailed == effect is CommandTabOpenFailed,
        effect matches TerminalWorkspaceEffect::TabClosed { tab_id } ==> effect@
            == WorkspaceEffectModel::TabClosed(tab_id),
        effect matches TerminalWorkspaceEffect::TitleChanged { tab_id, title } ==> effect@
            == WorkspaceEffectModel::TitleChanged(tab_id, title@),
        effect matches TerminalWorkspaceEffect::CommandTabOpenFailed { tab_id, title, message }
            ==> effect@ == WorkspaceEffectModel::CommandTabOpenFailed(tab_id, title@, message@),
{
}

/// A terminal of a tab keeps its widget and its title.
pub proof fn terminal_keeps_widget_and_title(entry: TerminalEntry)
    ensures
        entry@.widget_id == entry.widget_id,
        entry@.title == entry.title@,
{
}

/// What the quick launch asks of the application is known by its kind and its
/// parts.
pub proof fn launch_requests_are_told_apart(effect: QuickLaunchEffect)
    ensures
        effect@ is OpenWizardCreateTab == effect is OpenWizardCreateTab,
        effect@ is OpenWizardEditTab == effect is OpenWizardEditTab,
        effect@ is OpenCommandTerminalTab == effect is OpenCommandTerminalTab,
        effect@ is OpenErrorTab == effect is OpenErrorTab,
        effect@ is CloseTabRequested == effect is CloseTabRequested,
        effect matches QuickLaunchEffect::OpenWizardCreateTab { parent_path } ==> effect@
            == EffectModel::OpenWizardCreateTab(texts(parent_path@)),
        effect matches QuickLaunchEffect::OpenWizardEditTab { path, command } ==> effect@
            == EffectModel::OpenWizardEditTab(texts(path@), (*command)@),
        effect matches QuickLaunchEffect::OpenCommandTerminalTab { title, settings, command }
            ==> effect@ == EffectModel::OpenCommandTerminalTab(title@, settings@, (*command)@),
        effect matches QuickLaunchEffect::OpenErrorTab { title, message } ==> effect@
            == EffectModel::OpenErrorTab(title@, message@),
        effect matches QuickLaunchEffect::CloseTabRequested { tab_id } ==> effect@
            == EffectModel::CloseTabRequested(tab_id),
{
}

/// The work of the quick launch is known by its kind and its parts.
pub proof fn launch_work_is_told_apart(task: QuickLaunchTask)
    ensures
        task@ is Idle == task is Idle,
        task@ is Effect == task is Effect,
        task@ is Focus == task is Focus,
        task@ is Persist == task is Persist,
        task@ is Launch == task is Launch,
        task@ is Cancel == task is Cancel,
        task matches QuickLaunchTask::Effect(effect) ==> task@ == TaskModel::Effect(effect@),
        task matches QuickLaunchTask::Focus { id } ==> task@ == TaskModel::Focus(id),
        task matches QuickLaunchTask::Persist { data } ==> task@ == TaskModel::Persist(data@),
        task matches QuickLaunchTask::Launch { command, path, launch_id, settings, cancel }
            ==> task@ == TaskModel::Launch(
            command@,
            texts(path@),
            launch_id,
            settings@,
            cancel,
        ),
        task matches QuickLaunchTask::Cancel { token } ==> task@ == TaskModel::Cancel(token),
{
}

/// A saved command keeps its title and what it runs.
pub proof fn commands_keep_their_parts(
    command: QuickLaunch,
    custom: CustomCommand,
    ssh: SshCommand,
    vars: Seq<EnvVar>,
    spec: CommandSpec,
)
    ensures
        command@.title == command.title@,
        command@.spec == command.spec@,
        spec matches CommandSpec::Custom { custom } ==> spec@ == SpecModel::Custom(custom@),
        spec matches CommandSpec::Ssh { ssh } ==> spec@ == SpecModel::Ssh(ssh@),
        custom@.program == custom.program@,
        custom@.args == texts(custom.args@),
        custom@.env == env_models(custom.env@),
        custom@.working_directory == text_opt(custom.working_directory),
        ssh@.host == ssh.host@,
        ssh@.port == ssh.port,
        ssh@.user == text_opt(ssh.user),
        ssh@.identity_file == text_opt(ssh.identity_file),
        ssh@.extra_args == texts(ssh.extra_args@),
        env_models(vars).len() == vars.len(),
        forall|i: int|
            0 <= i < vars.len() ==> (#[trigger] env_models(vars)[i]).key == vars[i].key@
                && env_models(vars)[i].value == vars[i].value@,
{
}

/// A tree and its model have the same entries in the same order.
pub proof fn trees_keep_their_entries(
    file: QuickLaunchFile,
    folder: QuickLaunchFolder,
    node: QuickLaunchNode,
)
    ensures
        file@ == file.root@,
        folder@.title == folder.title@,
        folder@.expanded == folder.expanded,
        folder@.children.len() == folder.children@.len(),
        forall|i: int|
            0 <= i < folder.children@.len() ==> #[trigger] folder@.children[i]
                == folder.children@[i]@,
        node matches QuickLaunchNode::Folder(inner) ==> node@ == NodeModel::Folder(inner@),
        node matches QuickLaunchNode::Command(command) ==> node@ == NodeModel::Command(command@),
{
}

/// What the tree's widget is busy with is known by its kind and its path.
pub proof fn targets_are_told_apart(
    menu: ContextMenuTarget,
    drop: DropTarget,
    kind: InlineEditKind,
    edit: InlineEditState,
    drag: DragState,
)
    ensures
        menu is Background == menu@ is Background,
        menu matches ContextMenuTarget::Folder(path) ==> menu@ == MenuTarget::Folder(texts(path@)),
        menu matches ContextMenuTarget::Command(path) ==> menu@ == MenuTarget::Command(
            texts(path@),
        ),
        drop is Root == drop@ is Root,
        drop matches DropTarget::Folder(path) ==> drop@ == DropModel::Folder(texts(path@)),
        kind matches InlineEditKind::CreateFolder { parent_path } ==> kind@
            == EditKindModel::CreateFolder(texts(parent_path@)),
        kind matches InlineEditKind::Rename { path } ==> kind@ == EditKindModel::Rename(
            texts(path@),
        ),
        edit@.kind == edit.kind@,
        edit@.value == edit.value@,
        edit@.error == text_opt(edit.error),
        edit@.id == edit.id,
        drag@.source == texts(drag.source@),
        drag@.origin == drag.origin,
        drag@.active == drag.active,
{
}

/// An editor is known by whether it makes a command or changes one, and by the
/// kind of command.
pub proof fn editors_are_told_apart(mode: WizardMode, options: WizardOptions)
    ensures
        mode matches WizardMode::Create { parent_path } ==> mode@ == ModeModel::Create(
            texts(parent_path@),
        ),
        mode matches WizardMode::Edit { path } ==> mode@ == ModeModel::Edit(texts(path@)),
        options matches WizardOptions::Custom(custom) ==> options@ == DraftModel::Custom(custom@),
        options matches WizardOptions::Ssh(ssh) ==> options@ == DraftModel::Ssh(ssh@),
{
}

/// What the machine says of itself, and of its user, is kept part by part.
pub proof fn machine_is_kept(host: LaunchHost, defaults: SshDefaults)
    ensures
        host@.platform == host.platform,
        host@.home == text_opt(host.home),
        host@.search_path == texts(host.search_path@),
        host@.extensions == texts(host.extensions@),
        defaults@.user == text_opt(defaults.user),
        defaults@.username == text_opt(defaults.username),
        defaults@.identity_file == text_opt(defaults.identity_file),
{
}

/// The settings of a terminal keep its look and its session.
pub proof fn terminal_settings_keep_their_parts(settings: Settings, session: SessionKind)
    ensures
        settings@.appearance == settings.appearance,
        settings@.session == settings.session@,
        session matches SessionKind::Local(options) ==> session@ == SessionModel::Local(options@),
        session matches SessionKind::Ssh(options) ==> session@ == SessionModel::Ssh(options@),
{
}

} // verus!
