//! The effect of every event on the state of the quick launch widget.

use std::sync::atomic::AtomicBool;
use std::sync::Arc;

use vstd::prelude::*;

use crate::quick_launch::errors::{error_text, wizard_error_text, QuickLaunchError};
use crate::quick_launch::event::{
    ContextMenuAction, EffectModel, QuickLaunchCtx, QuickLaunchIntent,
    QuickLaunchWizardSaveRequest, QuickLaunchWizardSaveTarget, TaskModel,
};
use crate::quick_launch::launches::{
    launches_moved, launches_ticked, launches_without_id, LaunchInfo,
};
use crate::quick_launch::services::command_of;
use crate::quick_launch::setup::QuickLaunchSetupOutcome;
use crate::quick_launch::state::{
    cancel_token_at, launch_begun, launch_canceled, next_nonce, without_first, DragModel, DropModel,
    EditKindModel, EditModel, ErrorTabModel, MenuModel, MenuTarget, StateModel,
};
use crate::quick_launch::tree::{
    folder_at, has_title, node_at, title_for, with_node, FolderModel, NodeModel, TitleProblem,
};
use crate::quick_launch::tree_laws::{with_node_in, without_node};
use crate::quick_launch::types::{
    removed_at, updated_at, CustomDraft, LaunchModel, QuickLaunchType, SshDraft,
};
use crate::quick_launch::wizard::{
    create_editor, edit_editor, empty_draft, DraftModel, EditorModel, ModeModel,
};
use crate::text::{decimal_text, texts};

verus! {

/// A change to one field of an editor.
#[derive(Debug)]
pub enum WizardFieldEdit {
    Title(String),
    Program(String),
    Host(String),
    User(String),
    Port(String),
    IdentityFile(String),
    WorkingDirectory(String),
    AddArg,
    RemoveArg(usize),
    UpdateArg(usize, String),
    AddEnv,
    RemoveEnv(usize),
    UpdateEnvKey(usize, String),
    UpdateEnvValue(usize, String),
    AddExtraArg,
    RemoveExtraArg(usize),
    UpdateExtraArg(usize, String),
}

/// The draft after a change to one of its fields. A field that the kind of
/// command does not have, or an item that is not there, stays as it is.
pub open spec fn draft_edited(draft: DraftModel, edit: WizardFieldEdit) -> DraftModel {
    match edit {
        WizardFieldEdit::Title(_) => draft,
        WizardFieldEdit::Program(value) => draft.map_custom(
            |d: CustomDraft| CustomDraft { program: value@, ..d },
        ),
        WizardFieldEdit::Host(value) => draft.map_ssh(|d: SshDraft| SshDraft { host: value@, ..d }),
        WizardFieldEdit::User(value) => draft.map_ssh(|d: SshDraft| SshDraft { user: value@, ..d }),
        WizardFieldEdit::Port(value) => draft.map_ssh(|d: SshDraft| SshDraft { port: value@, ..d }),
        WizardFieldEdit::IdentityFile(value) => draft.map_ssh(
            |d: SshDraft| SshDraft { identity_file: value@, ..d },
        ),
        WizardFieldEdit::WorkingDirectory(value) => draft.map_custom(
            |d: CustomDraft| CustomDraft { working_directory: value@, ..d },
        ),
        WizardFieldEdit::AddArg => draft.map_custom(
            |d: CustomDraft| CustomDraft { args: d.args.push(Seq::empty()), ..d },
        ),
        WizardFieldEdit::RemoveArg(index) => draft.map_custom(
            |d: CustomDraft| CustomDraft { args: removed_at(d.args, index as nat), ..d },
        ),
        WizardFieldEdit::UpdateArg(index, value) => draft.map_custom(
            |d: CustomDraft| CustomDraft { args: updated_at(d.args, index as nat, value@), ..d },
        ),
        WizardFieldEdit::AddEnv => draft.map_custom(
            |d: CustomDraft|
                CustomDraft { env: d.env.push((Seq::empty(), Seq::empty())), ..d },
        ),
        WizardFieldEdit::RemoveEnv(index) => draft.map_custom(
            |d: CustomDraft| CustomDraft { env: removed_at(d.env, index as nat), ..d },
        ),
        WizardFieldEdit::UpdateEnvKey(index, value) => draft.map_custom(
            |d: CustomDraft|
                CustomDraft {
                    env: updated_at(d.env, index as nat, (value@, d.env[index as int].1)),
                    ..d
                },
        ),
        WizardFieldEdit::UpdateEnvValue(index, value) => draft.map_custom(
            |d: CustomDraft|
                CustomDraft {
                    env: updated_at(d.env, index as nat, (d.env[index as int].0, value@)),
                    ..d
                },
        ),
        WizardFieldEdit::AddExtraArg => draft.map_ssh(
            |d: SshDraft| SshDraft { extra_args: d.extra_args.push(Seq::empty()), ..d },
        ),
        WizardFieldEdit::RemoveExtraArg(index) => draft.map_ssh(
            |d: SshDraft| SshDraft { extra_args: removed_at(d.extra_args, index as nat), ..d },
        ),
        WizardFieldEdit::UpdateExtraArg(index, value) => draft.map_ssh(
            |d: SshDraft|
                SshDraft { extra_args: updated_at(d.extra_args, index as nat, value@), ..d },
        ),
    }
}

/// The editor after a change to one of its fields; its error is gone.
pub open spec fn editor_edited(editor: EditorModel, edit: WizardFieldEdit) -> EditorModel {
    EditorModel {
        title: match edit {
            WizardFieldEdit::Title(value) => value@,
            _ => editor.title,
        },
        options: draft_edited(editor.options, edit),
        error: None,
        ..editor
    }
}

/// The state after a change to a field of the editor of a tab.
pub open spec fn field_edited(state: StateModel, tab_id: u64, edit: WizardFieldEdit) -> StateModel {
    if state.wizard.contains_key(tab_id) {
        StateModel {
            wizard: state.wizard.insert(tab_id, editor_edited(state.wizard[tab_id], edit)),
            ..state
        }
    } else {
        state
    }
}

/// The state in which the editor of a tab, if any, shows an error.
pub open spec fn with_wizard_error(state: StateModel, tab_id: u64, message: Seq<char>) -> StateModel {
    if state.wizard.contains_key(tab_id) {
        StateModel {
            wizard: state.wizard.insert(
                tab_id,
                EditorModel { error: Some(message), ..state.wizard[tab_id] },
            ),
            ..state
        }
    } else {
        state
    }
}

/// The state in which the editor of a tab is for another kind of command. An
/// editor for an existing command keeps its kind.
pub open spec fn command_type_selected(
    state: StateModel,
    tab_id: u64,
    command_type: QuickLaunchType,
) -> StateModel {
    if state.wizard.contains_key(tab_id) && state.wizard[tab_id].mode is Create
        && state.wizard[tab_id].options.command_type() != command_type {
        StateModel {
            wizard: state.wizard.insert(
                tab_id,
                EditorModel { options: empty_draft(command_type), ..state.wizard[tab_id] },
            ),
            ..state
        }
    } else {
        state
    }
}

/// The text of a problem with a title.
pub open spec fn title_problem_text(problem: TitleProblem) -> Seq<char> {
    match problem {
        TitleProblem::Empty => error_text(QuickLaunchError::TitleEmpty),
        TitleProblem::Duplicate => error_text(QuickLaunchError::TitleDuplicate),
    }
}

/// The folder in which a new entry is created: the selected one, or the one
/// that holds the selected command, else the root.
pub open spec fn selected_parent(state: StateModel) -> Seq<Seq<char>> {
    match state.selected_path {
        None => Seq::empty(),
        Some(path) => match node_at(state.data, path) {
            None => Seq::empty(),
            Some(NodeModel::Folder(_)) => path,
            Some(NodeModel::Command(_)) => path.drop_last(),
        },
    }
}

/// The tree in which the folder at `path`, if any, is open.
pub open spec fn tree_opened(data: FolderModel, path: Seq<Seq<char>>) -> FolderModel {
    match node_at(data, path) {
        Some(NodeModel::Folder(folder)) => with_node(
            data,
            path,
            NodeModel::Folder(FolderModel { expanded: true, ..folder }),
        ),
        _ => data,
    }
}

/// The tree in which the folder at `path`, if any, is open where it was closed
/// and closed where it was open.
pub open spec fn tree_toggled(data: FolderModel, path: Seq<Seq<char>>) -> FolderModel {
    match node_at(data, path) {
        Some(NodeModel::Folder(folder)) => with_node(
            data,
            path,
            NodeModel::Folder(FolderModel { expanded: !folder.expanded, ..folder }),
        ),
        _ => data,
    }
}

/// The state in which the title of a new folder is being typed.
pub open spec fn create_folder_begun(
    state: StateModel,
    parent: Seq<Seq<char>>,
    id: u64,
) -> StateModel {
    StateModel {
        data: tree_opened(state.data, parent),
        inline_edit: Some(
            EditModel {
                kind: EditKindModel::CreateFolder(parent),
                value: Seq::empty(),
                error: None,
                id,
            },
        ),
        context_menu: None,
        ..state
    }
}

/// The state in which the title of an entry is being changed.
pub open spec fn rename_begun(state: StateModel, path: Seq<Seq<char>>, id: u64) -> StateModel {
    match node_at(state.data, path) {
        Some(node) => StateModel {
            inline_edit: Some(
                EditModel {
                    kind: EditKindModel::Rename(path),
                    value: node.title(),
                    error: None,
                    id,
                },
            ),
            ..state
        },
        None => state,
    }
}

/// The focus goes to the field of the inline edit, if there is one.
pub open spec fn focus_task(state: StateModel) -> TaskModel {
    match state.inline_edit {
        Some(edit) => TaskModel::Focus(edit.id),
        None => TaskModel::Idle,
    }
}

/// A folder without entries, open.
pub open spec fn new_folder(title: Seq<char>) -> NodeModel {
    NodeModel::Folder(FolderModel { title, expanded: true, children: Seq::empty() })
}

/// The state after the title of a new folder was submitted.
pub open spec fn folder_submitted(
    state: StateModel,
    edit: EditModel,
    parent: Seq<Seq<char>>,
) -> StateModel {
    let closed = StateModel { inline_edit: None, ..state };
    match folder_at(state.data, parent) {
        None => closed,
        Some(folder) => match title_for(folder.children, edit.value, None) {
            Ok(title) => StateModel {
                data: with_node_in(state.data, parent, new_folder(title)),
                dirty: true,
                ..closed
            },
            Err(problem) => StateModel {
                inline_edit: Some(EditModel { error: Some(title_problem_text(problem)), ..edit }),
                ..state
            },
        },
    }
}

/// The tree in which the entry at `path`, if any, has another title.
pub open spec fn tree_renamed(
    data: FolderModel,
    path: Seq<Seq<char>>,
    title: Seq<char>,
) -> FolderModel {
    match node_at(data, path) {
        Some(node) => with_node(data, path, node.with_title(title)),
        None => data,
    }
}

/// The state after the new title of an entry was submitted.
pub open spec fn rename_submitted(
    state: StateModel,
    edit: EditModel,
    path: Seq<Seq<char>>,
) -> StateModel {
    let closed = StateModel { inline_edit: None, ..state };
    if path.len() == 0 {
        closed
    } else {
        match folder_at(state.data, path.drop_last()) {
            None => closed,
            Some(parent) => match title_for(parent.children, edit.value, Some(path.last())) {
                Ok(title) => {
                    let renamed = path.drop_last().push(title);
                    StateModel {
                        data: tree_renamed(state.data, path, title),
                        launching: launches_moved(state.launching, path, renamed),
                        selected_path: if state.selected_path == Some(path) {
                            Some(renamed)
                        } else {
                            state.selected_path
                        },
                        dirty: true,
                        ..closed
                    }
                },
                Err(problem) => StateModel {
                    inline_edit: Some(
                        EditModel { error: Some(title_problem_text(problem)), ..edit },
                    ),
                    ..state
                },
            },
        }
    }
}

/// The state after the inline edit was submitted.
pub open spec fn inline_edit_submitted(state: StateModel) -> StateModel {
    match state.inline_edit {
        None => state,
        Some(edit) => match edit.kind {
            EditKindModel::CreateFolder(parent) => folder_submitted(state, edit, parent),
            EditKindModel::Rename(path) => rename_submitted(state, edit, path),
        },
    }
}

/// The state after a command was stored, and the request to close its tab; or
/// the state in which the editor says why it could not be stored.
pub open spec fn command_created(
    state: StateModel,
    tab_id: u64,
    parent: Seq<Seq<char>>,
    command: LaunchModel,
) -> (StateModel, TaskModel) {
    match folder_at(state.data, parent) {
        None => (with_wizard_error(state, tab_id, "Missing target folder."@), TaskModel::Idle),
        Some(folder) => match title_for(folder.children, command.title, None) {
            Err(problem) => (
                with_wizard_error(state, tab_id, title_problem_text(problem)),
                TaskModel::Idle,
            ),
            Ok(title) => (
                StateModel {
                    data: with_node_in(
                        state.data,
                        parent,
                        NodeModel::Command(LaunchModel { title, ..command }),
                    ),
                    dirty: true,
                    ..state
                },
                TaskModel::Effect(EffectModel::CloseTabRequested(tab_id)),
            ),
        },
    }
}

/// The state after a command was replaced, and the request to close its tab;
/// or the state in which the editor says why it could not be replaced.
pub open spec fn command_replaced(
    state: StateModel,
    tab_id: u64,
    path: Seq<Seq<char>>,
    command: LaunchModel,
) -> (StateModel, TaskModel) {
    if path.len() == 0 || folder_at(state.data, path.drop_last()) is None {
        (with_wizard_error(state, tab_id, "Missing parent folder."@), TaskModel::Idle)
    } else {
        let parent = folder_at(state.data, path.drop_last())->0;
        match title_for(parent.children, command.title, Some(path.last())) {
            Err(problem) => (
                with_wizard_error(state, tab_id, title_problem_text(problem)),
                TaskModel::Idle,
            ),
            Ok(_) => if node_at(state.data, path) is None {
                (with_wizard_error(state, tab_id, "Command no longer exists."@), TaskModel::Idle)
            } else {
                (
                    StateModel {
                        data: with_node(state.data, path, NodeModel::Command(command)),
                        dirty: true,
                        ..state
                    },
                    TaskModel::Effect(EffectModel::CloseTabRequested(tab_id)),
                )
            },
        }
    }
}

/// The effect of a request to store a command.
pub open spec fn save_requested(state: StateModel, request: QuickLaunchWizardSaveRequest) -> (
    StateModel,
    TaskModel,
) {
    match request.target {
        QuickLaunchWizardSaveTarget::Create { parent_path } => command_created(
            state,
            request.tab_id,
            texts(parent_path@),
            request.command@,
        ),
        QuickLaunchWizardSaveTarget::Edit { path } => command_replaced(
            state,
            request.tab_id,
            texts(path@),
            request.command@,
        ),
    }
}

/// The effect of the save button of an editor.
pub open spec fn wizard_saved(state: StateModel, tab_id: u64) -> (StateModel, TaskModel) {
    if state.wizard.contains_key(tab_id) {
        let editor = state.wizard[tab_id];
        match command_of(editor) {
            Ok(command) => match editor.mode {
                ModeModel::Create(parent) => command_created(state, tab_id, parent, command),
                ModeModel::Edit(path) => command_replaced(state, tab_id, path, command),
            },
            Err(error) => (
                with_wizard_error(state, tab_id, wizard_error_text(error)),
                TaskModel::Idle,
            ),
        }
    } else {
        (state, TaskModel::Idle)
    }
}

/// Where the dragged entry would be dropped: in the folder under the cursor,
/// or in the one that holds the command under the cursor, else in the root.
pub open spec fn hover_target(state: StateModel) -> DropModel {
    match state.hovered_path {
        None => DropModel::Root,
        Some(path) => match node_at(state.data, path) {
            None => DropModel::Root,
            Some(NodeModel::Folder(_)) => DropModel::Folder(path),
            Some(NodeModel::Command(_)) => if path.len() <= 1 {
                DropModel::Root
            } else {
                DropModel::Folder(path.drop_last())
            },
        },
    }
}

/// Whether the entry at `source` may be dropped at `target`: not a folder in
/// itself or below itself.
pub open spec fn droppable(
    data: FolderModel,
    source: Seq<Seq<char>>,
    target: Seq<Seq<char>>,
) -> bool {
    match node_at(data, source) {
        None => false,
        Some(NodeModel::Folder(_)) => !source.is_prefix_of(target),
        Some(NodeModel::Command(_)) => true,
    }
}

/// The state in which the drop target follows the cursor.
pub open spec fn drop_target_updated(state: StateModel, source: Seq<Seq<char>>) -> StateModel {
    StateModel {
        drop_target: if droppable(state.data, source, hover_target(state).path()) {
            Some(hover_target(state))
        } else {
            None
        },
        ..state
    }
}

/// The state after the cursor has moved during a drag.
pub open spec fn drag_updated(state: StateModel, past_threshold: bool) -> StateModel {
    match state.drag {
        None => state,
        Some(drag) => {
            let active = drag.active || past_threshold;
            let dragged = StateModel { drag: Some(DragModel { active, ..drag }), ..state };
            if active {
                drop_target_updated(dragged, drag.source)
            } else {
                dragged
            }
        },
    }
}

/// The state after the cursor has entered an entry during a drag.
pub open spec fn hover_dragged(state: StateModel) -> StateModel {
    match state.drag {
        None => state,
        Some(drag) => if drag.active {
            drop_target_updated(state, drag.source)
        } else {
            state
        },
    }
}

/// Whether the entry at `source` can be moved into the folder at `target`: it
/// is there and not in that folder already, it is not moved into itself, and
/// the folder is there and has no entry of its title.
pub open spec fn movable(data: FolderModel, source: Seq<Seq<char>>, target: Seq<Seq<char>>) -> bool {
    &&& node_at(data, source) is Some
    &&& source.drop_last() != target
    &&& !(node_at(data, source)->0 is Folder && source.is_prefix_of(target))
    &&& folder_at(data, target) is Some
    &&& !has_title(folder_at(data, target)->0.children, source.last())
}

/// The tree in which the entry at `source` has gone into the folder at
/// `target`.
pub open spec fn tree_moved(
    data: FolderModel,
    source: Seq<Seq<char>>,
    target: Seq<Seq<char>>,
) -> FolderModel {
    with_node_in(without_node(data, source), target, node_at(data, source)->0)
}

/// The state after the entry at `source` was dropped at `target`. Its launches
/// and the selection follow it.
pub open spec fn node_moved(
    state: StateModel,
    source: Seq<Seq<char>>,
    target: Seq<Seq<char>>,
) -> StateModel {
    if movable(state.data, source, target) {
        let new_path = target.push(source.last());
        StateModel {
            data: tree_moved(state.data, source, target),
            launching: launches_moved(state.launching, source, new_path),
            selected_path: Some(new_path),
            dirty: true,
            ..state
        }
    } else {
        state
    }
}

/// The state after the button was released during a drag, and whether that
/// ended a drag under way.
pub open spec fn drag_finished(state: StateModel) -> (StateModel, bool) {
    match state.drag {
        None => (state, false),
        Some(drag) => if !drag.active {
            (StateModel { drag: None, drop_target: None, ..state }, false)
        } else {
            match state.drop_target {
                None => (StateModel { drag: None, ..state }, true),
                Some(target) => (
                    node_moved(
                        StateModel { drag: None, drop_target: None, pressed_path: None, ..state },
                        drag.source,
                        target.path(),
                    ),
                    true,
                ),
            }
        },
    }
}

/// The state after the entry at `path` was removed.
pub open spec fn node_removed(state: StateModel, path: Seq<Seq<char>>) -> StateModel {
    if path.len() == 0 || folder_at(state.data, path.drop_last()) is None {
        state
    } else {
        StateModel { data: without_node(state.data, path), dirty: true, ..state }
    }
}

/// The title of a copy.
pub open spec fn copy_title(title: Seq<char>) -> Seq<char> {
    title + " copy"@
}

/// The title of a further copy.
pub open spec fn numbered_copy_title(title: Seq<char>, n: nat) -> Seq<char> {
    title + " copy ("@ + decimal_text(n) + ")"@
}

/// Whether `n` is the least number whose title is free.
pub open spec fn is_first_free(children: Seq<NodeModel>, title: Seq<char>, n: nat) -> bool {
    &&& !has_title(children, numbered_copy_title(title, n))
    &&& forall|m: nat| m < n ==> has_title(children, #[trigger] numbered_copy_title(title, m))
}

/// The title that a copy gets among `children`: the plain one where it is
/// free, else the one with the least number whose title is free.
pub open spec fn duplicate_title_of(children: Seq<NodeModel>, title: Seq<char>) -> Seq<char> {
    if !has_title(children, copy_title(title)) {
        copy_title(title)
    } else {
        numbered_copy_title(title, choose|n: nat| is_first_free(children, title, n))
    }
}

/// The state after the command at `path`, if any, was duplicated.
pub open spec fn command_duplicated(state: StateModel, path: Seq<Seq<char>>) -> StateModel {
    match node_at(state.data, path) {
        Some(NodeModel::Command(command)) => {
            let parent = folder_at(state.data, path.drop_last())->0;
            let title = duplicate_title_of(parent.children, command.title);
            StateModel {
                data: with_node_in(
                    state.data,
                    path.drop_last(),
                    NodeModel::Command(LaunchModel { title, ..command }),
                ),
                dirty: true,
                ..state
            }
        },
        _ => state,
    }
}

/// The effect of launching the command at `path`; nothing where it is being
/// launched already.
pub open spec fn launched(
    state: StateModel,
    path: Seq<Seq<char>>,
    command: LaunchModel,
    ctx: QuickLaunchCtx,
    token: Arc<AtomicBool>,
) -> (StateModel, TaskModel) {
    if state.launching.contains_key(path) {
        (state, TaskModel::Idle)
    } else {
        (
            launch_begun(state, path, token),
            TaskModel::Launch(
                command,
                path,
                state.next_launch_id,
                ctx.terminal_settings@,
                token,
            ),
        )
    }
}

/// The effect of a click on the entry at `path`: a folder opens or closes, a
/// command is launched. An entry that is being renamed ignores it.
pub open spec fn node_clicked(
    state: StateModel,
    path: Seq<Seq<char>>,
    ctx: QuickLaunchCtx,
    token: Arc<AtomicBool>,
) -> (StateModel, TaskModel) {
    match node_at(state.data, path) {
        None => (state, TaskModel::Idle),
        Some(node) => if state.inline_edit is Some && state.inline_edit->0.kind
            == EditKindModel::Rename(path) {
            (state, TaskModel::Idle)
        } else {
            let selected = StateModel {
                inline_edit: None,
                context_menu: None,
                selected_path: Some(path),
                ..state
            };
            match node {
                NodeModel::Folder(_) => (
                    StateModel {
                        data: tree_toggled(state.data, path),
                        dirty: true,
                        ..selected
                    },
                    TaskModel::Idle,
                ),
                NodeModel::Command(command) => launched(selected, path, command, ctx, token),
            }
        },
    }
}

/// The effect of the release of the button over the entry at `path`.
pub open spec fn node_released(
    state: StateModel,
    path: Seq<Seq<char>>,
    ctx: QuickLaunchCtx,
    token: Arc<AtomicBool>,
) -> (StateModel, TaskModel) {
    let (after, was_drag) = drag_finished(state);
    if was_drag {
        (after, TaskModel::Idle)
    } else {
        let released = StateModel { pressed_path: None, ..after };
        if after.pressed_path == Some(path) {
            node_clicked(released, path, ctx, token)
        } else {
            (released, TaskModel::Idle)
        }
    }
}

/// The folder in which a context menu creates an entry.
pub open spec fn menu_parent(target: MenuTarget) -> Seq<Seq<char>> {
    match target {
        MenuTarget::Background => Seq::empty(),
        MenuTarget::Folder(path) => path,
        MenuTarget::Command(path) => if path.len() == 0 {
            path
        } else {
            path.drop_last()
        },
    }
}

/// The effect of an entry of the context menu, which closes it.
pub open spec fn menu_chosen(state: StateModel, action: ContextMenuAction, ctx: QuickLaunchCtx) -> (
    StateModel,
    TaskModel,
) {
    match state.context_menu {
        None => (state, TaskModel::Idle),
        Some(menu) => {
            let closed = StateModel { context_menu: None, ..state };
            match action {
                ContextMenuAction::Edit => match menu.target {
                    MenuTarget::Command(path) => match node_at(state.data, path) {
                        Some(NodeModel::Command(command)) => (
                            closed,
                            TaskModel::Effect(EffectModel::OpenWizardEditTab(path, command)),
                        ),
                        _ => (closed, TaskModel::Idle),
                    },
                    _ => (closed, TaskModel::Idle),
                },
                ContextMenuAction::Rename => match menu.target {
                    MenuTarget::Background => (closed, TaskModel::Idle),
                    MenuTarget::Folder(path) => {
                        let after = rename_begun(closed, path, ctx.fresh_widget_id);
                        (after, focus_task(after))
                    },
                    MenuTarget::Command(path) => {
                        let after = rename_begun(closed, path, ctx.fresh_widget_id);
                        (after, focus_task(after))
                    },
                },
                ContextMenuAction::Duplicate => match menu.target {
                    MenuTarget::Command(path) => (
                        command_duplicated(closed, path),
                        TaskModel::Idle,
                    ),
                    _ => (closed, TaskModel::Idle),
                },
                ContextMenuAction::Remove => match menu.target {
                    MenuTarget::Command(path) => (node_removed(closed, path), TaskModel::Idle),
                    _ => (closed, TaskModel::Idle),
                },
                ContextMenuAction::Delete => match menu.target {
                    MenuTarget::Folder(path) => (node_removed(closed, path), TaskModel::Idle),
                    _ => (closed, TaskModel::Idle),
                },
                ContextMenuAction::CreateFolder => {
                    let after = create_folder_begun(
                        closed,
                        menu_parent(menu.target),
                        ctx.fresh_widget_id,
                    );
                    (after, focus_task(after))
                },
                ContextMenuAction::CreateCommand => (
                    closed,
                    TaskModel::Effect(EffectModel::OpenWizardCreateTab(menu_parent(menu.target))),
                ),
                ContextMenuAction::Kill => match menu.target {
                    MenuTarget::Command(path) => (
                        launch_canceled(closed, path),
                        match cancel_token_at(closed, path) {
                            Some(token) => TaskModel::Cancel(token),
                            None => TaskModel::Idle,
                        },
                    ),
                    _ => (closed, TaskModel::Idle),
                },
            }
        },
    }
}

/// What the report on a launch does to the launches, and whether the report is
/// to be passed over: that of a canceled launch, and that of a launch in whose
/// place another one has begun.
pub open spec fn launch_reported(state: StateModel, path: Seq<Seq<char>>, launch_id: u64) -> (
    StateModel,
    bool,
) {
    if state.canceled_launches.contains(launch_id) {
        (
            StateModel {
                canceled_launches: without_first(state.canceled_launches, launch_id),
                launching: launches_without_id(state.launching, launch_id),
                ..state
            },
            true,
        )
    } else if state.launching.contains_key(path) && state.launching[path].id != launch_id {
        (state, true)
    } else {
        (
            StateModel { launching: launches_without_id(state.launching, launch_id), ..state },
            false,
        )
    }
}

/// The effect of the report on a launch: a terminal for one that is ready, an
/// error tab for one that failed.
pub open spec fn setup_completed(state: StateModel, outcome: QuickLaunchSetupOutcome) -> (
    StateModel,
    TaskModel,
) {
    match outcome {
        QuickLaunchSetupOutcome::Prepared(launch) => {
            let (after, skip) = launch_reported(state, texts(launch.path@), launch.launch_id);
            (
                after,
                if skip {
                    TaskModel::Idle
                } else {
                    TaskModel::Effect(
                        EffectModel::OpenCommandTerminalTab(
                            launch.title@,
                            launch.settings@,
                            (*launch.command)@,
                        ),
                    )
                },
            )
        },
        QuickLaunchSetupOutcome::Failed { path, launch_id, command, error } => {
            let (after, skip) = launch_reported(state, texts(path@), launch_id);
            (
                after,
                if skip {
                    TaskModel::Idle
                } else {
                    TaskModel::Effect(
                        EffectModel::OpenErrorTab(
                            "Failed to launch \""@ + (*command)@.title + "\""@,
                            error_text(error),
                        ),
                    )
                },
            )
        },
        QuickLaunchSetupOutcome::Canceled { path, launch_id } => (
            launch_reported(state, texts(path@), launch_id).0,
            TaskModel::Idle,
        ),
    }
}

/// The effect of a tick: the indicators of launches go on, and a changed tree
/// is stored unless it is being stored.
pub open spec fn ticked_state(state: StateModel) -> (StateModel, TaskModel) {
    let blinked = if state.launching == Map::<Seq<Seq<char>>, LaunchInfo>::empty() {
        state
    } else {
        StateModel {
            blink_nonce: next_nonce(state.blink_nonce),
            launching: launches_ticked(state.launching, next_nonce(state.blink_nonce)),
            ..state
        }
    };
    if blinked.dirty && !blinked.persist_in_flight {
        (StateModel { persist_in_flight: true, ..blinked }, TaskModel::Persist(blinked.data))
    } else {
        (blinked, TaskModel::Idle)
    }
}

/// The state in which a context menu is open on the entry at `path`.
pub open spec fn menu_opened_on(
    state: StateModel,
    path: Seq<Seq<char>>,
    ctx: QuickLaunchCtx,
) -> StateModel {
    match node_at(state.data, path) {
        None => state,
        Some(node) => StateModel {
            context_menu: Some(
                MenuModel {
                    target: match node {
                        NodeModel::Folder(_) => MenuTarget::Folder(path),
                        NodeModel::Command(_) => MenuTarget::Command(path),
                    },
                    cursor: ctx.sidebar_cursor,
                },
            ),
            selected_path: Some(path),
            ..state
        },
    }
}

/// The state after the selected folder, if any, was deleted. A selected
/// command stays.
pub open spec fn selected_deleted(state: StateModel) -> StateModel {
    match state.selected_path {
        None => state,
        Some(path) => match node_at(state.data, path) {
            Some(NodeModel::Folder(_)) => StateModel {
                selected_path: None,
                ..node_removed(state, path)
            },
            _ => state,
        },
    }
}

/// The state after an event, and the work that follows it. `token` is the
/// cancel token of a launch that the event begins.
pub open spec fn reduced(
    state: StateModel,
    event: QuickLaunchIntent,
    ctx: QuickLaunchCtx,
    token: Arc<AtomicBool>,
) -> (StateModel, TaskModel) {
    match event {
        QuickLaunchIntent::OpenErrorTab { tab_id, title, message } => (
            StateModel {
                error_tabs: state.error_tabs.insert(
                    tab_id,
                    ErrorTabModel { title: title@, message: message@ },
                ),
                ..state
            },
            TaskModel::Idle,
        ),
        QuickLaunchIntent::TabClosed { tab_id } => (
            StateModel {
                error_tabs: state.error_tabs.remove(tab_id),
                wizard: state.wizard.remove(tab_id),
                ..state
            },
            TaskModel::Idle,
        ),
        QuickLaunchIntent::CursorMoved { position, past_threshold } => (
            drag_updated(StateModel { cursor: position, ..state }, past_threshold),
            TaskModel::Idle,
        ),
        QuickLaunchIntent::NodeHovered { path } => (
            if ctx.sidebar_is_resizing {
                state
            } else {
                hover_dragged(StateModel { hovered_path: Some(texts(path@)), ..state })
            },
            TaskModel::Idle,
        ),
        QuickLaunchIntent::BackgroundPressed => (
            StateModel { context_menu: None, inline_edit: None, selected_path: None, ..state },
            TaskModel::Idle,
        ),
        QuickLaunchIntent::BackgroundReleased => {
            let aimed = if state.drag is Some && state.drag->0.active {
                StateModel { drop_target: Some(DropModel::Root), ..state }
            } else {
                state
            };
            let (after, was_drag) = drag_finished(aimed);
            (
                if was_drag {
                    after
                } else {
                    StateModel { pressed_path: None, ..after }
                },
                TaskModel::Idle,
            )
        },
        QuickLaunchIntent::BackgroundRightClicked => (
            StateModel {
                context_menu: Some(
                    MenuModel { target: MenuTarget::Background, cursor: ctx.sidebar_cursor },
                ),
                selected_path: None,
                ..state
            },
            TaskModel::Idle,
        ),
        QuickLaunchIntent::NodeRightClicked { path } => (
            menu_opened_on(state, texts(path@), ctx),
            TaskModel::Idle,
        ),
        QuickLaunchIntent::ContextMenuDismiss => (
            StateModel { context_menu: None, ..state },
            TaskModel::Idle,
        ),
        QuickLaunchIntent::CancelInlineEdit => (
            StateModel { inline_edit: None, ..state },
            TaskModel::Idle,
        ),
        QuickLaunchIntent::ResetInteractionState => (
            StateModel {
                hovered_path: None,
                pressed_path: None,
                drag: None,
                drop_target: None,
                ..state
            },
            TaskModel::Idle,
        ),
        QuickLaunchIntent::HeaderAddButtonPressed => (state, TaskModel::Idle),
        QuickLaunchIntent::HeaderCreateFolder => {
            let after = create_folder_begun(state, selected_parent(state), ctx.fresh_widget_id);
            (after, focus_task(after))
        },
        QuickLaunchIntent::HeaderCreateCommand => (
            state,
            TaskModel::Effect(EffectModel::OpenWizardCreateTab(selected_parent(state))),
        ),
        QuickLaunchIntent::DeleteSelected => (selected_deleted(state), TaskModel::Idle),
        QuickLaunchIntent::NodePressed { path } => (
            StateModel {
                pressed_path: Some(texts(path@)),
                selected_path: Some(texts(path@)),
                drag: Some(
                    DragModel { source: texts(path@), origin: state.cursor, active: false },
                ),
                ..state
            },
            TaskModel::Idle,
        ),
        QuickLaunchIntent::NodeReleased { path } => node_released(
            state,
            texts(path@),
            ctx,
            token,
        ),
        QuickLaunchIntent::InlineEditChanged(value) => (
            match state.inline_edit {
                Some(edit) => StateModel {
                    inline_edit: Some(EditModel { value: value@, error: None, ..edit }),
                    ..state
                },
                None => state,
            },
            TaskModel::Idle,
        ),
        QuickLaunchIntent::InlineEditSubmit => (inline_edit_submitted(state), TaskModel::Idle),
        QuickLaunchIntent::WizardSaveRequested(request) => save_requested(state, request),
        QuickLaunchIntent::ContextMenuAction(action) => menu_chosen(state, action, ctx),
        QuickLaunchIntent::SetupCompleted(outcome) => setup_completed(state, outcome),
        QuickLaunchIntent::PersistCompleted => (
            StateModel { persist_in_flight: false, dirty: false, ..state },
            TaskModel::Idle,
        ),
        QuickLaunchIntent::PersistFailed(_) => (
            StateModel { persist_in_flight: false, ..state },
            TaskModel::Idle,
        ),
        QuickLaunchIntent::Tick => ticked_state(state),
        QuickLaunchIntent::WizardInitializeCreate { tab_id, parent_path, command_type } => (
            StateModel {
                wizard: state.wizard.insert(
                    tab_id,
                    create_editor(texts(parent_path@), command_type),
                ),
                ..state
            },
            TaskModel::Idle,
        ),
        QuickLaunchIntent::WizardInitializeEdit { tab_id, path, command } => (
            StateModel {
                wizard: state.wizard.insert(tab_id, edit_editor(texts(path@), (*command)@)),
                ..state
            },
            TaskModel::Idle,
        ),
        QuickLaunchIntent::WizardCancel { tab_id } => (
            state,
            TaskModel::Effect(EffectModel::CloseTabRequested(tab_id)),
        ),
        QuickLaunchIntent::WizardSave { tab_id } => wizard_saved(state, tab_id),
        QuickLaunchIntent::WizardSetError { tab_id, message } => (
            with_wizard_error(state, tab_id, message@),
            TaskModel::Idle,
        ),
        QuickLaunchIntent::WizardUpdateTitle { tab_id, value } => (
            field_edited(state, tab_id, WizardFieldEdit::Title(value)),
            TaskModel::Idle,
        ),
        QuickLaunchIntent::WizardUpdateProgram { tab_id, value } => (
            field_edited(state, tab_id, WizardFieldEdit::Program(value)),
            TaskModel::Idle,
        ),
        QuickLaunchIntent::WizardUpdateHost { tab_id, value } => (
            field_edited(state, tab_id, WizardFieldEdit::Host(value)),
            TaskModel::Idle,
        ),
        QuickLaunchIntent::WizardUpdateUser { tab_id, value } => (
            field_edited(state, tab_id, WizardFieldEdit::User(value)),
            TaskModel::Idle,
        ),
        QuickLaunchIntent::WizardUpdatePort { tab_id, value } => (
            field_edited(state, tab_id, WizardFieldEdit::Port(value)),
            TaskModel::Idle,
        ),
        QuickLaunchIntent::WizardUpdateIdentityFile { tab_id, value } => (
            field_edited(state, tab_id, WizardFieldEdit::IdentityFile(value)),
            TaskModel::Idle,
        ),
        QuickLaunchIntent::WizardUpdateWorkingDirectory { tab_id, value } => (
            field_edited(state, tab_id, WizardFieldEdit::WorkingDirectory(value)),
            TaskModel::Idle,
        ),
        QuickLaunchIntent::WizardAddArg { tab_id } => (
            field_edited(state, tab_id, WizardFieldEdit::AddArg),
            TaskModel::Idle,
        ),
        QuickLaunchIntent::WizardRemoveArg { tab_id, index } => (
            field_edited(state, tab_id, WizardFieldEdit::RemoveArg(index)),
            TaskModel::Idle,
        ),
        QuickLaunchIntent::WizardUpdateArg { tab_id, index, value } => (
            field_edited(state, tab_id, WizardFieldEdit::UpdateArg(index, value)),
            TaskModel::Idle,
        ),
        QuickLaunchIntent::WizardAddEnv { tab_id } => (
            field_edited(state, tab_id, WizardFieldEdit::AddEnv),
            TaskModel::Idle,
        ),
        QuickLaunchIntent::WizardRemoveEnv { tab_id, index } => (
            field_edited(state, tab_id, WizardFieldEdit::RemoveEnv(index)),
            TaskModel::Idle,
        ),
        QuickLaunchIntent::WizardUpdateEnvKey { tab_id, index, value } => (
            field_edited(state, tab_id, WizardFieldEdit::UpdateEnvKey(index, value)),
            TaskModel::Idle,
        ),
        QuickLaunchIntent::WizardUpdateEnvValue { tab_id, index, value } => (
            field_edited(state, tab_id, WizardFieldEdit::UpdateEnvValue(index, value)),
            TaskModel::Idle,
        ),
        QuickLaunchIntent::WizardAddExtraArg { tab_id } => (
            field_edited(state, tab_id, WizardFieldEdit::AddExtraArg),
            TaskModel::Idle,
        ),
        QuickLaunchIntent::WizardRemoveExtraArg { tab_id, index } => (
            field_edited(state, tab_id, WizardFieldEdit::RemoveExtraArg(index)),
            TaskModel::Idle,
        ),
        QuickLaunchIntent::WizardUpdateExtraArg { tab_id, index, value } => (
            field_edited(state, tab_id, WizardFieldEdit::UpdateExtraArg(index, value)),
            TaskModel::Idle,
        ),
        QuickLaunchIntent::WizardSelectCommandType { tab_id, command_type } => (
            command_type_selected(state, tab_id, command_type),
            TaskModel::Idle,
        ),
    }
}

} // verus!
