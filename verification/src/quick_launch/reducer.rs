//! Reduces events of the quick launch widget into changes of its state and
//! work that follows.

use std::sync::atomic::AtomicBool;
use std::sync::Arc;

use vstd::prelude::*;
use vstd::string::StringExecFns;

use crate::quick_launch::errors::quick_launch_error_message;
use crate::quick_launch::event::{
    ContextMenuAction, EffectModel, QuickLaunchCtx, QuickLaunchEffect, QuickLaunchIntent,
    QuickLaunchTask, QuickLaunchWizardSaveRequest, QuickLaunchWizardSaveTarget, TaskModel,
};
use crate::quick_launch::launches::{is_prefix, same_path, share_token};
use crate::quick_launch::reducer_laws::{
    absent_is_kept, command_is_no_folder, taken_titles_are_bounded,
};
use crate::quick_launch::services::build_command;
use crate::quick_launch::setup::{PreparedQuickLaunch, QuickLaunchSetupOutcome};
use crate::quick_launch::state::{
    ContextMenuState, ContextMenuTarget, DragState, DropTarget, EditKindModel, EditModel,
    InlineEditKind, InlineEditState, QuickLaunchErrorState, QuickLaunchState, StateModel,
};
use crate::quick_launch::transitions::{
    copy_title, command_created, command_duplicated, command_type_selected, command_replaced,
    create_folder_begun, drag_finished, drag_updated, drop_target_updated, droppable,
    duplicate_title_of, editor_edited, field_edited, focus_task, folder_submitted, hover_dragged,
    hover_target, inline_edit_submitted, is_first_free, launch_reported, launched, menu_chosen,
    menu_opened_on, menu_parent, node_clicked, node_moved, node_released, node_removed,
    numbered_copy_title, reduced, rename_begun, rename_submitted, save_requested, selected_deleted,
    selected_parent, setup_completed, ticked_state, tree_toggled, wizard_saved, with_wizard_error,
    WizardFieldEdit,
};
use crate::quick_launch::tree::{
    child_position_is_first, folder_at, folder_value, has_title, node_at, with_folder_same,
    with_node_same, NodeModel, QuickLaunchFolder, QuickLaunchNode,
};
use crate::quick_launch::tree_laws::removal_keeps_folder;
use crate::quick_launch::types::{copy_strings, NodePath, QuickLaunch, QuickLaunchType};
use crate::quick_launch::wizard::{WizardEditorState, WizardMode};
use crate::text::{decimal, joined, push_text, texts};

verus! {

impl WizardFieldEdit {
    /// Change the field.
    pub fn apply(self, editor: &mut WizardEditorState)
        ensures
            final(editor)@ == editor_edited(old(editor)@, self),
    {
        match self {
            WizardFieldEdit::Title(value) => editor.set_title(value),
            WizardFieldEdit::Program(value) => editor.set_program(value),
            WizardFieldEdit::Host(value) => editor.set_host(value),
            WizardFieldEdit::User(value) => editor.set_user(value),
            WizardFieldEdit::Port(value) => editor.set_port(value),
            WizardFieldEdit::IdentityFile(value) => editor.set_identity_file(value),
            WizardFieldEdit::WorkingDirectory(value) => editor.set_working_directory(value),
            WizardFieldEdit::AddArg => editor.add_arg(),
            WizardFieldEdit::RemoveArg(index) => editor.remove_arg(index),
            WizardFieldEdit::UpdateArg(index, value) => editor.update_arg(index, value),
            WizardFieldEdit::AddEnv => editor.add_env(),
            WizardFieldEdit::RemoveEnv(index) => editor.remove_env(index),
            WizardFieldEdit::UpdateEnvKey(index, value) => editor.update_env_key(index, value),
            WizardFieldEdit::UpdateEnvValue(index, value) => editor.update_env_value(index, value),
            WizardFieldEdit::AddExtraArg => editor.add_extra_arg(),
            WizardFieldEdit::RemoveExtraArg(index) => editor.remove_extra_arg(index),
            WizardFieldEdit::UpdateExtraArg(index, value) => editor.update_extra_arg(index, value),
        }
        editor.clear_error();
    }
}

fn reduce_wizard_field(state: &mut QuickLaunchState, tab_id: u64, edit: WizardFieldEdit)
    ensures
        final(state)@ == field_edited(old(state)@, tab_id, edit),
        final(state).wf() == old(state).wf(),
{
    if let Some(editor) = state.wizard_mut().editor_mut(tab_id) {
        edit.apply(editor);
    }
}

fn set_wizard_error(state: &mut QuickLaunchState, tab_id: u64, message: &str)
    ensures
        final(state)@ == with_wizard_error(old(state)@, tab_id, message@),
        final(state).wf() == old(state).wf(),
{
    if let Some(editor) = state.wizard_mut().editor_mut(tab_id) {
        editor.set_error(message.to_string());
    }
}

fn parent_of(path: &NodePath) -> (parent: NodePath)
    ensures
        texts(parent@) == (if path@.len() == 0 {
            texts(path@)
        } else {
            texts(path@).drop_last()
        }),
{
    let mut parent = copy_strings(path);
    let ghost before = parent@;
    assert(before.len() == texts(before).len() && path@.len() == texts(path@).len());
    parent.pop();
    assert(before.len() > 0 ==> texts(parent@) =~= texts(before).drop_last());
    parent
}

fn selected_parent_path(state: &QuickLaunchState) -> (path: NodePath)
    ensures
        texts(path@) == selected_parent(state@),
{
    let root: NodePath = Vec::new();
    assert(texts(root@) =~= Seq::empty());
    let selected = match state.selected_path() {
        Some(selected) => selected,
        None => return root,
    };
    match state.data().node(selected.as_slice()) {
        Some(QuickLaunchNode::Folder(_)) => copy_strings(selected),
        Some(QuickLaunchNode::Command(_)) => parent_of(selected),
        None => root,
    }
}

fn focus_inline_edit(state: &QuickLaunchState) -> (task: QuickLaunchTask)
    ensures
        task@ == focus_task(state@),
{
    match state.inline_edit() {
        Some(edit) => QuickLaunchTask::Focus { id: edit.id },
        None => QuickLaunchTask::Idle,
    }
}

fn begin_inline_create_folder(state: &mut QuickLaunchState, parent_path: NodePath, id: u64)
    ensures
        final(state)@ == create_folder_begun(old(state)@, texts(parent_path@), id),
        final(state).wf() == old(state).wf(),
{
    proof {
        with_node_same(state@.data, texts(parent_path@));
    }
    if let Some(QuickLaunchNode::Folder(folder)) = state.data_mut().node_mut(
        parent_path.as_slice(),
    ) {
        folder.expanded = true;
    }
    let value = String::new();
    assert(value@ =~= Seq::empty());
    let edit = InlineEditState {
        kind: InlineEditKind::CreateFolder { parent_path },
        value,
        error: None,
        id,
    };
    state.set_inline_edit(Some(edit));
    state.clear_context_menu();
}

fn begin_inline_rename(state: &mut QuickLaunchState, path: NodePath, id: u64)
    ensures
        final(state)@ == rename_begun(old(state)@, texts(path@), id),
        final(state).wf() == old(state).wf(),
{
    let value = match state.data().node(path.as_slice()) {
        Some(node) => node.title().to_string(),
        None => return,
    };
    let edit = InlineEditState { kind: InlineEditKind::Rename { path }, value, error: None, id };
    state.set_inline_edit(Some(edit));
}

fn submit_new_folder(state: &mut QuickLaunchState, parent_path: NodePath, value: String, id: u64)
    requires
        old(state).wf(),
        old(state)@.inline_edit is None,
    ensures
        final(state).wf(),
        final(state)@ == folder_submitted(
            old(state)@,
            EditModel {
                kind: EditKindModel::CreateFolder(texts(parent_path@)),
                value: value@,
                error: None,
                id,
            },
            texts(parent_path@),
        ),
{
    proof {
        with_folder_same(state@.data, texts(parent_path@));
    }
    let parent = match state.data_mut().folder_mut(parent_path.as_slice()) {
        Some(parent) => parent,
        None => return,
    };
    match parent.normalize_title(value.as_str(), None) {
        Ok(title) => {
            let children: Vec<QuickLaunchNode> = Vec::new();
            let folder = QuickLaunchFolder { title, expanded: true, children };
            assert(folder@.children =~= Seq::empty());
            parent.push_child(QuickLaunchNode::Folder(folder));
            state.mark_dirty();
        },
        Err(error) => {
            let text = error.text();
            state.set_inline_edit(
                Some(
                    InlineEditState {
                        kind: InlineEditKind::CreateFolder { parent_path },
                        value,
                        error: Some(text),
                        id,
                    },
                ),
            );
        },
    }
}

fn renamed_path(path: &NodePath, title: &str) -> (renamed: NodePath)
    requires
        path@.len() > 0,
    ensures
        texts(renamed@) == texts(path@).drop_last().push(title@),
{
    let mut renamed = parent_of(path);
    push_text(&mut renamed, title.to_string());
    renamed
}

fn submit_rename(state: &mut QuickLaunchState, path: NodePath, value: String, id: u64)
    requires
        old(state).wf(),
        old(state)@.inline_edit is None,
    ensures
        final(state).wf(),
        final(state)@ == rename_submitted(
            old(state)@,
            EditModel {
                kind: EditKindModel::Rename(texts(path@)),
                value: value@,
                error: None,
                id,
            },
            texts(path@),
        ),
{
    let ghost before = state@;
    proof {
        with_folder_same(state@.data, texts(path@).drop_last());
    }
    let parent = match state.data_mut().parent_folder_mut(path.as_slice()) {
        Some(parent) => parent,
        None => return,
    };
    let current = path[path.len() - 1].as_str();
    let title = match parent.normalize_title(value.as_str(), Some(current)) {
        Ok(title) => title,
        Err(error) => {
            let text = error.text();
            state.set_inline_edit(
                Some(
                    InlineEditState {
                        kind: InlineEditKind::Rename { path },
                        value,
                        error: Some(text),
                        id,
                    },
                ),
            );
            return;
        },
    };
    assert(state@ == before);
    let renamed = renamed_path(&path, title.as_str());
    if let Some(node) = state.data_mut().node_mut(path.as_slice()) {
        *node.title_mut() = title;
    }
    state.relocate_launches(path.as_slice(), renamed.as_slice());
    let selected = match state.selected_path() {
        Some(selected) => same_path(selected.as_slice(), path.as_slice()),
        None => false,
    };
    if selected {
        state.set_selected_path(Some(renamed));
    }
    state.mark_dirty();
}

/// Submit the inline edit.
fn apply_inline_edit(state: &mut QuickLaunchState)
    requires
        old(state).wf(),
    ensures
        final(state).wf(),
        final(state)@ == inline_edit_submitted(old(state)@),
{
    let edit = match state.take_inline_edit() {
        Some(edit) => edit,
        None => return,
    };
    match edit.kind {
        InlineEditKind::CreateFolder { parent_path } => {
            submit_new_folder(state, parent_path, edit.value, edit.id)
        },
        InlineEditKind::Rename { path } => submit_rename(state, path, edit.value, edit.id),
    }
}

fn close_tab(tab_id: u64) -> (task: QuickLaunchTask)
    ensures
        task@ == TaskModel::Effect(EffectModel::CloseTabRequested(tab_id)),
{
    QuickLaunchTask::Effect(QuickLaunchEffect::CloseTabRequested { tab_id })
}

fn create_command(
    state: &mut QuickLaunchState,
    tab_id: u64,
    parent_path: &NodePath,
    command: QuickLaunch,
) -> (task: QuickLaunchTask)
    requires
        old(state).wf(),
    ensures
        final(state).wf(),
        (final(state)@, task@) == command_created(
            old(state)@,
            tab_id,
            texts(parent_path@),
            command@,
        ),
{
    let ghost before = state@;
    proof {
        with_folder_same(state@.data, texts(parent_path@));
    }
    let parent = match state.data_mut().folder_mut(parent_path.as_slice()) {
        Some(parent) => parent,
        None => {
            set_wizard_error(state, tab_id, "Missing target folder.");
            return QuickLaunchTask::Idle;
        },
    };
    let title = match parent.normalize_title(command.title(), None) {
        Ok(title) => title,
        Err(error) => {
            set_wizard_error(state, tab_id, error.text().as_str());
            return QuickLaunchTask::Idle;
        },
    };
    parent.push_child(QuickLaunchNode::Command(QuickLaunch { title, spec: command.spec }));
    state.mark_dirty();
    close_tab(tab_id)
}

fn replace_command(
    state: &mut QuickLaunchState,
    tab_id: u64,
    path: &NodePath,
    command: QuickLaunch,
) -> (task: QuickLaunchTask)
    requires
        old(state).wf(),
    ensures
        final(state).wf(),
        (final(state)@, task@) == command_replaced(old(state)@, tab_id, texts(path@), command@),
{
    let ghost before = state@;
    proof {
        with_folder_same(state@.data, texts(path@).drop_last());
    }
    let parent = match state.data_mut().parent_folder_mut(path.as_slice()) {
        Some(parent) => parent,
        None => {
            set_wizard_error(state, tab_id, "Missing parent folder.");
            return QuickLaunchTask::Idle;
        },
    };
    let current = path[path.len() - 1].as_str();
    match parent.normalize_title(command.title(), Some(current)) {
        Ok(_) => {},
        Err(error) => {
            set_wizard_error(state, tab_id, error.text().as_str());
            return QuickLaunchTask::Idle;
        },
    }
    assert(state@ == before);
    match state.data_mut().node_mut(path.as_slice()) {
        Some(node) => {
            *node = QuickLaunchNode::Command(command);
        },
        None => {
            set_wizard_error(state, tab_id, "Command no longer exists.");
            return QuickLaunchTask::Idle;
        },
    }
    state.mark_dirty();
    close_tab(tab_id)
}

/// Store the command of an editor.
fn apply_editor_save_request(
    state: &mut QuickLaunchState,
    request: QuickLaunchWizardSaveRequest,
) -> (task: QuickLaunchTask)
    requires
        old(state).wf(),
    ensures
        final(state).wf(),
        (final(state)@, task@) == save_requested(old(state)@, request),
{
    match request.target {
        QuickLaunchWizardSaveTarget::Create { parent_path } => create_command(
            state,
            request.tab_id,
            &parent_path,
            request.command,
        ),
        QuickLaunchWizardSaveTarget::Edit { path } => replace_command(
            state,
            request.tab_id,
            &path,
            request.command,
        ),
    }
}

/// Save what an editor shows.
fn reduce_wizard_save(state: &mut QuickLaunchState, tab_id: u64) -> (task: QuickLaunchTask)
    requires
        old(state).wf(),
    ensures
        final(state).wf(),
        (final(state)@, task@) == wizard_saved(old(state)@, tab_id),
{
    let editor = match state.wizard().editor(tab_id) {
        Some(editor) => editor,
        None => return QuickLaunchTask::Idle,
    };
    match build_command(editor) {
        Ok(command) => {
            let target = match editor.mode() {
                WizardMode::Create { parent_path } => QuickLaunchWizardSaveTarget::Create {
                    parent_path: copy_strings(parent_path),
                },
                WizardMode::Edit { path } => QuickLaunchWizardSaveTarget::Edit {
                    path: copy_strings(path),
                },
            };
            apply_editor_save_request(
                state,
                QuickLaunchWizardSaveRequest { tab_id, target, command },
            )
        },
        Err(error) => {
            set_wizard_error(state, tab_id, error.text().as_str());
            QuickLaunchTask::Idle
        },
    }
}

fn drop_target_from_hover(state: &QuickLaunchState) -> (target: DropTarget)
    ensures
        target@ == hover_target(state@),
{
    let hovered = match state.hovered_path() {
        Some(hovered) => hovered,
        None => return DropTarget::Root,
    };
    match state.data().node(hovered.as_slice()) {
        None => DropTarget::Root,
        Some(QuickLaunchNode::Folder(_)) => DropTarget::Folder(copy_strings(hovered)),
        Some(QuickLaunchNode::Command(_)) => {
            assert(texts(hovered@).len() == hovered@.len());
            if hovered.len() <= 1 {
                DropTarget::Root
            } else {
                DropTarget::Folder(parent_of(hovered))
            }
        },
    }
}

fn target_path(target: &DropTarget) -> (path: NodePath)
    ensures
        texts(path@) == target@.path(),
{
    match target {
        DropTarget::Root => {
            let root: NodePath = Vec::new();
            assert(texts(root@) =~= Seq::empty());
            root
        },
        DropTarget::Folder(path) => copy_strings(path),
    }
}

/// Whether a dragged entry may be dropped: not a folder in itself.
fn can_drop(state: &QuickLaunchState, source: &[String], target: &DropTarget) -> (r: bool)
    ensures
        r == droppable(state@.data, texts(source@), target@.path()),
{
    match state.data().node(source) {
        None => false,
        Some(QuickLaunchNode::Folder(_)) => !is_prefix(source, target_path(target).as_slice()),
        Some(QuickLaunchNode::Command(_)) => true,
    }
}

fn update_drop_target(state: &mut QuickLaunchState, source: &[String])
    ensures
        final(state)@ == drop_target_updated(old(state)@, texts(source@)),
        final(state).wf() == old(state).wf(),
{
    let target = drop_target_from_hover(state);
    if can_drop(state, source, &target) {
        state.set_drop_target(Some(target));
    } else {
        state.clear_drop_target();
    }
}

/// Follow the cursor with the drag.
fn update_drag_state(state: &mut QuickLaunchState, past_threshold: bool)
    ensures
        final(state)@ == drag_updated(old(state)@, past_threshold),
        final(state).wf() == old(state).wf(),
{
    let source: NodePath;
    let active: bool;
    match state.drag_mut() {
        None => {
            return;
        },
        Some(drag) => {
            if !drag.active && past_threshold {
                drag.active = true;
            }
            active = drag.active;
            source = copy_strings(&drag.source);
        },
    }
    if active {
        update_drop_target(state, source.as_slice());
    }
}

/// Follow the hovered entry with the drag.
fn update_drag_drop_target(state: &mut QuickLaunchState)
    ensures
        final(state)@ == hover_dragged(old(state)@),
        final(state).wf() == old(state).wf(),
{
    let source = match state.drag() {
        Some(drag) => if drag.active {
            copy_strings(&drag.source)
        } else {
            return;
        },
        None => return,
    };
    update_drop_target(state, source.as_slice());
}

/// Move an entry into another folder.
fn move_node(state: &mut QuickLaunchState, source: NodePath, target: DropTarget)
    requires
        old(state).wf(),
    ensures
        final(state).wf(),
        final(state)@ == node_moved(old(state)@, texts(source@), target@.path()),
{
    let ghost before = state@;
    let ghost from = texts(source@);
    let ghost to = target@.path();
    let target_path = target_path(&target);
    let is_folder = match state.data().node(source.as_slice()) {
        Some(QuickLaunchNode::Folder(_)) => true,
        Some(QuickLaunchNode::Command(_)) => false,
        None => return,
    };
    assert(from.len() > 0);
    let source_parent = parent_of(&source);
    if same_path(source_parent.as_slice(), target_path.as_slice()) {
        return;
    }
    if is_folder && is_prefix(source.as_slice(), target_path.as_slice()) {
        return;
    }
    let title = source[source.len() - 1].clone();
    match state.data().folder(target_path.as_slice()) {
        Some(folder) => if folder.contains_title(title.as_str()) {
            return;
        },
        None => return,
    }
    proof {
        if !is_folder {
            command_is_no_folder(before.data, from, to);
        }
        removal_keeps_folder(before.data, from, to);
        child_position_is_first(
            folder_at(before.data, from.drop_last())->0.children,
            from.last(),
        );
    }
    let moved = {
        let parent_folder = match state.data_mut().parent_folder_mut(source.as_slice()) {
            Some(parent_folder) => parent_folder,
            None => return,
        };
        match parent_folder.remove_child(title.as_str()) {
            Some(moved) => moved,
            None => return,
        }
    };
    match state.data_mut().folder_mut(target_path.as_slice()) {
        Some(target_folder) => target_folder.push_child(moved),
        None => return,
    }
    let mut new_path = target_path;
    push_text(&mut new_path, title);
    state.relocate_launches(source.as_slice(), new_path.as_slice());
    state.set_selected_path(Some(new_path));
    state.mark_dirty();
}

/// End a drag; whether one was under way.
fn finish_drag(state: &mut QuickLaunchState) -> (was_drag: bool)
    requires
        old(state).wf(),
    ensures
        final(state).wf(),
        (final(state)@, was_drag) == drag_finished(old(state)@),
{
    let drag = match state.take_drag() {
        Some(drag) => drag,
        None => {
            return false;
        },
    };
    if !drag.active {
        state.clear_drop_target();
        return false;
    }
    let target = match state.take_drop_target() {
        Some(target) => target,
        None => return true,
    };
    state.clear_pressed_path();
    move_node(state, drag.source, target);
    true
}

fn remove_node(state: &mut QuickLaunchState, path: &[String])
    requires
        old(state).wf(),
    ensures
        final(state).wf(),
        final(state)@ == node_removed(old(state)@, texts(path@)),
{
    let parent = match state.data_mut().parent_folder_mut(path) {
        Some(parent) => parent,
        None => return,
    };
    parent.remove_child(path[path.len() - 1].as_str());
    state.mark_dirty();
}

fn toggle_folder_expanded(state: &mut QuickLaunchState, path: &[String])
    ensures
        final(state)@ == (StateModel {
            data: tree_toggled(old(state)@.data, texts(path@)),
            ..old(state)@
        }),
        final(state).wf() == old(state).wf(),
{
    proof {
        with_node_same(state@.data, texts(path@));
    }
    if let Some(QuickLaunchNode::Folder(folder)) = state.data_mut().node_mut(path) {
        folder.expanded = !folder.expanded;
    }
}

fn numbered_title(title: &str, index: u64) -> (r: String)
    ensures
        r@ == numbered_copy_title(title@, index as nat),
{
    let mut r = joined(title, " copy (");
    r.append(decimal(index).as_str());
    r.append(")");
    r
}

/// The title of a copy among the children of a folder.
fn duplicate_title(parent: &QuickLaunchFolder, title: &str) -> (r: String)
    ensures
        r@ == duplicate_title_of(parent@.children, title@),
{
    let base = joined(title, " copy");
    if !parent.contains_title(base.as_str()) {
        return base;
    }
    let ghost children = parent@.children;
    proof {
        folder_value(*parent);
    }
    let count: usize = parent.children.len();
    let mut index: u64 = 0;
    loop
        invariant
            children == parent@.children,
            children.len() == count,
            index <= count,
            count <= u64::MAX,
            has_title(children, copy_title(title@)),
            forall|m: nat|
                m < index ==> has_title(children, #[trigger] numbered_copy_title(title@, m)),
        decreases count - index,
    {
        let candidate = numbered_title(title, index);
        if !parent.contains_title(candidate.as_str()) {
            proof {
                assert(is_first_free(children, title@, index as nat));
                let chosen = choose|n: nat| is_first_free(children, title@, n);
                assert(is_first_free(children, title@, chosen));
                if chosen < index {
                    assert(has_title(children, numbered_copy_title(title@, chosen)));
                }
                if index < chosen {
                    assert(has_title(children, numbered_copy_title(title@, index as nat)));
                }
            }
            return candidate;
        }
        proof {
            taken_titles_are_bounded(children, title@, (index + 1) as nat);
        }
        index += 1;
    }
}

fn duplicate_command(state: &mut QuickLaunchState, path: &[String])
    requires
        old(state).wf(),
    ensures
        final(state).wf(),
        final(state)@ == command_duplicated(old(state)@, texts(path@)),
{
    let command = match state.data().node(path) {
        Some(QuickLaunchNode::Command(command)) => command.clone(),
        _ => return,
    };
    let parent = match state.data_mut().parent_folder_mut(path) {
        Some(parent) => parent,
        None => return,
    };
    let title = duplicate_title(parent, command.title());
    parent.push_child(QuickLaunchNode::Command(QuickLaunch { title, spec: command.spec }));
    state.mark_dirty();
}

/// Begin the launch of a command.
fn launch_quick_launch(
    state: &mut QuickLaunchState,
    ctx: &QuickLaunchCtx,
    path: NodePath,
    command: QuickLaunch,
) -> (task: QuickLaunchTask)
    requires
        old(state).wf(),
        old(state)@.next_launch_id < u64::MAX,
    ensures
        final(state).wf(),
        (final(state)@, task@) == launched(
            old(state)@,
            texts(path@),
            command@,
            *ctx,
            task@.token(),
        ),
{
    if state.is_launching(&path) {
        return QuickLaunchTask::Idle;
    }
    let cancel = Arc::new(AtomicBool::new(false));
    let launch_id: u64 = state.begin_launch(copy_strings(&path), share_token(&cancel));
    QuickLaunchTask::Launch {
        command,
        path,
        launch_id,
        settings: ctx.terminal_settings.clone(),
        cancel,
    }
}

fn inline_edit_matches(edit: &InlineEditState, path: &[String]) -> (r: bool)
    ensures
        r == (edit@.kind == EditKindModel::Rename(texts(path@))),
{
    match &edit.kind {
        InlineEditKind::Rename { path: edit_path } => same_path(edit_path.as_slice(), path),
        InlineEditKind::CreateFolder { .. } => false,
    }
}

/// A click on an entry.
fn handle_node_left_click(state: &mut QuickLaunchState, ctx: &QuickLaunchCtx, path: NodePath) -> (
    task: QuickLaunchTask)
    requires
        old(state).wf(),
        old(state)@.next_launch_id < u64::MAX,
    ensures
        final(state).wf(),
        (final(state)@, task@) == node_clicked(old(state)@, texts(path@), *ctx, task@.token()),
{
    let node = match state.data().node(path.as_slice()) {
        Some(node) => node.clone(),
        None => return QuickLaunchTask::Idle,
    };
    let renaming = match state.inline_edit() {
        Some(edit) => inline_edit_matches(edit, path.as_slice()),
        None => false,
    };
    if renaming {
        return QuickLaunchTask::Idle;
    }
    state.clear_inline_edit();
    state.clear_context_menu();
    state.set_selected_path(Some(copy_strings(&path)));
    match node {
        QuickLaunchNode::Folder(_) => {
            toggle_folder_expanded(state, path.as_slice());
            state.mark_dirty();
            QuickLaunchTask::Idle
        },
        QuickLaunchNode::Command(command) => launch_quick_launch(state, ctx, path, command),
    }
}

fn open_edit_command_tab(state: &QuickLaunchState, path: NodePath) -> (task: QuickLaunchTask)
    ensures
        task@ == (match node_at(state@.data, texts(path@)) {
            Some(NodeModel::Command(command)) => TaskModel::Effect(
                EffectModel::OpenWizardEditTab(texts(path@), command),
            ),
            _ => TaskModel::Idle,
        }),
{
    let command = match state.data().node(path.as_slice()) {
        Some(QuickLaunchNode::Command(command)) => command.clone(),
        _ => return QuickLaunchTask::Idle,
    };
    QuickLaunchTask::Effect(
        QuickLaunchEffect::OpenWizardEditTab { path, command: Box::new(command) },
    )
}

fn open_create_tab(parent_path: NodePath) -> (task: QuickLaunchTask)
    ensures
        task@ == TaskModel::Effect(EffectModel::OpenWizardCreateTab(texts(parent_path@))),
{
    QuickLaunchTask::Effect(QuickLaunchEffect::OpenWizardCreateTab { parent_path })
}

fn menu_parent_path(target: ContextMenuTarget) -> (path: NodePath)
    ensures
        texts(path@) == menu_parent(target@),
{
    match target {
        ContextMenuTarget::Folder(path) => path,
        ContextMenuTarget::Command(path) => {
            assert(texts(path@).len() == path@.len());
            parent_of(&path)
        },
        ContextMenuTarget::Background => {
            let root: NodePath = Vec::new();
            assert(texts(root@) =~= Seq::empty());
            root
        },
    }
}

/// An entry of the context menu was chosen.
fn handle_context_menu_action(
    state: &mut QuickLaunchState,
    ctx: &QuickLaunchCtx,
    action: ContextMenuAction,
) -> (task: QuickLaunchTask)
    requires
        old(state).wf(),
    ensures
        final(state).wf(),
        (final(state)@, task@) == menu_chosen(old(state)@, action, *ctx),
{
    let menu = match state.context_menu_cloned() {
        Some(menu) => menu,
        None => return QuickLaunchTask::Idle,
    };
    state.clear_context_menu();
    match action {
        ContextMenuAction::Edit => match menu.target() {
            ContextMenuTarget::Command(path) => open_edit_command_tab(state, path),
            _ => QuickLaunchTask::Idle,
        },
        ContextMenuAction::Rename => match menu.target() {
            ContextMenuTarget::Command(path) => {
                begin_inline_rename(state, path, ctx.fresh_widget_id);
                focus_inline_edit(state)
            },
            ContextMenuTarget::Folder(path) => {
                begin_inline_rename(state, path, ctx.fresh_widget_id);
                focus_inline_edit(state)
            },
            ContextMenuTarget::Background => QuickLaunchTask::Idle,
        },
        ContextMenuAction::Duplicate => {
            if let ContextMenuTarget::Command(path) = menu.target() {
                duplicate_command(state, path.as_slice());
            }
            QuickLaunchTask::Idle
        },
        ContextMenuAction::Remove => {
            if let ContextMenuTarget::Command(path) = menu.target() {
                remove_node(state, path.as_slice());
            }
            QuickLaunchTask::Idle
        },
        ContextMenuAction::Delete => {
            if let ContextMenuTarget::Folder(path) = menu.target() {
                remove_node(state, path.as_slice());
            }
            QuickLaunchTask::Idle
        },
        ContextMenuAction::CreateFolder => {
            let parent = menu_parent_path(menu.target());
            begin_inline_create_folder(state, parent, ctx.fresh_widget_id);
            focus_inline_edit(state)
        },
        ContextMenuAction::CreateCommand => open_create_tab(menu_parent_path(menu.target())),
        ContextMenuAction::Kill => {
            if let ContextMenuTarget::Command(path) = menu.target() {
                if let Some(token) = state.cancel_launch(path.as_slice()) {
                    return QuickLaunchTask::Cancel { token };
                }
            }
            QuickLaunchTask::Idle
        },
    }
}

/// Take note of the report on a launch; whether it is to be passed over.
fn should_skip_launch_result(state: &mut QuickLaunchState, path: &[String], launch_id: u64) -> (
    skip: bool)
    requires
        old(state).wf(),
    ensures
        final(state).wf(),
        (final(state)@, skip) == launch_reported(old(state)@, texts(path@), launch_id),
{
    proof {
        absent_is_kept(state@.canceled_launches, launch_id);
    }
    if state.take_canceled_launch(launch_id) {
        state.remove_launch_by_id(launch_id);
        return true;
    }
    let superseded = match state.launch_info(path) {
        Some(info) => info.id != launch_id,
        None => false,
    };
    if superseded {
        return true;
    }
    state.remove_launch_by_id(launch_id);
    false
}

/// A launch is ready.
fn handle_prepared_quick_launch(state: &mut QuickLaunchState, launch: PreparedQuickLaunch) -> (
    task: QuickLaunchTask)
    requires
        old(state).wf(),
    ensures
        final(state).wf(),
        ({
            let (after, skip) = launch_reported(
                old(state)@,
                texts(launch.path@),
                launch.launch_id,
            );
            &&& final(state)@ == after
            &&& task@ == (if skip {
                TaskModel::Idle
            } else {
                TaskModel::Effect(
                    EffectModel::OpenCommandTerminalTab(
                        launch.title@,
                        launch.settings@,
                        (*launch.command)@,
                    ),
                )
            })
        }),
{
    if should_skip_launch_result(state, launch.path.as_slice(), launch.launch_id) {
        return QuickLaunchTask::Idle;
    }
    QuickLaunchTask::Effect(
        QuickLaunchEffect::OpenCommandTerminalTab {
            title: launch.title,
            settings: launch.settings,
            command: launch.command,
        },
    )
}

/// The report on a launch has come.
fn reduce_setup_completed(state: &mut QuickLaunchState, outcome: QuickLaunchSetupOutcome) -> (task:
    QuickLaunchTask)
    requires
        old(state).wf(),
    ensures
        final(state).wf(),
        (final(state)@, task@) == setup_completed(old(state)@, outcome),
{
    match outcome {
        QuickLaunchSetupOutcome::Prepared(launch) => handle_prepared_quick_launch(state, *launch),
        QuickLaunchSetupOutcome::Failed { path, launch_id, command, error } => {
            if should_skip_launch_result(state, path.as_slice(), launch_id) {
                return QuickLaunchTask::Idle;
            }
            let mut title = joined("Failed to launch \"", command.title());
            title.append("\"");
            let message = quick_launch_error_message(&command, &error);
            QuickLaunchTask::Effect(QuickLaunchEffect::OpenErrorTab { title, message })
        },
        QuickLaunchSetupOutcome::Canceled { path, launch_id } => {
            should_skip_launch_result(state, path.as_slice(), launch_id);
            QuickLaunchTask::Idle
        },
    }
}

/// A tick of the clock.
fn reduce_tick(state: &mut QuickLaunchState) -> (task: QuickLaunchTask)
    requires
        old(state).wf(),
    ensures
        final(state).wf(),
        (final(state)@, task@) == ticked_state(old(state)@),
{
    if state.has_active_launches() {
        state.advance_blink_nonce();
        state.tick_launches();
    }
    if state.is_dirty() && !state.is_persist_in_flight() {
        state.begin_persist();
        return QuickLaunchTask::Persist { data: state.data().clone() };
    }
    QuickLaunchTask::Idle
}

fn open_menu_on(state: &mut QuickLaunchState, path: NodePath, ctx: &QuickLaunchCtx)
    ensures
        final(state)@ == menu_opened_on(old(state)@, texts(path@), *ctx),
        final(state).wf() == old(state).wf(),
{
    let selected_path = copy_strings(&path);
    let target = match state.data().node(path.as_slice()) {
        Some(QuickLaunchNode::Folder(_)) => ContextMenuTarget::Folder(path),
        Some(QuickLaunchNode::Command(_)) => ContextMenuTarget::Command(path),
        None => return,
    };
    let menu = ContextMenuState::default().with_target(target).with_cursor(ctx.sidebar_cursor);
    state.set_context_menu(Some(menu));
    state.set_selected_path(Some(selected_path));
}

fn delete_selected(state: &mut QuickLaunchState)
    requires
        old(state).wf(),
    ensures
        final(state).wf(),
        final(state)@ == selected_deleted(old(state)@),
{
    let path = match state.selected_path_cloned() {
        Some(path) => path,
        None => return,
    };
    if let Some(QuickLaunchNode::Folder(_)) = state.data().node(path.as_slice()) {
        remove_node(state, path.as_slice());
        state.clear_selected_path();
    }
}

fn release_node(state: &mut QuickLaunchState, path: NodePath, ctx: &QuickLaunchCtx) -> (task:
    QuickLaunchTask)
    requires
        old(state).wf(),
        old(state)@.next_launch_id < u64::MAX,
    ensures
        final(state).wf(),
        (final(state)@, task@) == node_released(old(state)@, texts(path@), *ctx, task@.token()),
{
    if finish_drag(state) {
        return QuickLaunchTask::Idle;
    }
    let clicked = match state.pressed_path() {
        Some(pressed) => same_path(pressed.as_slice(), path.as_slice()),
        None => false,
    };
    state.clear_pressed_path();
    if clicked {
        return handle_node_left_click(state, ctx, path);
    }
    QuickLaunchTask::Idle
}

/// Reduce an event into a change of the state and work that follows. For an event
/// that can begin a launch the state must have an id left to give to it.
pub fn reduce(state: &mut QuickLaunchState, event: QuickLaunchIntent, ctx: &QuickLaunchCtx) -> (
    task: QuickLaunchTask)
    requires
        old(state).wf(),
        event is NodeReleased ==> old(state)@.next_launch_id < u64::MAX,
    ensures
        final(state).wf(),
        (final(state)@, task@) == reduced(old(state)@, event, *ctx, task@.token()),
{
    match event {
        QuickLaunchIntent::OpenErrorTab { tab_id, title, message } => {
            state.set_error_tab(tab_id, QuickLaunchErrorState::new(title, message));
        },
        QuickLaunchIntent::TabClosed { tab_id } => {
            state.remove_error_tab(tab_id);
            state.wizard_mut().remove_tab(tab_id);
        },
        QuickLaunchIntent::CursorMoved { position, past_threshold } => {
            state.set_cursor(position);
            update_drag_state(state, past_threshold);
        },
        QuickLaunchIntent::NodeHovered { path } => {
            if !ctx.sidebar_is_resizing {
                state.set_hovered_path(Some(path));
                update_drag_drop_target(state);
            }
        },
        QuickLaunchIntent::BackgroundPressed => {
            state.clear_context_menu();
            state.clear_inline_edit();
            state.clear_selected_path();
        },
        QuickLaunchIntent::BackgroundReleased => {
            let active = match state.drag() {
                Some(drag) => drag.active,
                None => false,
            };
            if active {
                state.set_drop_target(Some(DropTarget::Root));
            }
            if !finish_drag(state) {
                state.clear_pressed_path();
            }
        },
        QuickLaunchIntent::BackgroundRightClicked => {
            let menu = ContextMenuState::default().with_target(
                ContextMenuTarget::Background,
            ).with_cursor(ctx.sidebar_cursor);
            state.set_context_menu(Some(menu));
            state.clear_selected_path();
        },
        QuickLaunchIntent::NodeRightClicked { path } => open_menu_on(state, path, ctx),
        QuickLaunchIntent::ContextMenuDismiss => state.clear_context_menu(),
        QuickLaunchIntent::CancelInlineEdit => state.clear_inline_edit(),
        QuickLaunchIntent::ResetInteractionState => {
            state.set_hovered_path(None);
            state.clear_pressed_path();
            state.clear_drag();
            state.clear_drop_target();
        },
        QuickLaunchIntent::HeaderAddButtonPressed => {},
        QuickLaunchIntent::HeaderCreateFolder => {
            let parent = selected_parent_path(state);
            begin_inline_create_folder(state, parent, ctx.fresh_widget_id);
            return focus_inline_edit(state);
        },
        QuickLaunchIntent::HeaderCreateCommand => {
            return open_create_tab(selected_parent_path(state));
        },
        QuickLaunchIntent::DeleteSelected => delete_selected(state),
        QuickLaunchIntent::NodePressed { path } => {
            state.set_pressed_path(Some(copy_strings(&path)));
            state.set_selected_path(Some(copy_strings(&path)));
            let origin = state.cursor();
            state.set_drag(Some(DragState { source: path, origin, active: false }));
        },
        QuickLaunchIntent::NodeReleased { path } => {
            return release_node(state, path, ctx);
        },
        QuickLaunchIntent::InlineEditChanged(value) => {
            if let Some(edit) = state.inline_edit_mut() {
                edit.value = value;
                edit.error = None;
            }
        },
        QuickLaunchIntent::InlineEditSubmit => apply_inline_edit(state),
        QuickLaunchIntent::WizardSaveRequested(request) => {
            return apply_editor_save_request(state, request);
        },
        QuickLaunchIntent::ContextMenuAction(action) => {
            return handle_context_menu_action(state, ctx, action);
        },
        QuickLaunchIntent::SetupCompleted(outcome) => {
            return reduce_setup_completed(state, outcome);
        },
        QuickLaunchIntent::PersistCompleted => state.complete_persist(),
        QuickLaunchIntent::PersistFailed(_) => state.fail_persist(),
        QuickLaunchIntent::Tick => {
            return reduce_tick(state);
        },
        QuickLaunchIntent::WizardInitializeCreate { tab_id, parent_path, command_type } => {
            state.wizard_mut().initialize_create(tab_id, parent_path, command_type);
        },
        QuickLaunchIntent::WizardInitializeEdit { tab_id, path, command } => {
            state.wizard_mut().initialize_edit(tab_id, path, &command);
        },
        QuickLaunchIntent::WizardCancel { tab_id } => {
            return close_tab(tab_id);
        },
        QuickLaunchIntent::WizardSave { tab_id } => {
            return reduce_wizard_save(state, tab_id);
        },
        QuickLaunchIntent::WizardSetError { tab_id, message } => {
            set_wizard_error(state, tab_id, message.as_str());
        },
        QuickLaunchIntent::WizardUpdateTitle { tab_id, value } => {
            reduce_wizard_field(state, tab_id, WizardFieldEdit::Title(value));
        },
        QuickLaunchIntent::WizardUpdateProgram { tab_id, value } => {
            reduce_wizard_field(state, tab_id, WizardFieldEdit::Program(value));
        },
        QuickLaunchIntent::WizardUpdateHost { tab_id, value } => {
            reduce_wizard_field(state, tab_id, WizardFieldEdit::Host(value));
        },
        QuickLaunchIntent::WizardUpdateUser { tab_id, value } => {
            reduce_wizard_field(state, tab_id, WizardFieldEdit::User(value));
        },
        QuickLaunchIntent::WizardUpdatePort { tab_id, value } => {
            reduce_wizard_field(state, tab_id, WizardFieldEdit::Port(value));
        },
        QuickLaunchIntent::WizardUpdateIdentityFile { tab_id, value } => {
            reduce_wizard_field(state, tab_id, WizardFieldEdit::IdentityFile(value));
        },
        QuickLaunchIntent::WizardUpdateWorkingDirectory { tab_id, value } => {
            reduce_wizard_field(state, tab_id, WizardFieldEdit::WorkingDirectory(value));
        },
        QuickLaunchIntent::WizardAddArg { tab_id } => {
            reduce_wizard_field(state, tab_id, WizardFieldEdit::AddArg);
        },
        QuickLaunchIntent::WizardRemoveArg { tab_id, index } => {
            reduce_wizard_field(state, tab_id, WizardFieldEdit::RemoveArg(index));
        },
        QuickLaunchIntent::WizardUpdateArg { tab_id, index, value } => {
            reduce_wizard_field(state, tab_id, WizardFieldEdit::UpdateArg(index, value));
        },
        QuickLaunchIntent::WizardAddEnv { tab_id } => {
            reduce_wizard_field(state, tab_id, WizardFieldEdit::AddEnv);
        },
        QuickLaunchIntent::WizardRemoveEnv { tab_id, index } => {
            reduce_wizard_field(state, tab_id, WizardFieldEdit::RemoveEnv(index));
        },
        QuickLaunchIntent::WizardUpdateEnvKey { tab_id, index, value } => {
            reduce_wizard_field(state, tab_id, WizardFieldEdit::UpdateEnvKey(index, value));
        },
        QuickLaunchIntent::WizardUpdateEnvValue { tab_id, index, value } => {
            reduce_wizard_field(state, tab_id, WizardFieldEdit::UpdateEnvValue(index, value));
        },
        QuickLaunchIntent::WizardAddExtraArg { tab_id } => {
            reduce_wizard_field(state, tab_id, WizardFieldEdit::AddExtraArg);
        },
        QuickLaunchIntent::WizardRemoveExtraArg { tab_id, index } => {
            reduce_wizard_field(state, tab_id, WizardFieldEdit::RemoveExtraArg(index));
        },
        QuickLaunchIntent::WizardUpdateExtraArg { tab_id, index, value } => {
            reduce_wizard_field(state, tab_id, WizardFieldEdit::UpdateExtraArg(index, value));
        },
        QuickLaunchIntent::WizardSelectCommandType { tab_id, command_type } => {
            select_command_type(state, tab_id, command_type);
        },
    }
    QuickLaunchTask::Idle
}

fn select_command_type(state: &mut QuickLaunchState, tab_id: u64, command_type: QuickLaunchType)
    ensures
        final(state)@ == command_type_selected(old(state)@, tab_id, command_type),
        final(state).wf() == old(state).wf(),
{
    let ghost before = state@;
    if let Some(editor) = state.wizard_mut().editor_mut(tab_id) {
        if editor.is_create_mode() {
            editor.set_command_type(command_type);
        }
    }
    assert(before.wizard.contains_key(tab_id) ==> before.wizard.insert(
        tab_id,
        before.wizard[tab_id],
    ) =~= before.wizard);
}

} // verus!
