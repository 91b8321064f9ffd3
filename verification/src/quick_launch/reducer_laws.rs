//! What holds of the quick launch widget whatever happens to it.

use std::sync::atomic::AtomicBool;
use std::sync::Arc;

use vstd::prelude::*;

use crate::quick_launch::event::{
    ContextMenuAction, QuickLaunchCtx, QuickLaunchIntent, QuickLaunchWizardSaveTarget, TaskModel,
};
use crate::quick_launch::launches::launches_without_id;
use crate::quick_launch::services::{command_of, saved_command_is_tidy};
use crate::quick_launch::setup::QuickLaunchSetupOutcome;
use crate::quick_launch::state::{
    launch_canceled, without_first, DropModel, EditKindModel, MenuTarget, StateModel,
};
use crate::quick_launch::transitions::{
    command_created, command_duplicated, command_replaced, copy_title, drag_finished,
    duplicate_title_of, inline_edit_submitted, is_first_free, menu_chosen, menu_parent, movable,
    new_folder, node_moved, node_removed, numbered_copy_title, reduced, selected_parent,
    setup_completed, ticked_state, tree_moved, tree_opened, tree_toggled,
};
use crate::quick_launch::tree::{
    child_position, child_position_is_first, folder_at, has_title, node_at, with_node, FolderModel,
    NodeModel,
};
use crate::quick_launch::tree_laws::{
    moved_node_found, position_by_titles, removal_keeps_folder, unique_below, unique_node_at,
    unique_titles, unique_with_node, unique_with_node_in, unique_without_node, without_node,
};
use crate::quick_launch::types::LaunchModel;
use crate::quick_launch::wizard::ModeModel;
use crate::text::{decimal_text, decimal_text_injective, texts, trim_text};

verus! {

/// Two numbered copies of one title differ.
pub proof fn copy_titles_differ(title: Seq<char>, m: nat, n: nat)
    requires
        numbered_copy_title(title, m) == numbered_copy_title(title, n),
    ensures
        m == n,
{
    let a = numbered_copy_title(title, m);
    let b = numbered_copy_title(title, n);
    let start = (title + " copy ("@).len() as int;
    assert(")"@.len() == 1) by {
        reveal_strlit(")");
    }
    assert(a.subrange(start, a.len() - 1) =~= decimal_text(m));
    assert(b.subrange(start, b.len() - 1) =~= decimal_text(n));
    decimal_text_injective(m, n);
}

/// Where some copy's title is taken among `children`.
spec fn taken_position(children: Seq<NodeModel>, title: Seq<char>, n: nat) -> int {
    choose|i: int|
        0 <= i < children.len() && (#[trigger] children[i]).title() == numbered_copy_title(
            title,
            n,
        )
}

/// As many titles as there are entries can be taken, and no more.
pub proof fn taken_titles_are_bounded(children: Seq<NodeModel>, title: Seq<char>, count: nat)
    requires
        forall|m: nat| m < count ==> has_title(children, #[trigger] numbered_copy_title(title, m)),
    ensures
        count <= children.len(),
{
    let positions = Seq::new(count, |m: int| taken_position(children, title, m as nat));
    assert forall|m: int| 0 <= m < count implies 0 <= #[trigger] positions[m] < children.len()
        && children[positions[m]].title() == numbered_copy_title(title, m as nat) by {
        assert(has_title(children, numbered_copy_title(title, m as nat)));
    }
    assert(positions.no_duplicates()) by {
        assert forall|m: int, n: int|
            0 <= m < count && 0 <= n < count && m != n implies positions[m] != positions[n] by {
            if positions[m] == positions[n] {
                copy_titles_differ(title, m as nat, n as nat);
            }
        }
    }
    positions.unique_seq_to_set();
    let range = vstd::set_lib::set_int_range(0, children.len() as int);
    vstd::set_lib::lemma_int_range(0, children.len() as int);
    assert(positions.to_set().subset_of(range));
    vstd::set_lib::lemma_len_subset(positions.to_set(), range);
}

/// A list without a value stays as it is when the value is taken out.
pub proof fn absent_is_kept(list: Seq<u64>, value: u64)
    ensures
        !list.contains(value) ==> without_first(list, value) == list,
    decreases list.len(),
{
    if list.len() > 0 && !list.contains(value) {
        assert(list[0] != value);
        assert forall|i: int| 0 <= i < list.len() - 1 implies list.skip(1)[i] != value by {
            assert(list[i + 1] != value);
        }
        absent_is_kept(list.skip(1), value);
        assert(seq![list[0]] + list.skip(1) =~= list);
    }
}

proof fn lemma_first_free_exists(children: Seq<NodeModel>, title: Seq<char>, n: nat)
    requires
        forall|m: nat| m < n ==> has_title(children, #[trigger] numbered_copy_title(title, m)),
        n <= children.len() + 1,
    ensures
        exists|k: nat| is_first_free(children, title, k),
    decreases children.len() + 1 - n,
{
    if !has_title(children, numbered_copy_title(title, n)) {
        assert(is_first_free(children, title, n));
    } else {
        taken_titles_are_bounded(children, title, n + 1);
        lemma_first_free_exists(children, title, n + 1);
    }
}

/// However many copies there are, one number is the first that is free.
pub proof fn first_free_number_exists(children: Seq<NodeModel>, title: Seq<char>)
    ensures
        exists|n: nat| is_first_free(children, title, n),
{
    lemma_first_free_exists(children, title, 0);
}

/// The title that a copy gets is not taken in its folder.
pub proof fn duplicate_title_is_free(children: Seq<NodeModel>, title: Seq<char>)
    ensures
        !has_title(children, duplicate_title_of(children, title)),
{
    if has_title(children, copy_title(title)) {
        lemma_first_free_exists(children, title, 0);
        let n = choose|n: nat| is_first_free(children, title, n);
        assert(is_first_free(children, title, n));
    }
}

/// No folder lies at or below a command.
pub proof fn command_is_no_folder(
    root: FolderModel,
    source: Seq<Seq<char>>,
    target: Seq<Seq<char>>,
)
    requires
        node_at(root, source) is Some,
        node_at(root, source)->0 is Command,
        folder_at(root, target) is Some,
    ensures
        !source.is_prefix_of(target),
    decreases source.len(),
{
    if source.is_prefix_of(target) {
        assert(source[0] == target.subrange(0, source.len() as int)[0]);
        assert(source[0] == target[0]);
        child_position_is_first(root.children, source[0]);
        if source.len() == 1 {
            assert(source.drop_last() =~= Seq::empty());
        } else {
            assert(source.drop_last()[0] == source[0]);
            let i = child_position(root.children, source[0])->0;
            let inner = root.children[i]->Folder_0;
            let rest = source.skip(1);
            assert(rest.drop_last() =~= source.drop_last().skip(1));
            assert(rest.last() == source.last());
            assert(rest =~= target.skip(1).subrange(0, rest.len() as int)) by {
                assert forall|j: int| 0 <= j < rest.len() implies rest[j] == target.skip(1)[j] by {
                    assert(source[j + 1] == target.subrange(0, source.len() as int)[j + 1]);
                }
            }
            command_is_no_folder(inner, rest, target.skip(1));
        }
    }
}

/// A move loses nothing: the entry is found, unchanged, under its title in the
/// folder that it was moved to.
pub proof fn move_keeps_the_entry(
    state: StateModel,
    source: Seq<Seq<char>>,
    target: Seq<Seq<char>>,
)
    requires
        movable(state.data, source, target),
    ensures
        node_at(node_moved(state, source, target).data, target.push(source.last())) == node_at(
            state.data,
            source,
        ),
        node_moved(state, source, target).selected_path == Some(target.push(source.last())),
{
    if node_at(state.data, source)->0 is Command {
        command_is_no_folder(state.data, source, target);
    }
    moved_node_found(state.data, source, target);
}

proof fn lemma_unique_moved(data: FolderModel, source: Seq<Seq<char>>, target: Seq<Seq<char>>)
    requires
        unique_titles(data),
        movable(data, source, target),
    ensures
        unique_titles(tree_moved(data, source, target)),
{
    let node = node_at(data, source)->0;
    if node is Command {
        command_is_no_folder(data, source, target);
    }
    let parent = folder_at(data, source.drop_last())->0;
    child_position_is_first(parent.children, source.last());
    removal_keeps_folder(data, source, target);
    let removed = without_node(data, source);
    position_by_titles(
        folder_at(removed, target)->0.children,
        folder_at(data, target)->0.children,
        source.last(),
    );
    unique_node_at(data, source);
    unique_without_node(data, source);
    unique_with_node_in(removed, target, node);
}

proof fn lemma_unique_drag_finished(state: StateModel)
    requires
        unique_titles(state.data),
    ensures
        unique_titles(drag_finished(state).0.data),
{
    match state.drag {
        Some(drag) => {
            if drag.active && state.drop_target is Some {
                let target = state.drop_target->0.path();
                if movable(state.data, drag.source, target) {
                    lemma_unique_moved(state.data, drag.source, target);
                }
            }
        },
        None => {},
    }
}

proof fn lemma_unique_same_title(data: FolderModel, path: Seq<Seq<char>>, node: NodeModel)
    requires
        unique_titles(data),
        node_at(data, path) is Some,
        unique_below(node),
        node.title() == node_at(data, path)->0.title(),
    ensures
        unique_titles(with_node(data, path, node)),
{
    let parent = folder_at(data, path.drop_last())->0;
    child_position_is_first(parent.children, path.last());
    unique_with_node(data, path, node);
}

proof fn lemma_unique_opened(data: FolderModel, path: Seq<Seq<char>>)
    requires
        unique_titles(data),
    ensures
        unique_titles(tree_opened(data, path)),
        unique_titles(tree_toggled(data, path)),
{
    unique_node_at(data, path);
    match node_at(data, path) {
        Some(NodeModel::Folder(folder)) => {
            lemma_unique_same_title(
                data,
                path,
                NodeModel::Folder(FolderModel { expanded: true, ..folder }),
            );
            lemma_unique_same_title(
                data,
                path,
                NodeModel::Folder(FolderModel { expanded: !folder.expanded, ..folder }),
            );
        },
        _ => {},
    }
}

proof fn lemma_unique_submitted(state: StateModel)
    requires
        unique_titles(state.data),
    ensures
        unique_titles(inline_edit_submitted(state).data),
{
    match state.inline_edit {
        None => {},
        Some(edit) => match edit.kind {
            EditKindModel::CreateFolder(parent) => {
                let title = trim_text(edit.value);
                assert(unique_below(new_folder(title)));
                if folder_at(state.data, parent) is Some && !has_title(
                    folder_at(state.data, parent)->0.children,
                    title,
                ) {
                    unique_with_node_in(state.data, parent, new_folder(title));
                }
            },
            EditKindModel::Rename(path) => {
                let title = trim_text(edit.value);
                unique_node_at(state.data, path);
                if path.len() > 0 && folder_at(state.data, path.drop_last()) is Some && node_at(
                    state.data,
                    path,
                ) is Some {
                    let parent = folder_at(state.data, path.drop_last())->0;
                    if title == path.last() || !has_title(parent.children, title) {
                        unique_with_node(
                            state.data,
                            path,
                            node_at(state.data, path)->0.with_title(title),
                        );
                    }
                }
            },
        },
    }
}

proof fn lemma_unique_created(
    state: StateModel,
    tab_id: u64,
    parent: Seq<Seq<char>>,
    command: LaunchModel,
)
    requires
        unique_titles(state.data),
    ensures
        unique_titles(command_created(state, tab_id, parent, command).0.data),
{
    let title = trim_text(command.title);
    if folder_at(state.data, parent) is Some && !has_title(
        folder_at(state.data, parent)->0.children,
        title,
    ) {
        unique_with_node_in(
            state.data,
            parent,
            NodeModel::Command(LaunchModel { title, ..command }),
        );
    }
}

proof fn lemma_unique_replaced(
    state: StateModel,
    tab_id: u64,
    path: Seq<Seq<char>>,
    command: LaunchModel,
)
    requires
        unique_titles(state.data),
        trim_text(command.title) == command.title,
    ensures
        unique_titles(command_replaced(state, tab_id, path, command).0.data),
{
    if path.len() > 0 && folder_at(state.data, path.drop_last()) is Some {
        let parent = folder_at(state.data, path.drop_last())->0;
        if command.title == path.last() || !has_title(parent.children, command.title) {
            unique_with_node(state.data, path, NodeModel::Command(command));
        }
    }
}

proof fn lemma_unique_menu(state: StateModel, path: Seq<Seq<char>>)
    requires
        unique_titles(state.data),
    ensures
        unique_titles(node_removed(state, path).data),
        unique_titles(command_duplicated(state, path).data),
{
    unique_without_node(state.data, path);
    match node_at(state.data, path) {
        Some(NodeModel::Command(command)) => {
            let parent = folder_at(state.data, path.drop_last())->0;
            duplicate_title_is_free(parent.children, command.title);
            let title = duplicate_title_of(parent.children, command.title);
            unique_with_node_in(
                state.data,
                path.drop_last(),
                NodeModel::Command(LaunchModel { title, ..command }),
            );
        },
        _ => {},
    }
}

/// No event gives two entries of one folder the same title. A request to
/// replace a command must come with a trimmed title, as the editor's do.
pub proof fn titles_stay_unique(
    state: StateModel,
    event: QuickLaunchIntent,
    ctx: QuickLaunchCtx,
    token: Arc<AtomicBool>,
)
    requires
        unique_titles(state.data),
        event matches QuickLaunchIntent::WizardSaveRequested(request) ==> (
        request.target is Edit ==> trim_text(request.command@.title) == request.command@.title),
    ensures
        unique_titles(reduced(state, event, ctx, token).0.data),
{
    match event {
        QuickLaunchIntent::BackgroundReleased => {
            lemma_unique_drag_finished(state);
            lemma_unique_drag_finished(
                StateModel {
                    drop_target: Some(DropModel::Root),
                    ..state
                },
            );
        },
        QuickLaunchIntent::NodeReleased { path } => {
            lemma_unique_drag_finished(state);
            lemma_unique_opened(drag_finished(state).0.data, texts(path@));
        },
        QuickLaunchIntent::HeaderCreateFolder => {
            lemma_unique_opened(
                state.data,
                selected_parent(state),
            );
        },
        QuickLaunchIntent::DeleteSelected => {
            if state.selected_path is Some {
                lemma_unique_menu(state, state.selected_path->0);
            }
        },
        QuickLaunchIntent::InlineEditSubmit => {
            lemma_unique_submitted(state);
        },
        QuickLaunchIntent::WizardSaveRequested(request) => match request.target {
            QuickLaunchWizardSaveTarget::Create { parent_path } => {
                lemma_unique_created(
                    state,
                    request.tab_id,
                    texts(parent_path@),
                    request.command@,
                );
            },
            QuickLaunchWizardSaveTarget::Edit { path } => {
                lemma_unique_replaced(state, request.tab_id, texts(path@), request.command@);
            },
        },
        QuickLaunchIntent::WizardSave { tab_id } => {
            let editor = state.wizard[tab_id];
            if command_of(editor) is Ok {
                saved_command_is_tidy(editor);
                let command = command_of(editor)->Ok_0;
                match editor.mode {
                    ModeModel::Create(parent) => {
                        lemma_unique_created(state, tab_id, parent, command);
                    },
                    ModeModel::Edit(path) => {
                        lemma_unique_replaced(state, tab_id, path, command);
                    },
                }
            }
        },
        QuickLaunchIntent::ContextMenuAction(action) => {
            if state.context_menu is Some {
                let closed = StateModel { context_menu: None, ..state };
                let target = state.context_menu->0.target;
                lemma_unique_opened(
                    state.data,
                    menu_parent(target),
                );
                match target {
                    MenuTarget::Background => {},
                    MenuTarget::Folder(path) => {
                        lemma_unique_menu(closed, path);
                    },
                    MenuTarget::Command(path) => {
                        lemma_unique_menu(closed, path);
                    },
                }
            }
        },
        _ => {},
    }
}

/// A launch that was canceled opens nothing: its report is passed over, and
/// the launch is over.
pub proof fn canceled_launch_opens_nothing(
    state: StateModel,
    path: Seq<Seq<char>>,
    outcome: QuickLaunchSetupOutcome,
)
    requires
        state.launching.contains_key(path),
        outcome matches QuickLaunchSetupOutcome::Prepared(launch) && launch.launch_id
            == state.launching[path].id,
    ensures
        setup_completed(launch_canceled(state, path), outcome).1 is Idle,
        setup_completed(launch_canceled(state, path), outcome).0.launching == launches_without_id(
            state.launching,
            state.launching[path].id,
        ),
{
    let id = state.launching[path].id;
    let canceled = launch_canceled(state, path);
    assert(canceled.canceled_launches.last() == id);
    assert(canceled.canceled_launches.contains(id));
}

/// While the tree is being stored, no tick asks to store it again.
pub proof fn one_store_at_a_time(state: StateModel)
    requires
        state.persist_in_flight,
    ensures
        !(ticked_state(state).1 is Persist),
        ticked_state(state).0.persist_in_flight,
{
}

/// A changed tree that is not being stored is handed out at the next tick, as
/// it is.
pub proof fn dirty_tree_is_stored(state: StateModel)
    requires
        state.dirty,
        !state.persist_in_flight,
    ensures
        ticked_state(state).1 == TaskModel::Persist(state.data),
        ticked_state(state).0.persist_in_flight,
        ticked_state(state).0.dirty,
{
}

/// Whatever happens, the ids of launches only go up.
pub proof fn launch_ids_go_up(
    state: StateModel,
    event: QuickLaunchIntent,
    ctx: QuickLaunchCtx,
    token: Arc<AtomicBool>,
)
    requires
        event is NodeReleased ==> state.next_launch_id < u64::MAX,
    ensures
        state.next_launch_id <= reduced(state, event, ctx, token).0.next_launch_id,
        reduced(state, event, ctx, token).1 matches TaskModel::Launch(_, path, id, _, cancel) ==> id
            == state.next_launch_id && id < reduced(
            state,
            event,
            ctx,
            token,
        ).0.next_launch_id && reduced(state, event, ctx, token).0.launching.contains_key(path)
            && reduced(state, event, ctx, token).0.launching[path].id == id && reduced(
            state,
            event,
            ctx,
            token,
        ).0.launching[path].cancel == cancel,
{
}

/// How a changed tree gets stored: a tick hands it out and leaves it changed and
/// being stored, so that a further tick does not hand it out again; after a
/// failure the next tick hands it out once more; after a success it is no longer
/// changed. None of this touches the tree.
pub proof fn storing_a_changed_tree(
    state: StateModel,
    ctx: QuickLaunchCtx,
    token: Arc<AtomicBool>,
    message: String,
)
    requires
        state.dirty,
        !state.persist_in_flight,
    ensures
        ({
            let (begun, task) = reduced(state, QuickLaunchIntent::Tick, ctx, token);
            let (again, second) = reduced(begun, QuickLaunchIntent::Tick, ctx, token);
            let (failed, none) = reduced(
                begun,
                QuickLaunchIntent::PersistFailed(message),
                ctx,
                token,
            );
            let (retried, third) = reduced(failed, QuickLaunchIntent::Tick, ctx, token);
            let (stored, idle) = reduced(begun, QuickLaunchIntent::PersistCompleted, ctx, token);
            &&& task == TaskModel::Persist(state.data)
            &&& begun.persist_in_flight && begun.dirty && begun.data == state.data
            &&& second is Idle
            &&& again.persist_in_flight && again.dirty && again.data == state.data
            &&& none is Idle
            &&& !failed.persist_in_flight && failed.dirty && failed.data == state.data
            &&& third == TaskModel::Persist(state.data)
            &&& retried.persist_in_flight
            &&& idle is Idle
            &&& !stored.persist_in_flight && !stored.dirty && stored.data == state.data
        }),
{
}

/// Kill closes the menu and hands out the flag of the launch at its target; the
/// report of that launch will open nothing.
pub proof fn kill_hands_out_the_flag(
    state: StateModel,
    ctx: QuickLaunchCtx,
    path: Seq<Seq<char>>,
)
    requires
        state.context_menu matches Some(menu) && menu.target == MenuTarget::Command(path),
        state.launching.contains_key(path),
    ensures
        ({
            let (after, task) = menu_chosen(state, ContextMenuAction::Kill, ctx);
            &&& task == TaskModel::Cancel(state.launching[path].cancel)
            &&& after.context_menu is None
            &&& after.canceled_launches.contains(state.launching[path].id)
            &&& after.data == state.data
            &&& after.dirty == state.dirty
            &&& after.launching == state.launching
        }),
{
    let id = state.launching[path].id;
    assert(state.canceled_launches.push(id).last() == id);
}

} // verus!
