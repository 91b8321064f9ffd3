//! What each event does to the tree of saved commands, as its user sees it.

use std::sync::atomic::AtomicBool;
use std::sync::Arc;

use vstd::prelude::*;

use crate::geometry::Point;
use crate::quick_launch::event::{
    ContextMenuAction, EffectModel, QuickLaunchCtx, QuickLaunchIntent,
    QuickLaunchWizardSaveRequest, QuickLaunchWizardSaveTarget, TaskModel,
};
use crate::quick_launch::frame_laws::{
    adding_leaves_the_others, lies_apart, removed_entry_is_gone, removing_leaves_the_others,
    replaced_entry_is_found, replacing_leaves_the_others,
};
use crate::quick_launch::launches::{arrives, launches_moved, LaunchInfo};
use crate::quick_launch::reducer_laws::{
    command_is_no_folder, duplicate_title_is_free, first_free_number_exists, move_keeps_the_entry,
};
use crate::quick_launch::services::{command_of, saved_command_is_tidy};
use crate::quick_launch::state::{
    DragModel, DropModel, EditKindModel, EditModel, MenuTarget, StateModel,
};
use crate::quick_launch::transitions::{
    duplicate_title_of, is_first_free, movable, numbered_copy_title, reduced, tree_moved,
};
use crate::quick_launch::tree::{
    child_position_is_first, folder_at, has_title, node_at, with_node, FolderModel, NodeModel,
};
use crate::quick_launch::tree_laws::{
    appended_node_found, removal_keeps_folder, unique_at, unique_titles, with_node_in, without_node,
};
use crate::quick_launch::types::{LaunchModel, NodePath};
use crate::quick_launch::wizard::ModeModel;
use crate::text::{decimal_text, texts, trim_text};

verus! {

/// Whether all entries are as they were, but for the one of the given name in a
/// folder, what lies in it and the folders around it.
pub open spec fn others_stay(
    before: FolderModel,
    after: FolderModel,
    folder: Seq<Seq<char>>,
    name: Seq<char>,
) -> bool {
    forall|other: Seq<Seq<char>>|
        lies_apart(other, folder, name) ==> #[trigger] node_at(after, other) == node_at(
            before,
            other,
        )
}

/// Whether a title can be given to an entry of a folder: it is not empty, and no
/// other entry of the folder has it.
pub open spec fn is_free(data: FolderModel, folder: Seq<Seq<char>>, title: Seq<char>) -> bool {
    &&& title.len() > 0
    &&& folder_at(data, folder) is Some
    &&& !has_title(folder_at(data, folder)->0.children, title)
}

proof fn lemma_edit_is_stored(
    state: StateModel,
    after: StateModel,
    path: Seq<Seq<char>>,
    command: LaunchModel,
)
    requires
        node_at(state.data, path) is Some,
        command.title == path.last() || !has_title(
            folder_at(state.data, path.drop_last())->0.children,
            command.title,
        ),
        after.data == with_node(
            state.data,
            path,
            NodeModel::Command(command),
        ),
    ensures
        node_at(after.data, path.drop_last().push(command.title)) == Some(
            NodeModel::Command(command),
        ),
        forall|other: Seq<Seq<char>>|
            lies_apart(other, path.drop_last(), path.last()) && lies_apart(
                other,
                path.drop_last(),
                command.title,
            ) ==> #[trigger] node_at(after.data, other) == node_at(state.data, other),
{
    let node = NodeModel::Command(command);
    replaced_entry_is_found(state.data, path, node);
    assert forall|other: Seq<Seq<char>>|
        lies_apart(other, path.drop_last(), path.last()) && lies_apart(
            other,
            path.drop_last(),
            command.title,
        ) implies #[trigger] node_at(after.data, other) == node_at(state.data, other) by {
        replacing_leaves_the_others(state.data, path, node, other);
    }
}

/// Saving the editor of an existing command stores the command that stands in
/// its fields, with all that it runs, under its title; every other entry stays.
/// The tab closes only then.
pub proof fn saved_edit_is_stored(
    state: StateModel,
    tab_id: u64,
    path: Seq<Seq<char>>,
    command: LaunchModel,
    ctx: QuickLaunchCtx,
    token: Arc<AtomicBool>,
)
    requires
        state.wizard.contains_key(tab_id),
        state.wizard[tab_id].mode == ModeModel::Edit(path),
        command_of(state.wizard[tab_id]) matches Ok(saved) && saved == command,
    ensures
        ({
            let (after, task) = reduced(
                state,
                QuickLaunchIntent::WizardSave { tab_id },
                ctx,
                token,
            );
            let stored = task == TaskModel::Effect(EffectModel::CloseTabRequested(tab_id));
            &&& stored == (path.len() > 0 && node_at(state.data, path) is Some && (command.title
                == path.last() || is_free(state.data, path.drop_last(), command.title)))
            &&& stored ==> node_at(after.data, path.drop_last().push(command.title)) == Some(
                NodeModel::Command(command),
            )
            &&& stored ==> after.dirty && forall|other: Seq<Seq<char>>|
                lies_apart(other, path.drop_last(), path.last()) && lies_apart(
                    other,
                    path.drop_last(),
                    command.title,
                ) ==> #[trigger] node_at(after.data, other) == node_at(state.data, other)
            &&& !stored ==> after.data == state.data && after.dirty == state.dirty && task is Idle
                && after.wizard[tab_id].error is Some
        }),
{
    saved_command_is_tidy(state.wizard[tab_id]);
    let (after, task) = reduced(state, QuickLaunchIntent::WizardSave { tab_id }, ctx, token);
    if path.len() > 0 && folder_at(state.data, path.drop_last()) is Some {
        child_position_is_first(
            folder_at(state.data, path.drop_last())->0.children,
            path.last(),
        );
    }
    if path.len() > 0 && node_at(state.data, path) is Some && (command.title == path.last()
        || is_free(state.data, path.drop_last(), command.title)) {
        lemma_edit_is_stored(state, after, path, command);
    }
}

/// A request to store a command in the place of another stores that command,
/// with all that it runs. Said of a trimmed title, as the editor's are.
pub proof fn requested_edit_is_stored(
    state: StateModel,
    request: QuickLaunchWizardSaveRequest,
    at: NodePath,
    ctx: QuickLaunchCtx,
    token: Arc<AtomicBool>,
)
    requires
        request.target == (QuickLaunchWizardSaveTarget::Edit { path: at }),
        trim_text(request.command@.title) == request.command@.title,
    ensures
        ({
            let (after, task) = reduced(
                state,
                QuickLaunchIntent::WizardSaveRequested(request),
                ctx,
                token,
            );
            let path = texts(at@);
            let command = request.command@;
            task == TaskModel::Effect(EffectModel::CloseTabRequested(request.tab_id)) ==> {
                &&& node_at(state.data, path) is Some
                &&& node_at(after.data, path.drop_last().push(command.title)) == Some(
                    NodeModel::Command(command),
                )
                &&& after.dirty
                &&& forall|other: Seq<Seq<char>>|
                    lies_apart(other, path.drop_last(), path.last()) && lies_apart(
                        other,
                        path.drop_last(),
                        command.title,
                    ) ==> #[trigger] node_at(after.data, other) == node_at(state.data, other)
            }
        }),
{
    let (after, task) = reduced(
        state,
        QuickLaunchIntent::WizardSaveRequested(request),
        ctx,
        token,
    );
    let path = texts(at@);
    if task == TaskModel::Effect(EffectModel::CloseTabRequested(request.tab_id)) {
        lemma_edit_is_stored(state, after, path, request.command@);
    }
}

proof fn lemma_added(
    before: FolderModel,
    after: FolderModel,
    folder: Seq<Seq<char>>,
    node: NodeModel,
)
    requires
        folder_at(before, folder) is Some,
        !has_title(folder_at(before, folder)->0.children, node.title()),
        after == with_node_in(before, folder, node),
    ensures
        node_at(after, folder.push(node.title())) == Some(node),
        others_stay(before, after, folder, node.title()),
{
    appended_node_found(before, folder, node);
    assert forall|other: Seq<Seq<char>>|
        lies_apart(other, folder, node.title()) implies #[trigger] node_at(after, other) == node_at(
        before,
        other,
    ) by {
        adding_leaves_the_others(before, folder, node, other);
    }
}

/// Saving the editor of a new command puts the command that stands in its fields
/// into the folder that the editor was opened for; every other entry stays. The
/// tab closes only then.
pub proof fn saved_command_is_added(
    state: StateModel,
    tab_id: u64,
    parent: Seq<Seq<char>>,
    command: LaunchModel,
    ctx: QuickLaunchCtx,
    token: Arc<AtomicBool>,
)
    requires
        state.wizard.contains_key(tab_id),
        state.wizard[tab_id].mode == ModeModel::Create(parent),
        command_of(state.wizard[tab_id]) matches Ok(saved) && saved == command,
    ensures
        ({
            let (after, task) = reduced(
                state,
                QuickLaunchIntent::WizardSave { tab_id },
                ctx,
                token,
            );
            let stored = task == TaskModel::Effect(EffectModel::CloseTabRequested(tab_id));
            &&& stored == is_free(state.data, parent, command.title)
            &&& stored ==> after.dirty && node_at(after.data, parent.push(command.title)) == Some(
                NodeModel::Command(command),
            ) && others_stay(state.data, after.data, parent, command.title)
            &&& !stored ==> after.data == state.data && after.dirty == state.dirty && task is Idle
                && after.wizard[tab_id].error is Some
        }),
{
    saved_command_is_tidy(state.wizard[tab_id]);
    let (after, task) = reduced(state, QuickLaunchIntent::WizardSave { tab_id }, ctx, token);
    if is_free(state.data, parent, command.title) {
        assert(LaunchModel { title: command.title, ..command } == command);
        lemma_added(state.data, after.data, parent, NodeModel::Command(command));
    }
}

/// A request to store a new command puts it into its folder, with all that it
/// runs and its title trimmed.
pub proof fn requested_command_is_added(
    state: StateModel,
    request: QuickLaunchWizardSaveRequest,
    at: NodePath,
    ctx: QuickLaunchCtx,
    token: Arc<AtomicBool>,
)
    requires
        request.target == (QuickLaunchWizardSaveTarget::Create { parent_path: at }),
    ensures
        ({
            let (after, task) = reduced(
                state,
                QuickLaunchIntent::WizardSaveRequested(request),
                ctx,
                token,
            );
            let parent = texts(at@);
            let title = trim_text(request.command@.title);
            let stored = task == TaskModel::Effect(EffectModel::CloseTabRequested(request.tab_id));
            &&& stored == is_free(state.data, parent, title)
            &&& stored ==> after.dirty && node_at(after.data, parent.push(title)) == Some(
                NodeModel::Command(LaunchModel { title, spec: request.command@.spec }),
            ) && others_stay(state.data, after.data, parent, title)
            &&& !stored ==> after.data == state.data && task is Idle
        }),
{
    let (after, task) = reduced(
        state,
        QuickLaunchIntent::WizardSaveRequested(request),
        ctx,
        token,
    );
    let parent = texts(at@);
    let title = trim_text(request.command@.title);
    if is_free(state.data, parent, title) {
        lemma_added(
            state.data,
            after.data,
            parent,
            NodeModel::Command(LaunchModel { title, spec: request.command@.spec }),
        );
    }
}

/// Why an editor was not saved stands in it: its folder is gone, its entry is
/// gone, or its title is empty or taken.
pub proof fn refused_save_says_why(
    state: StateModel,
    tab_id: u64,
    command: LaunchModel,
    ctx: QuickLaunchCtx,
    token: Arc<AtomicBool>,
)
    requires
        state.wizard.contains_key(tab_id),
        command_of(state.wizard[tab_id]) matches Ok(saved) && saved == command,
    ensures
        ({
            let after = reduced(state, QuickLaunchIntent::WizardSave { tab_id }, ctx, token).0;
            let error = after.wizard[tab_id].error;
            let taken = Some("Title already exists in this folder."@);
            match state.wizard[tab_id].mode {
                ModeModel::Create(parent) => match folder_at(state.data, parent) {
                    None => error == Some("Missing target folder."@),
                    Some(folder) => has_title(folder.children, command.title) ==> error == taken,
                },
                ModeModel::Edit(path) => {
                    let parent = folder_at(state.data, path.drop_last());
                    &&& path.len() == 0 || parent is None ==> error == Some(
                        "Missing parent folder."@,
                    )
                    &&& path.len() > 0 && parent is Some && command.title != path.last()
                        && has_title(parent->0.children, command.title) ==> error == taken
                    &&& path.len() > 0 && parent is Some && !has_title(
                        parent->0.children,
                        command.title,
                    ) && node_at(state.data, path) is None ==> error == Some(
                        "Command no longer exists."@,
                    )
                },
            }
        }),
{
    saved_command_is_tidy(state.wizard[tab_id]);
}

/// A new folder is put, open and empty, into the folder that it was asked for,
/// under the title that was typed, trimmed; every other entry stays. A title that
/// is empty or taken is refused in the field, with what was typed still there.
pub proof fn new_folder_is_added(
    state: StateModel,
    edit: EditModel,
    parent: Seq<Seq<char>>,
    ctx: QuickLaunchCtx,
    token: Arc<AtomicBool>,
)
    requires
        state.inline_edit == Some(edit),
        edit.kind == EditKindModel::CreateFolder(parent),
        folder_at(state.data, parent) is Some,
    ensures
        ({
            let (after, task) = reduced(state, QuickLaunchIntent::InlineEditSubmit, ctx, token);
            let title = trim_text(edit.value);
            &&& task is Idle
            &&& is_free(state.data, parent, title) ==> {
                &&& node_at(after.data, parent.push(title)) == Some(
                    NodeModel::Folder(
                        FolderModel { title, expanded: true, children: Seq::empty() },
                    ),
                )
                &&& others_stay(state.data, after.data, parent, title)
                &&& after.dirty
                &&& after.inline_edit is None
            }
            &&& !is_free(state.data, parent, title) ==> {
                &&& after.data == state.data && after.dirty == state.dirty
                &&& after.inline_edit matches Some(field) && field.kind == edit.kind && field.value
                    == edit.value && field.id == edit.id && field.error == Some(
                    if title.len() == 0 {
                        "Title cannot be empty."@
                    } else {
                        "Title already exists in this folder."@
                    },
                )
            }
        }),
{
    let after = reduced(state, QuickLaunchIntent::InlineEditSubmit, ctx, token).0;
    let title = trim_text(edit.value);
    if is_free(state.data, parent, title) {
        lemma_added(
            state.data,
            after.data,
            parent,
            NodeModel::Folder(FolderModel { title, expanded: true, children: Seq::empty() }),
        );
    }
}

/// A renamed entry is found under its new title, with everything else of it as it
/// was, and all other entries stay. The selection follows where the entry was
/// selected. A title that is empty or taken is refused in the field.
pub proof fn renamed_entry_keeps_its_content(
    state: StateModel,
    edit: EditModel,
    path: Seq<Seq<char>>,
    ctx: QuickLaunchCtx,
    token: Arc<AtomicBool>,
)
    requires
        state.inline_edit == Some(edit),
        edit.kind == EditKindModel::Rename(path),
        node_at(state.data, path) is Some,
    ensures
        ({
            let (after, task) = reduced(state, QuickLaunchIntent::InlineEditSubmit, ctx, token);
            let title = trim_text(edit.value);
            let folder = path.drop_last();
            let renamed = folder.push(title);
            let can = title.len() > 0 && (title == path.last() || is_free(
                state.data,
                folder,
                title,
            ));
            &&& task is Idle
            &&& can ==> {
                &&& match node_at(state.data, path)->0 {
                    NodeModel::Folder(old) => node_at(after.data, renamed) matches Some(
                        NodeModel::Folder(new),
                    ) && new.title == title && new.expanded == old.expanded && new.children
                        == old.children,
                    NodeModel::Command(old) => node_at(after.data, renamed) matches Some(
                        NodeModel::Command(new),
                    ) && new.title == title && new.spec == old.spec,
                }
                &&& title != path.last() && unique_titles(state.data) ==> node_at(
                    after.data,
                    path,
                ) is None
                &&& forall|other: Seq<Seq<char>>|
                    lies_apart(other, folder, path.last()) && lies_apart(other, folder, title)
                        ==> #[trigger] node_at(after.data, other) == node_at(state.data, other)
                &&& after.selected_path == if state.selected_path == Some(path) {
                    Some(renamed)
                } else {
                    state.selected_path
                }
                &&& after.dirty
                &&& after.inline_edit is None
            }
            &&& !can ==> {
                &&& after.data == state.data && after.dirty == state.dirty
                &&& after.inline_edit matches Some(field) && field.kind == edit.kind && field.value
                    == edit.value && field.error == Some(
                    if title.len() == 0 {
                        "Title cannot be empty."@
                    } else {
                        "Title already exists in this folder."@
                    },
                )
            }
        }),
{
    let after = reduced(state, QuickLaunchIntent::InlineEditSubmit, ctx, token).0;
    let title = trim_text(edit.value);
    let folder = path.drop_last();
    let can = title.len() > 0 && (title == path.last() || is_free(state.data, folder, title));
    child_position_is_first(folder_at(state.data, folder)->0.children, path.last());
    if can {
        let node = node_at(state.data, path)->0.with_title(title);
        replaced_entry_is_found(state.data, path, node);
        if unique_titles(state.data) {
            unique_at(state.data, folder);
        }
        assert forall|other: Seq<Seq<char>>|
            lies_apart(other, folder, path.last()) && lies_apart(
                other,
                folder,
                title,
            ) implies #[trigger] node_at(after.data, other) == node_at(state.data, other) by {
            replacing_leaves_the_others(state.data, path, node, other);
        }
    }
}

/// The launches of an entry that has become another path follow it: each is then
/// found under the new path, with its id and its flag, and nowhere else.
pub proof fn launches_follow_their_entry(
    launches: Map<Seq<Seq<char>>, LaunchInfo>,
    source: Seq<Seq<char>>,
    target: Seq<Seq<char>>,
    below: Seq<Seq<char>>,
    other: Seq<Seq<char>>,
)
    requires
        launches.contains_key(source + below),
        launches.contains_key(other),
        !source.is_prefix_of(other),
        !target.is_prefix_of(other),
    ensures
        ({
            let moved = launches_moved(launches, source, target);
            &&& moved.contains_key(target + below) && moved[target + below] == launches[source
                + below]
            &&& moved.contains_key(other) && moved[other] == launches[other]
            &&& !target.is_prefix_of(source + below) ==> !moved.contains_key(source + below)
        }),
{
    let key = target + below;
    assert(target =~= key.subrange(0, target.len() as int));
    assert(key.skip(target.len() as int) =~= below);
    assert(arrives(launches, source, target, key));
    assert(source =~= (source + below).subrange(0, source.len() as int));
}

/// A renamed or moved entry takes its launches along.
pub proof fn renaming_takes_launches_along(
    state: StateModel,
    edit: EditModel,
    path: Seq<Seq<char>>,
    ctx: QuickLaunchCtx,
    token: Arc<AtomicBool>,
)
    requires
        state.inline_edit == Some(edit),
        edit.kind == EditKindModel::Rename(path),
        path.len() > 0,
        is_free(state.data, path.drop_last(), trim_text(edit.value)),
        state.launching.contains_key(path),
    ensures
        ({
            let after = reduced(state, QuickLaunchIntent::InlineEditSubmit, ctx, token).0;
            let renamed = path.drop_last().push(trim_text(edit.value));
            &&& after.launching.contains_key(renamed)
            &&& after.launching[renamed] == state.launching[path]
        }),
{
    let renamed = path.drop_last().push(trim_text(edit.value));
    let none = Seq::<Seq<char>>::empty();
    assert(renamed =~= renamed.subrange(0, renamed.len() as int));
    assert(renamed.skip(renamed.len() as int) =~= none);
    assert(path + none =~= path);
    assert(arrives(state.launching, path, renamed, renamed));
}

/// Whether an entry can be moved into a folder: both are there, the folder is not
/// the one that holds it already, has no entry of its title, and does not lie in
/// the entry.
pub open spec fn can_move(
    data: FolderModel,
    source: Seq<Seq<char>>,
    target: Seq<Seq<char>>,
) -> bool {
    &&& source.len() > 0
    &&& node_at(data, source) is Some
    &&& folder_at(data, target) is Some
    &&& source.drop_last() != target
    &&& !has_title(folder_at(data, target)->0.children, source.last())
    &&& !source.is_prefix_of(target)
}

proof fn lemma_can_move(data: FolderModel, source: Seq<Seq<char>>, target: Seq<Seq<char>>)
    ensures
        can_move(data, source, target) == movable(data, source, target),
{
    if movable(data, source, target) && node_at(data, source)->0 is Command {
        command_is_no_folder(data, source, target);
    }
}

/// An entry that is dropped on a folder is found in it as it was, and is gone
/// from where it was; it is selected, and its launches come along. Where it
/// cannot be moved, nothing changes. Either way the drag is over and nothing is
/// launched.
pub proof fn dropped_entry_is_moved(
    state: StateModel,
    drag: DragModel,
    target: DropModel,
    over: NodePath,
    ctx: QuickLaunchCtx,
    token: Arc<AtomicBool>,
)
    requires
        state.drag == Some(drag),
        drag.active,
        state.drop_target == Some(target),
    ensures
        ({
            let (after, task) = reduced(
                state,
                QuickLaunchIntent::NodeReleased { path: over },
                ctx,
                token,
            );
            let source = drag.source;
            let folder = match target {
                DropModel::Root => Seq::empty(),
                DropModel::Folder(path) => path,
            };
            let moved = folder.push(source.last());
            &&& task is Idle
            &&& after.drag is None && after.drop_target is None && after.pressed_path is None
            &&& can_move(state.data, source, folder) ==> {
                &&& node_at(after.data, moved) == node_at(state.data, source)
                &&& after.selected_path == Some(moved)
                &&& after.dirty
                &&& state.launching.contains_key(source) ==> after.launching.contains_key(moved)
                    && after.launching[moved] == state.launching[source]
            }
            &&& !can_move(state.data, source, folder) ==> after.data == state.data
                && after.selected_path == state.selected_path && after.dirty == state.dirty
                && after.launching == state.launching
        }),
{
    let source = drag.source;
    let folder = target.path();
    lemma_can_move(state.data, source, folder);
    if can_move(state.data, source, folder) {
        let released = StateModel {
            drag: None,
            drop_target: None,
            pressed_path: None,
            ..state
        };
        move_keeps_the_entry(released, source, folder);
        let moved = folder.push(source.last());
        let none = Seq::<Seq<char>>::empty();
        assert(moved =~= moved.subrange(0, moved.len() as int));
        assert(moved.skip(moved.len() as int) =~= none);
        assert(source + none =~= source);
        if state.launching.contains_key(source) {
            assert(arrives(state.launching, source, moved, moved));
        }
    }
}

/// Moving an entry leaves every entry alone that lies apart from where it was and
/// from where it goes.
pub proof fn moving_leaves_the_others(
    data: FolderModel,
    source: Seq<Seq<char>>,
    target: Seq<Seq<char>>,
    other: Seq<Seq<char>>,
)
    requires
        can_move(data, source, target),
        lies_apart(other, source.drop_last(), source.last()),
        lies_apart(other, target, source.last()),
    ensures
        node_at(tree_moved(data, source, target), other)
            == node_at(data, other),
{
    child_position_is_first(folder_at(data, source.drop_last())->0.children, source.last());
    removing_leaves_the_others(data, source, other);
    removal_keeps_folder(data, source, target);
    adding_leaves_the_others(without_node(data, source), target, node_at(data, source)->0, other);
}

/// A drop on the background goes to the root.
pub proof fn background_drop_goes_to_the_root(
    state: StateModel,
    drag: DragModel,
    ctx: QuickLaunchCtx,
    token: Arc<AtomicBool>,
)
    requires
        state.drag == Some(drag),
        drag.active,
        can_move(state.data, drag.source, Seq::empty()),
    ensures
        ({
            let after = reduced(state, QuickLaunchIntent::BackgroundReleased, ctx, token).0;
            &&& node_at(after.data, seq![drag.source.last()]) == node_at(state.data, drag.source)
            &&& after.drag is None && after.drop_target is None
            &&& after.dirty
        }),
{
    let root = Seq::<Seq<char>>::empty();
    lemma_can_move(state.data, drag.source, root);
    let released = StateModel { drag: None, drop_target: None, pressed_path: None, ..state };
    move_keeps_the_entry(released, drag.source, root);
    assert(root.push(drag.source.last()) =~= seq![drag.source.last()]);
}

/// The target of a drag follows the cursor: the folder under it, the folder that
/// holds the command under it, or the root. A folder is never aimed at itself or
/// at what lies in it.
pub proof fn drag_aims_at_what_is_hovered(
    state: StateModel,
    drag: DragModel,
    path: NodePath,
    ctx: QuickLaunchCtx,
    token: Arc<AtomicBool>,
)
    requires
        state.drag == Some(drag),
        drag.active,
        node_at(state.data, drag.source) is Some,
        !ctx.sidebar_is_resizing,
    ensures
        ({
            let after = reduced(
                state,
                QuickLaunchIntent::NodeHovered { path },
                ctx,
                token,
            ).0;
            let over = texts(path@);
            let aim = match node_at(state.data, over) {
                Some(NodeModel::Folder(_)) => over,
                Some(NodeModel::Command(_)) => over.drop_last(),
                None => Seq::empty(),
            };
            let inside = node_at(state.data, drag.source)->0 is Folder && drag.source.is_prefix_of(
                aim,
            );
            &&& after.hovered_path == Some(over)
            &&& after.data == state.data
            &&& inside ==> after.drop_target is None
            &&& !inside ==> match after.drop_target {
                Some(DropModel::Root) => aim.len() == 0,
                Some(DropModel::Folder(target)) => target == aim && aim.len() > 0,
                None => false,
            }
        }),
{
    let over = texts(path@);
    if over.len() == 1 {
        assert(over.drop_last() =~= Seq::empty());
    }
    if over.len() > 0 && node_at(state.data, over) is Some {
        assert(over.drop_last().len() == over.len() - 1);
    }
}

/// A drag begins where the button is pressed, and is under way once the cursor
/// has gone far enough; from then on it stays so.
pub proof fn drag_begins_where_pressed(
    state: StateModel,
    path: NodePath,
    position: Point,
    past_threshold: bool,
    ctx: QuickLaunchCtx,
    token: Arc<AtomicBool>,
)
    ensures
        ({
            let pressed = reduced(state, QuickLaunchIntent::NodePressed { path }, ctx, token).0;
            let moved = reduced(
                state,
                QuickLaunchIntent::CursorMoved { position, past_threshold },
                ctx,
                token,
            ).0;
            &&& pressed.drag matches Some(drag) && drag.source == texts(path@) && drag.origin
                == state.cursor && !drag.active
            &&& pressed.pressed_path == Some(texts(path@))
            &&& pressed.selected_path == Some(texts(path@))
            &&& pressed.data == state.data
            &&& moved.cursor == position
            &&& moved.data == state.data
            &&& state.drag is None ==> moved.drag is None
            &&& state.drag matches Some(drag) ==> (moved.drag matches Some(after) && after.source
                == drag.source && after.origin == drag.origin && after.active == (drag.active
                || past_threshold))
        }),
{
}

/// An entry that is removed is gone, and all others stay: a command by `Remove`,
/// a folder by `Delete`. The other way round nothing is removed.
pub proof fn menu_removes_its_entry(
    state: StateModel,
    path: Seq<Seq<char>>,
    ctx: QuickLaunchCtx,
    token: Arc<AtomicBool>,
)
    requires
        unique_titles(state.data),
        state.context_menu is Some,
        node_at(state.data, path) is Some,
    ensures
        ({
            let target = state.context_menu->0.target;
            let removed = reduced(
                state,
                QuickLaunchIntent::ContextMenuAction(ContextMenuAction::Remove),
                ctx,
                token,
            );
            let deleted = reduced(
                state,
                QuickLaunchIntent::ContextMenuAction(ContextMenuAction::Delete),
                ctx,
                token,
            );
            &&& removed.0.context_menu is None && deleted.0.context_menu is None
            &&& target == MenuTarget::Command(path) ==> {
                &&& node_at(removed.0.data, path) is None
                &&& others_stay(state.data, removed.0.data, path.drop_last(), path.last())
                &&& removed.0.dirty
                &&& deleted.0.data == state.data
            }
            &&& target == MenuTarget::Folder(path) ==> {
                &&& node_at(deleted.0.data, path) is None
                &&& others_stay(state.data, deleted.0.data, path.drop_last(), path.last())
                &&& deleted.0.dirty
                &&& removed.0.data == state.data
            }
            &&& target is Background ==> removed.0.data == state.data && deleted.0.data
                == state.data
        }),
{
    lemma_removed(state.data, path);
}

proof fn lemma_removed(data: FolderModel, path: Seq<Seq<char>>)
    requires
        unique_titles(data),
        node_at(data, path) is Some,
    ensures
        node_at(without_node(data, path), path) is None,
        others_stay(data, without_node(data, path), path.drop_last(), path.last()),
{
    unique_at(data, path.drop_last());
    removed_entry_is_gone(data, path);
    assert forall|other: Seq<Seq<char>>|
        lies_apart(other, path.drop_last(), path.last()) implies #[trigger] node_at(
        without_node(data, path),
        other,
    ) == node_at(data, other) by {
        removing_leaves_the_others(data, path, other);
    }
}

/// The selected folder is deleted, and nothing is selected any more; a selected
/// command stays.
pub proof fn selected_folder_is_deleted(
    state: StateModel,
    path: Seq<Seq<char>>,
    ctx: QuickLaunchCtx,
    token: Arc<AtomicBool>,
)
    requires
        unique_titles(state.data),
        state.selected_path == Some(path),
        node_at(state.data, path) is Some,
    ensures
        ({
            let after = reduced(state, QuickLaunchIntent::DeleteSelected, ctx, token).0;
            &&& node_at(state.data, path)->0 is Folder ==> node_at(after.data, path) is None
                && others_stay(state.data, after.data, path.drop_last(), path.last())
                && after.selected_path is None && after.dirty
            &&& node_at(state.data, path)->0 is Command ==> after == state
        }),
{
    lemma_removed(state.data, path);
}

/// A duplicated command stands beside the original and runs the same; the
/// original and all other entries stay. Its title says that it is a copy.
pub proof fn duplicate_runs_the_same(
    state: StateModel,
    path: Seq<Seq<char>>,
    command: LaunchModel,
    ctx: QuickLaunchCtx,
    token: Arc<AtomicBool>,
)
    requires
        state.context_menu is Some,
        state.context_menu->0.target == MenuTarget::Command(path),
        node_at(state.data, path) == Some(NodeModel::Command(command)),
    ensures
        ({
            let after = reduced(
                state,
                QuickLaunchIntent::ContextMenuAction(ContextMenuAction::Duplicate),
                ctx,
                token,
            ).0;
            let folder = path.drop_last();
            let children = folder_at(state.data, folder)->0.children;
            exists|title: Seq<char>|
                {
                    &&& #[trigger] node_at(after.data, folder.push(title)) == Some(
                        NodeModel::Command(LaunchModel { title, spec: command.spec }),
                    )
                    &&& !has_title(children, title)
                    &&& others_stay(state.data, after.data, folder, title)
                    &&& is_copy_title(children, command.title, title)
                } && after.dirty && after.context_menu is None
        }),
{
    let after = reduced(
        state,
        QuickLaunchIntent::ContextMenuAction(ContextMenuAction::Duplicate),
        ctx,
        token,
    ).0;
    let folder = path.drop_last();
    let children = folder_at(state.data, folder)->0.children;
    let title = duplicate_title_of(children, command.title);
    duplicate_title_is_free(children, command.title);
    lemma_added(
        state.data,
        after.data,
        folder,
        NodeModel::Command(LaunchModel { title, spec: command.spec }),
    );
    if has_title(children, command.title + " copy"@) {
        first_free_number_exists(children, command.title);
        let n = choose|n: nat| is_first_free(children, command.title, n);
        assert(is_first_free(children, command.title, n));
        assert(title == command.title + " copy ("@ + decimal_text(n) + ")"@);
        assert forall|m: nat| m < n implies has_title(
            children,
            #[trigger] numbered(command.title, m),
        ) by {
            assert(has_title(
                children,
                numbered_copy_title(command.title, m),
            ));
        }
        assert(title == numbered(command.title, n));
    }
}

/// The title of a further copy.
pub open spec fn numbered(title: Seq<char>, n: nat) -> Seq<char> {
    title + " copy ("@ + decimal_text(n) + ")"@
}

/// Whether a title is that of the next copy: the plain one where it is free, else
/// the one with the least number that is.
pub open spec fn is_copy_title(
    children: Seq<NodeModel>,
    original: Seq<char>,
    title: Seq<char>,
) -> bool {
    if has_title(children, original + " copy"@) {
        exists|n: nat| #[trigger]
            numbered(original, n) == title && forall|m: nat|
                m < n ==> has_title(children, #[trigger] numbered(original, m))
    } else {
        title == original + " copy"@
    }
}

/// A click on a folder opens or closes it and changes nothing else of the tree; a
/// click on a command launches that command, from where it stands, with the
/// settings of the terminals.
pub proof fn click_opens_or_launches(
    state: StateModel,
    path: NodePath,
    ctx: QuickLaunchCtx,
    token: Arc<AtomicBool>,
)
    requires
        state.drag matches Some(drag) ==> !drag.active,
        state.pressed_path == Some(texts(path@)),
        state.inline_edit is None,
        state.next_launch_id < u64::MAX,
        node_at(state.data, texts(path@)) is Some,
    ensures
        ({
            let at = texts(path@);
            let (after, task) = reduced(
                state,
                QuickLaunchIntent::NodeReleased { path },
                ctx,
                token,
            );
            &&& after.selected_path == Some(at)
            &&& after.pressed_path is None
            &&& after.context_menu is None
            &&& after.drag is None
            &&& match node_at(state.data, at)->0 {
                NodeModel::Folder(folder) => {
                    &&& task is Idle
                    &&& node_at(after.data, at) == Some(
                        NodeModel::Folder(FolderModel { expanded: !folder.expanded, ..folder }),
                    )
                    &&& others_stay(state.data, after.data, at.drop_last(), at.last())
                    &&& after.dirty
                    &&& after.launching == state.launching
                },
                NodeModel::Command(command) => {
                    &&& after.data == state.data && after.dirty == state.dirty
                    &&& state.launching.contains_key(at) ==> task is Idle && after.launching
                        == state.launching
                    &&& !state.launching.contains_key(at) ==> {
                        &&& task == TaskModel::Launch(
                            command,
                            at,
                            state.next_launch_id,
                            ctx.terminal_settings@,
                            token,
                        )
                        &&& after.launching.contains_key(at)
                        &&& after.launching[at].id == state.next_launch_id
                        &&& after.launching[at].cancel == token
                        &&& after.launching[at].launch_ticks == 0
                        &&& after.next_launch_id == state.next_launch_id + 1
                    }
                },
            }
        }),
{
    let at = texts(path@);
    let after = reduced(state, QuickLaunchIntent::NodeReleased { path }, ctx, token).0;
    match node_at(state.data, at)->0 {
        NodeModel::Folder(folder) => {
            let node = NodeModel::Folder(FolderModel { expanded: !folder.expanded, ..folder });
            child_position_is_first(folder_at(state.data, at.drop_last())->0.children, at.last());
            replaced_entry_is_found(state.data, at, node);
            assert(at.drop_last().push(at.last()) =~= at);
            assert forall|other: Seq<Seq<char>>|
                lies_apart(other, at.drop_last(), at.last()) implies #[trigger] node_at(
                after.data,
                other,
            ) == node_at(state.data, other) by {
                replacing_leaves_the_others(state.data, at, node, other);
            }
        },
        NodeModel::Command(_) => {},
    }
}

/// A button that is released over another entry than it was pressed on does
/// nothing to the tree and launches nothing.
pub proof fn release_elsewhere_is_no_click(
    state: StateModel,
    path: NodePath,
    ctx: QuickLaunchCtx,
    token: Arc<AtomicBool>,
)
    requires
        state.drag matches Some(drag) ==> !drag.active,
        state.pressed_path != Some(texts(path@)),
    ensures
        ({
            let (after, task) = reduced(
                state,
                QuickLaunchIntent::NodeReleased { path },
                ctx,
                token,
            );
            &&& task is Idle
            &&& after.data == state.data && after.launching == state.launching
                && after.selected_path == state.selected_path
            &&& after.pressed_path is None
        }),
{
}

/// A menu opens on the entry that was clicked, which is selected; on the
/// background it opens for the root, and nothing is selected.
pub proof fn menu_opens_on_its_entry(
    state: StateModel,
    path: NodePath,
    ctx: QuickLaunchCtx,
    token: Arc<AtomicBool>,
)
    ensures
        ({
            let at = texts(path@);
            let (entry, first) = reduced(
                state,
                QuickLaunchIntent::NodeRightClicked { path },
                ctx,
                token,
            );
            let (ground, second) = reduced(
                state,
                QuickLaunchIntent::BackgroundRightClicked,
                ctx,
                token,
            );
            &&& first is Idle && second is Idle
            &&& node_at(state.data, at) is None ==> entry == state
            &&& node_at(state.data, at) is Some ==> entry.selected_path == Some(at) && (
            entry.context_menu matches Some(menu) && menu.cursor == ctx.sidebar_cursor && menu.target
                == if node_at(state.data, at)->0 is Folder {
                MenuTarget::Folder(at)
            } else {
                MenuTarget::Command(at)
            })
            &&& ground.selected_path is None && (ground.context_menu matches Some(menu)
                && menu.cursor == ctx.sidebar_cursor && menu.target is Background)
            &&& entry.data == state.data && ground.data == state.data
        }),
{
}

/// What the menu of an entry begins: an editor on its command, a field with its
/// title, or a new entry in its folder. The menu closes, and the tree keeps its
/// entries.
pub proof fn menu_begins_what_it_says(
    state: StateModel,
    target: MenuTarget,
    path: Seq<Seq<char>>,
    ctx: QuickLaunchCtx,
    token: Arc<AtomicBool>,
)
    requires
        state.context_menu is Some,
        state.context_menu->0.target == target,
        target == MenuTarget::Folder(path) || target == MenuTarget::Command(path) || (
        target is Background && path.len() == 0),
        !(target is Background) ==> node_at(state.data, path) is Some,
        target is Folder ==> node_at(state.data, path)->0 is Folder,
        target is Command ==> node_at(state.data, path)->0 is Command,
    ensures
        ({
            let edit = reduced(
                state,
                QuickLaunchIntent::ContextMenuAction(ContextMenuAction::Edit),
                ctx,
                token,
            );
            let rename = reduced(
                state,
                QuickLaunchIntent::ContextMenuAction(ContextMenuAction::Rename),
                ctx,
                token,
            );
            let folder = reduced(
                state,
                QuickLaunchIntent::ContextMenuAction(ContextMenuAction::CreateFolder),
                ctx,
                token,
            );
            let command = reduced(
                state,
                QuickLaunchIntent::ContextMenuAction(ContextMenuAction::CreateCommand),
                ctx,
                token,
            );
            let into = if target is Command {
                path.drop_last()
            } else {
                path
            };
            &&& edit.0.context_menu is None && rename.0.context_menu is None
                && folder.0.context_menu is None && command.0.context_menu is None
            &&& edit.0.data == state.data && rename.0.data == state.data && command.0.data
                == state.data
            &&& target is Command ==> edit.1 == TaskModel::Effect(
                EffectModel::OpenWizardEditTab(path, node_at(state.data, path)->0->Command_0),
            )
            &&& !(target is Command) ==> edit.1 is Idle
            &&& target is Background ==> rename.1 is Idle && rename.0.inline_edit
                == state.inline_edit
            &&& !(target is Background) ==> rename.1 == TaskModel::Focus(ctx.fresh_widget_id) && (
            rename.0.inline_edit matches Some(field) && field.kind == EditKindModel::Rename(path)
                && field.value == node_at(state.data, path)->0.title() && field.error is None
                && field.id == ctx.fresh_widget_id)
            &&& folder.1 == TaskModel::Focus(ctx.fresh_widget_id) && (
            folder.0.inline_edit matches Some(field) && field.kind == EditKindModel::CreateFolder(
                into,
            ) && field.value.len() == 0 && field.error is None && field.id == ctx.fresh_widget_id)
            &&& command.1 == TaskModel::Effect(EffectModel::OpenWizardCreateTab(into))
        }),
{
    if target is Background {
        assert(path =~= Seq::empty());
    }
}

/// The buttons above the tree begin a new entry in the selected folder, in the
/// folder of the selected command, or in the root.
pub proof fn new_entries_go_to_the_selection(
    state: StateModel,
    ctx: QuickLaunchCtx,
    token: Arc<AtomicBool>,
)
    ensures
        ({
            let folder = reduced(state, QuickLaunchIntent::HeaderCreateFolder, ctx, token);
            let command = reduced(state, QuickLaunchIntent::HeaderCreateCommand, ctx, token);
            let into = match state.selected_path {
                None => Seq::empty(),
                Some(path) => match node_at(state.data, path) {
                    None => Seq::empty(),
                    Some(node) => if node is Folder {
                        path
                    } else {
                        path.drop_last()
                    },
                },
            };
            &&& folder.1 == TaskModel::Focus(ctx.fresh_widget_id)
            &&& folder.0.inline_edit matches Some(field) && field.kind
                == EditKindModel::CreateFolder(into) && field.value.len() == 0
            &&& command.0 == state
            &&& command.1 == TaskModel::Effect(EffectModel::OpenWizardCreateTab(into))
        }),
{
}

/// A folder that gets a new entry is opened for it; nothing else of the tree
/// changes.
pub proof fn folder_is_opened_for_a_new_entry(
    state: StateModel,
    path: Seq<Seq<char>>,
    folder: FolderModel,
    ctx: QuickLaunchCtx,
    token: Arc<AtomicBool>,
)
    requires
        state.selected_path == Some(path),
        node_at(state.data, path) == Some(NodeModel::Folder(folder)),
    ensures
        ({
            let after = reduced(state, QuickLaunchIntent::HeaderCreateFolder, ctx, token).0;
            &&& node_at(after.data, path) == Some(
                NodeModel::Folder(FolderModel { expanded: true, ..folder }),
            )
            &&& others_stay(state.data, after.data, path.drop_last(), path.last())
        }),
{
    let after = reduced(state, QuickLaunchIntent::HeaderCreateFolder, ctx, token).0;
    let node = NodeModel::Folder(FolderModel { expanded: true, ..folder });
    child_position_is_first(folder_at(state.data, path.drop_last())->0.children, path.last());
    replaced_entry_is_found(state.data, path, node);
    assert(path.drop_last().push(path.last()) =~= path);
    assert forall|other: Seq<Seq<char>>|
        lies_apart(other, path.drop_last(), path.last()) implies #[trigger] node_at(
        after.data,
        other,
    ) == node_at(state.data, other) by {
        replacing_leaves_the_others(state.data, path, node, other);
    }
}

/// Whether an event can change the tree.
pub open spec fn can_change_the_tree(event: QuickLaunchIntent) -> bool {
    match event {
        QuickLaunchIntent::NodeReleased { .. }
        | QuickLaunchIntent::BackgroundReleased
        | QuickLaunchIntent::HeaderCreateFolder
        | QuickLaunchIntent::DeleteSelected
        | QuickLaunchIntent::InlineEditSubmit
        | QuickLaunchIntent::WizardSave { .. }
        | QuickLaunchIntent::WizardSaveRequested(_) => true,
        QuickLaunchIntent::ContextMenuAction(action) => match action {
            ContextMenuAction::Edit
            | ContextMenuAction::Rename
            | ContextMenuAction::CreateCommand
            | ContextMenuAction::Kill => false,
            _ => true,
        },
        _ => false,
    }
}

/// No other event touches the tree, and no change of it goes unnoticed: the tree
/// is then stored with the next tick. Only a folder that opens for a new entry is
/// not worth that.
pub proof fn changes_of_the_tree_are_noticed(
    state: StateModel,
    event: QuickLaunchIntent,
    ctx: QuickLaunchCtx,
    token: Arc<AtomicBool>,
)
    ensures
        ({
            let after = reduced(state, event, ctx, token).0;
            &&& !can_change_the_tree(event) ==> after.data == state.data
            &&& state.dirty ==> after.dirty || event is PersistCompleted
            &&& after.data != state.data ==> after.dirty || event is HeaderCreateFolder || event
                == QuickLaunchIntent::ContextMenuAction(ContextMenuAction::CreateFolder)
        }),
{
}

} // verus!
