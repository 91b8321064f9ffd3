//! What the pointer does to the tree's widget, and what it leaves alone.

use std::sync::atomic::AtomicBool;
use std::sync::Arc;

use vstd::prelude::*;

use crate::geometry::Point;
use crate::quick_launch::event::{QuickLaunchCtx, QuickLaunchIntent, TaskModel};
use crate::quick_launch::setup::QuickLaunchSetupOutcome;
use crate::quick_launch::state::{DragModel, DropModel, EditKindModel, StateModel};
use crate::quick_launch::transitions::reduced;
use crate::quick_launch::tree::{node_at, NodeModel};
use crate::quick_launch::types::{NodePath, QuickLaunchType};
use crate::text::texts;

verus! {

/// While the sidebar is being resized, the entries under the pointer are passed
/// over. The add button of the header changes nothing in the widget.
pub proof fn resizing_hovers_nothing(
    state: StateModel,
    path: NodePath,
    ctx: QuickLaunchCtx,
    token: Arc<AtomicBool>,
)
    ensures
        ctx.sidebar_is_resizing ==> reduced(
            state,
            QuickLaunchIntent::NodeHovered { path },
            ctx,
            token,
        ) == (state, TaskModel::Idle),
        reduced(state, QuickLaunchIntent::HeaderAddButtonPressed, ctx, token) == (
            state,
            TaskModel::Idle,
        ),
{
}

/// A drag under way goes on aiming at what was hovered last while the pointer
/// moves; a press that has not become a drag aims at nothing new.
pub proof fn moving_drag_keeps_aiming(
    state: StateModel,
    drag: DragModel,
    position: Point,
    past_threshold: bool,
    ctx: QuickLaunchCtx,
    token: Arc<AtomicBool>,
)
    requires
        state.drag == Some(drag),
        node_at(state.data, drag.source) is Some,
    ensures
        ({
            let (after, task) = reduced(
                state,
                QuickLaunchIntent::CursorMoved { position, past_threshold },
                ctx,
                token,
            );
            let aim = match state.hovered_path {
                None => Seq::empty(),
                Some(over) => match node_at(state.data, over) {
                    Some(NodeModel::Folder(_)) => over,
                    Some(NodeModel::Command(_)) => over.drop_last(),
                    None => Seq::empty(),
                },
            };
            let inside = node_at(state.data, drag.source)->0 is Folder && drag.source.is_prefix_of(
                aim,
            );
            &&& task is Idle
            &&& !drag.active && !past_threshold ==> after.drop_target == state.drop_target
            &&& (drag.active || past_threshold) && inside ==> after.drop_target is None
            &&& (drag.active || past_threshold) && !inside ==> match after.drop_target {
                Some(DropModel::Root) => aim.len() == 0,
                Some(DropModel::Folder(target)) => target == aim && aim.len() > 0,
                None => false,
            }
            &&& after.hovered_path == state.hovered_path
            &&& after.pressed_path == state.pressed_path
            &&& after.launching == state.launching
        }),
{
}

/// A drag that is let go where it aims at nothing moves nothing, and is over.
pub proof fn aimless_drag_moves_nothing(
    state: StateModel,
    path: NodePath,
    ctx: QuickLaunchCtx,
    token: Arc<AtomicBool>,
)
    requires
        state.drag matches Some(drag) && drag.active,
        state.drop_target is None,
    ensures
        ({
            let (after, task) = reduced(state, QuickLaunchIntent::NodeReleased { path }, ctx, token);
            &&& task is Idle
            &&& after == (StateModel { drag: None, ..state })
        }),
{
}

/// An entry whose title is being changed takes no click.
pub proof fn renamed_entry_takes_no_click(
    state: StateModel,
    path: NodePath,
    ctx: QuickLaunchCtx,
    token: Arc<AtomicBool>,
)
    requires
        state.drag is None,
        state.pressed_path == Some(texts(path@)),
        state.inline_edit is Some,
        state.inline_edit->0.kind == EditKindModel::Rename(texts(path@)),
    ensures
        reduced(state, QuickLaunchIntent::NodeReleased { path }, ctx, token) == (
            StateModel { pressed_path: None, ..state },
            TaskModel::Idle,
        ),
{
}

/// The report on a launch in whose place another one has begun is passed over,
/// whatever it says: nothing opens, and the other launch goes on.
pub proof fn stale_report_is_passed_over(
    state: StateModel,
    path: Seq<Seq<char>>,
    launch_id: u64,
    outcome: QuickLaunchSetupOutcome,
    ctx: QuickLaunchCtx,
    token: Arc<AtomicBool>,
)
    requires
        state.launching.contains_key(path),
        state.launching[path].id != launch_id,
        !state.canceled_launches.contains(launch_id),
        match outcome {
            QuickLaunchSetupOutcome::Prepared(launch) => texts(launch.path@) == path
                && launch.launch_id == launch_id,
            QuickLaunchSetupOutcome::Failed { path: at, launch_id: id, .. } => texts(at@) == path
                && id == launch_id,
            QuickLaunchSetupOutcome::Canceled { path: at, launch_id: id } => texts(at@) == path
                && id == launch_id,
        },
    ensures
        reduced(state, QuickLaunchIntent::SetupCompleted(outcome), ctx, token) == (
            state,
            TaskModel::Idle,
        ),
{
}

/// An editor whose kind of command changes goes on saying what it was told, and
/// the editors of other tabs and the tree stay.
pub proof fn change_of_kind_keeps_the_rest(
    state: StateModel,
    tab_id: u64,
    command_type: QuickLaunchType,
    other: u64,
    ctx: QuickLaunchCtx,
    token: Arc<AtomicBool>,
)
    requires
        other != tab_id,
    ensures
        ({
            let (after, task) = reduced(
                state,
                QuickLaunchIntent::WizardSelectCommandType { tab_id, command_type },
                ctx,
                token,
            );
            &&& task is Idle
            &&& after.data == state.data
            &&& after.wizard.contains_key(tab_id) == state.wizard.contains_key(tab_id)
            &&& after.wizard.contains_key(other) == state.wizard.contains_key(other)
            &&& state.wizard.contains_key(other) ==> after.wizard[other] == state.wizard[other]
            &&& state.wizard.contains_key(tab_id) ==> after.wizard[tab_id].error
                == state.wizard[tab_id].error && after.wizard[tab_id].title
                == state.wizard[tab_id].title
        }),
{
}

} // verus!
