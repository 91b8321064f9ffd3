//! What whoever holds the workspace or a tab of it gets for their calls.

use std::collections::HashMap;

use iced_widget::pane_grid::{Axis, Pane, ResizeEvent};
use vstd::prelude::*;

use crate::geometry::{clamp_point, Point, Size};
use crate::session_options::Settings;
use crate::terminal_workspace::commands::{execute_command, StateCommand};
use crate::terminal_workspace::event_laws::block_is_copied_as_asked;
use crate::terminal_workspace::panes::{grid_closed_by, grid_resized_by, grid_split_by};
use crate::terminal_workspace::reducer::{
    answers_for, reduce, takes_an_id, terminal_to_open, workspace_ok, workspace_reduced,
    TerminalWorkspaceCtx, WorkspaceModel,
};
use crate::terminal_workspace::state::{TerminalTabState, TerminalWorkspaceState};
use crate::terminal_workspace::types::{
    task_models, BlockCommand, TerminalWorkspaceIntent, WorkspaceTask,
};

verus! {

/// The workspace that is made of tabs, of the tabs of the terminals and of the next
/// id.
pub open spec fn workspace_of(
    state: TerminalWorkspaceState,
    index: Map<u64, u64>,
    next_id: u64,
) -> WorkspaceModel {
    WorkspaceModel { tabs: state@, index, next_id }
}

/// What an event does to the workspace is what the laws on events say, and the
/// workspace stays in order.
pub proof fn events_do_what_they_say(
    state: &mut TerminalWorkspaceState,
    index: &mut HashMap<u64, u64>,
    next_id: &mut u64,
    event: TerminalWorkspaceIntent,
    ctx: TerminalWorkspaceCtx,
    opened: Result<u64, String>,
    tasks: Vec<WorkspaceTask>,
)
    requires
        old(state).wf(),
        takes_an_id(event) ==> *old(next_id) < u64::MAX,
        workspace_ok(workspace_of(*old(state), old(index)@, *old(next_id))),
        call_ensures(reduce, (state, index, next_id, event, &ctx, opened), tasks),
    ensures
        final(state).wf(),
        workspace_ok(workspace_of(*final(state), final(index)@, *final(next_id))),
        (
            workspace_of(*final(state), final(index)@, *final(next_id)),
            task_models(tasks@),
        ) == workspace_reduced(
            workspace_of(*old(state), old(index)@, *old(next_id)),
            event,
            ctx,
            opened,
            answers_for(*old(state), event),
        ),
{
}

/// Where a block of a terminal is selected, each of the three requests to copy from
/// it sends the widget of that terminal, before anything else, the order to copy
/// what was asked for, of that block.
pub proof fn copy_orders_reach_the_widget(
    state: &mut TerminalWorkspaceState,
    index: &mut HashMap<u64, u64>,
    next_id: &mut u64,
    tab_id: u64,
    terminal_id: u64,
    event: TerminalWorkspaceIntent,
    ctx: TerminalWorkspaceCtx,
    opened: Result<u64, String>,
    tasks: Vec<WorkspaceTask>,
)
    requires
        old(state).wf(),
        workspace_ok(workspace_of(*old(state), old(index)@, *old(next_id))),
        old(state)@.contains_key(tab_id),
        old(state)@[tab_id].terminals.contains_key(terminal_id),
        old(state)@[tab_id].selected_block is Some,
        old(state)@[tab_id].selected_block->0.terminal_id == terminal_id,
        event == (TerminalWorkspaceIntent::CopySelectedBlockContent { tab_id, terminal_id })
            || event == (TerminalWorkspaceIntent::CopySelectedBlockPrompt { tab_id, terminal_id })
            || event == (TerminalWorkspaceIntent::CopySelectedBlockCommand { tab_id, terminal_id }),
        call_ensures(reduce, (state, index, next_id, event, &ctx, opened), tasks),
    ensures
        tasks@.len() > 0,
        tasks@[0] is Block,
        tasks@[0]->Block_widget_id == old(state)@[tab_id].terminals[terminal_id].widget_id,
        ({
            let block = old(state)@[tab_id].selected_block->0.block_id;
            let order = tasks@[0]->Block_command;
            &&& event is CopySelectedBlockContent ==> (order matches BlockCommand::CopyContent(id)
                && id@ == block)
            &&& event is CopySelectedBlockPrompt ==> (order matches BlockCommand::CopyPrompt(id)
                && id@ == block)
            &&& event is CopySelectedBlockCommand ==> (order matches BlockCommand::CopyCommand(id)
                && id@ == block)
        }),
{
    block_is_copied_as_asked(
        workspace_of(*old(state), old(index)@, *old(next_id)),
        tab_id,
        terminal_id,
        old(state)@[tab_id].selected_block->0.block_id,
        ctx,
        opened,
        answers_for(*old(state), event),
    );
    assert(task_models(tasks@)[0] == tasks@[0]@);
}

/// The id of a terminal is used once: an event that takes one leaves the next, and
/// any other event leaves the id as it is.
pub proof fn ids_of_terminals_go_up(
    state: &mut TerminalWorkspaceState,
    index: &mut HashMap<u64, u64>,
    next_id: &mut u64,
    event: TerminalWorkspaceIntent,
    ctx: TerminalWorkspaceCtx,
    opened: Result<u64, String>,
    tasks: Vec<WorkspaceTask>,
)
    requires
        old(state).wf(),
        takes_an_id(event) ==> *old(next_id) < u64::MAX,
        workspace_ok(workspace_of(*old(state), old(index)@, *old(next_id))),
        call_ensures(reduce, (state, index, next_id, event, &ctx, opened), tasks),
    ensures
        *old(next_id) <= *final(next_id) <= *old(next_id) + 1,
        event is OpenTab ==> *final(next_id) == *old(next_id) + 1,
        !(event is OpenTab) && !(event is SplitPane) ==> *final(next_id) == *old(next_id),
{
}

/// A divider that is dragged moves in the grid of its tab, and nothing else about
/// the tab changes. The grids of the other tabs stay as they are.
pub proof fn dragged_divider_moves(
    state: &mut TerminalWorkspaceState,
    index: &mut HashMap<u64, u64>,
    next_id: &mut u64,
    tab_id: u64,
    moved: ResizeEvent,
    other: u64,
    ctx: TerminalWorkspaceCtx,
    opened: Result<u64, String>,
    tasks: Vec<WorkspaceTask>,
)
    requires
        old(state).wf(),
        workspace_ok(workspace_of(*old(state), old(index)@, *old(next_id))),
        old(state)@.contains_key(tab_id),
        old(state)@.contains_key(other),
        call_ensures(
            reduce,
            (
                state,
                index,
                next_id,
                TerminalWorkspaceIntent::PaneResized { tab_id, event: moved },
                &ctx,
                opened,
            ),
            tasks,
        ),
    ensures
        final(state)@ == old(state)@,
        final(state).tab_state(tab_id).grid() == grid_resized_by(
            old(state).tab_state(tab_id).grid(),
            moved,
        ),
        other != tab_id ==> final(state).tab_state(other).grid() == old(state).tab_state(
            other,
        ).grid(),
{
    assert(old(state)@.insert(tab_id, old(state)@[tab_id]) =~= old(state)@);
    assert(final(state)@ =~= old(state)@);
    old(state).wf_tabs_ok(tab_id);
}

/// The panes of a tab are divided and closed in the grid of that tab.
pub proof fn grid_follows_the_panes(
    state: &mut TerminalWorkspaceState,
    index: &mut HashMap<u64, u64>,
    next_id: &mut u64,
    tab_id: u64,
    pane: Pane,
    axis: Axis,
    event: TerminalWorkspaceIntent,
    ctx: TerminalWorkspaceCtx,
    widget_id: u64,
    tasks: Vec<WorkspaceTask>,
)
    requires
        old(state).wf(),
        *old(next_id) < u64::MAX,
        workspace_ok(workspace_of(*old(state), old(index)@, *old(next_id))),
        old(state)@.contains_key(tab_id),
        final(state)@.contains_key(tab_id),
        event == (TerminalWorkspaceIntent::SplitPane { tab_id, pane, axis }) || event == (
        TerminalWorkspaceIntent::ClosePane { tab_id, pane }),
        call_ensures(
            reduce,
            (state, index, next_id, event, &ctx, Ok::<u64, String>(widget_id)),
            tasks,
        ),
    ensures
        event is SplitPane ==> final(state).tab_state(tab_id).grid() == grid_split_by(
            old(state).tab_state(tab_id).grid(),
            axis,
            pane,
            *old(next_id),
        ),
        event is ClosePane && old(state)@[tab_id].panes.dom().len() != 1 ==> final(state).tab_state(tab_id).grid() == grid_closed_by(old(state).tab_state(tab_id).grid(), pane),
        event is ClosePane && old(state)@[tab_id].panes.dom().len() == 1 ==> final(state).tab_state(tab_id).grid() == old(state).tab_state(tab_id).grid(),
{
    old(state).wf_tabs_ok(tab_id);
}

/// A terminal is opened for a new tab with the settings that came with it, and for
/// a pane that is split with those of its tab; for nothing else.
pub proof fn terminal_is_opened_when_needed(
    state: TerminalWorkspaceState,
    next_id: u64,
    event: TerminalWorkspaceIntent,
    needed: Option<(u64, Settings)>,
)
    requires
        call_ensures(terminal_to_open, (&state, next_id, &event), needed),
    ensures
        needed matches Some(terminal) ==> terminal.0 == next_id,
        needed is Some ==> event is OpenTab || event is SplitPane,
        event matches TerminalWorkspaceIntent::OpenTab { settings, .. } ==> (
        needed matches Some(terminal) && terminal.1@ == (*settings)@),
        event matches TerminalWorkspaceIntent::SplitPane { tab_id, pane, .. } ==> {
            &&& needed is Some == (state@.contains_key(tab_id)
                && state@[tab_id].panes.contains_key(pane))
            &&& needed matches Some(terminal) ==> terminal.1@ == state@[tab_id].settings
        },
{
}

/// A block is selected until another one is, or until the selection is cleared. It
/// is cleared for a terminal only where the block is in it.
pub proof fn selected_block_is_kept(
    selecting: &mut TerminalTabState,
    clearing: &mut TerminalTabState,
    tab: &mut TerminalTabState,
    terminal_id: u64,
    block_id: String,
)
    requires
        call_ensures(TerminalTabState::set_selected_block, (selecting, terminal_id, block_id), ()),
        call_ensures(TerminalTabState::clear_selected_block, (clearing,), ()),
        call_ensures(
            TerminalTabState::clear_selected_block_for_terminal,
            (tab, terminal_id),
            (),
        ),
    ensures
        final(selecting)@.selected_block matches Some(selection) && selection.terminal_id
            == terminal_id && selection.block_id == block_id@,
        final(clearing)@.selected_block is None,
        final(tab)@.selected_block is Some == (old(tab)@.selected_block matches Some(selection)
            && selection.terminal_id != terminal_id),
        final(tab)@.selected_block is Some ==> final(tab)@.selected_block == old(tab)@.selected_block,
        final(tab)@.terminals == old(tab)@.terminals,
        final(selecting)@.terminals == old(selecting)@.terminals,
        final(clearing)@.terminals == old(clearing)@.terminals,
        final(selecting)@.focus == old(selecting)@.focus,
{
}

/// A tab says of itself what it is.
pub proof fn tab_says_what_it_is(
    tab: TerminalTabState,
    pane: Pane,
    terminal_id: u64,
    shown: Option<u64>,
    focused: Option<u64>,
    selected: Option<u64>,
    inside: bool,
)
    requires
        tab.wf(),
        call_ensures(TerminalTabState::pane_terminal_id, (&tab, pane), shown),
        call_ensures(TerminalTabState::focused_terminal_id, (&tab,), focused),
        call_ensures(TerminalTabState::selected_block_terminal, (&tab,), selected),
        call_ensures(TerminalTabState::contains_terminal, (&tab, terminal_id), inside),
    ensures
        shown is Some == tab@.panes.contains_key(pane),
        shown matches Some(id) ==> id == tab@.panes[pane] && tab@.terminals.contains_key(id),
        focused == Some(tab@.panes[tab@.focus->0]),
        selected is Some == tab@.selected_block is Some,
        selected matches Some(id) ==> id == tab@.selected_block->0.terminal_id,
        inside == tab@.terminals.contains_key(terminal_id),
{
    tab.wf_tab_ok();
}

/// A tab that is put into the workspace is found there under its number, and one
/// that is taken out is handed out and gone.
pub proof fn tabs_are_found_by_their_number(
    state: &mut TerminalWorkspaceState,
    tab_id: u64,
    tab: TerminalTabState,
    others: &mut TerminalWorkspaceState,
    gone: u64,
    taken: Option<TerminalTabState>,
)
    requires
        call_ensures(TerminalWorkspaceState::insert_tab, (state, tab_id, tab), ()),
        call_ensures(TerminalWorkspaceState::remove_tab, (others, gone), taken),
    ensures
        final(state)@.contains_key(tab_id) && final(state)@[tab_id] == tab@,
        forall|other: u64|
            other != tab_id ==> #[trigger] final(state)@.contains_key(other) == old(state)@.contains_key(other),
        !final(others)@.contains_key(gone),
        taken is Some == old(others)@.contains_key(gone),
        taken matches Some(t) ==> t@ == old(others)@[gone],
        forall|other: u64|
            other != gone ==> #[trigger] final(others)@.contains_key(other) == old(others)@.contains_key(other),
{
}

/// A point is moved into an area: what is left of it or above it lands on the edge
/// at zero, what is beyond the far edge lands on that, and a point inside stays.
pub proof fn points_are_moved_inside(point: Point, area: Size, moved: Point)
    requires
        call_ensures(clamp_point, (point, area), moved),
        area.width_bits < 0x7f80_0000u32,
        area.height_bits < 0x7f80_0000u32,
    ensures
        0x8000_0000u32 < point.x_bits <= 0xff80_0000u32 ==> moved.x_bits == 0,
        0x8000_0000u32 < point.y_bits <= 0xff80_0000u32 ==> moved.y_bits == 0,
        point.x_bits <= area.width_bits ==> moved.x_bits == point.x_bits,
        point.y_bits <= area.height_bits ==> moved.y_bits == point.y_bits,
        area.width_bits < point.x_bits <= 0x7f80_0000u32 ==> moved.x_bits == area.width_bits,
        area.height_bits < point.y_bits <= 0x7f80_0000u32 ==> moved.y_bits == area.height_bits,
{
}

/// Where an area has no extent that is a number above zero, a point that is a
/// number above zero lands on the edge at zero.
pub proof fn empty_area_holds_the_corner(point: Point, area: Size, moved: Point)
    requires
        call_ensures(clamp_point, (point, area), moved),
    ensures
        (area.width_bits > 0x7f80_0000u32 && point.x_bits <= 0x7f80_0000u32) ==> moved.x_bits == 0,
        (area.height_bits > 0x7f80_0000u32 && point.y_bits <= 0x7f80_0000u32) ==> moved.y_bits
            == 0,
{
}

/// A command stands for the work that its name says, and several commands for
/// theirs, one after the other.
pub proof fn commands_become_work(command: StateCommand, tasks: Vec<WorkspaceTask>)
    requires
        call_ensures(execute_command, (command,), tasks),
    ensures
        command is Idle ==> tasks@.len() == 0,
        !(command is Idle) && !(command is Batch) ==> tasks@.len() == 1,
        command matches StateCommand::FocusTerminal(id) ==> tasks@[0] == (
        WorkspaceTask::FocusTerminal { widget_id: id }),
        command matches StateCommand::SelectHovered(id) ==> tasks@[0] == (WorkspaceTask::Block {
            widget_id: id,
            command: BlockCommand::SelectHovered,
        }),
        command matches StateCommand::ClearSelection(id) ==> tasks@[0] == (WorkspaceTask::Block {
            widget_id: id,
            command: BlockCommand::ClearSelection,
        }),
        command matches StateCommand::FocusElement(id) ==> tasks@[0] == (
        WorkspaceTask::FocusElement { id }),
        command matches StateCommand::Forward(id) ==> tasks@[0] == (WorkspaceTask::Forward {
            terminal_id: id,
        }),
        command matches StateCommand::Restyle(id) ==> tasks@[0] == (WorkspaceTask::Restyle {
            terminal_id: id,
        }),
{
    assert(task_models(tasks@).len() == tasks@.len());
    if tasks@.len() == 1 {
        assert(task_models(tasks@)[0] == tasks@[0]@);
    }
}

} // verus!
