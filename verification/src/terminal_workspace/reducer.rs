//! Reduces events of the terminal workspace into changes of its tabs and work
//! that follows.

use std::collections::HashMap;

use iced_widget::pane_grid::{Axis, Pane, State};
use vstd::prelude::*;
use vstd::std_specs::iter::IteratorSpec;
use vstd::string::StringExecFns;

use crate::geometry::{clamped_point, Point, Size};
use crate::ids::{ascending, ascending_keys, lists};
use crate::session_options::{Settings, SettingsModel};
use crate::terminal_workspace::commands::{
    clear_task, command_tasks, concat, execute_command, StateCommand,
};
use crate::terminal_workspace::panes::{grid_closed_by, grid_resized_by};
use crate::terminal_workspace::state::{
    entry_models, focus_tasks, grid_after_split, grid_resized, is_shown, menu_closed, menu_opened,
    new_tab, pane_closed, pane_focused, pane_showing, pane_split, restyle_tasks, restyled,
    selection_cleared_for, split_tasks, terminal_event_handled, PaneMenuModel, TabModel,
    TerminalTabState, TerminalWorkspaceError, TerminalWorkspaceState,
};
use crate::terminal_workspace::types::{
    append_tasks, push_task, task_models, BlockCommand, BlockCommandModel, SelectionModel,
    TerminalEvent, TerminalKind, TerminalWorkspaceEffect, TerminalWorkspaceIntent,
    WorkspaceEffectModel, WorkspaceTask, WorkspaceTaskModel,
};
use crate::text::joined;

verus! {

broadcast use vstd::std_specs::hash::group_hash_axioms;

/// What surrounds the workspace.
#[derive(Debug, Clone, Copy)]
pub struct TerminalWorkspaceCtx {
    /// The active tab.
    pub active_tab_id: Option<u64>,
    /// The area of the pane grid.
    pub pane_grid_size: Size,
    /// The area in which context menus are placed.
    pub screen_size: Size,
    /// Where the cursor is in the sidebar.
    pub sidebar_cursor: Point,
    /// An id that no element has yet.
    pub fresh_widget_id: u64,
}

/// The mathematical value of the workspace: its tabs, the tab of each
/// terminal, and the id of the next terminal.
#[verifier::ext_equal]
pub struct WorkspaceModel {
    pub tabs: Map<u64, TabModel>,
    pub index: Map<u64, u64>,
    pub next_id: u64,
}

/// What the grid of the tab at hand answers: the name of its next pane, and
/// whether it has room for one.
pub struct GridAnswers {
    pub new_pane: Pane,
    pub has_room: bool,
}

/// The state and the work after one tab has changed: its own work, and the
/// news of its title.
pub open spec fn tab_changed(
    workspace: WorkspaceModel,
    tab_id: u64,
    change: (TabModel, Seq<WorkspaceTaskModel>),
) -> (WorkspaceModel, Seq<WorkspaceTaskModel>) {
    (
        WorkspaceModel { tabs: workspace.tabs.insert(tab_id, change.0), ..workspace },
        change.1.push(title_task(tab_id, change.0.title)),
    )
}

/// The news of a title.
pub open spec fn title_task(tab_id: u64, title: Seq<char>) -> WorkspaceTaskModel {
    WorkspaceTaskModel::Effect(WorkspaceEffectModel::TitleChanged(tab_id, title))
}

/// Nothing changes and nothing follows.
pub open spec fn unchanged(workspace: WorkspaceModel) -> (WorkspaceModel, Seq<WorkspaceTaskModel>) {
    (workspace, Seq::empty())
}

/// The work that follows a tab that could not be opened.
pub open spec fn open_failed_tasks(
    tab_id: u64,
    title: Seq<char>,
    kind: TerminalKind,
    message: Seq<char>,
) -> Seq<WorkspaceTaskModel> {
    let close = WorkspaceTaskModel::Effect(WorkspaceEffectModel::TabClosed(tab_id));
    match kind {
        TerminalKind::Shell => seq![close],
        TerminalKind::Command => seq![
            close,
            WorkspaceTaskModel::Effect(
                WorkspaceEffectModel::CommandTabOpenFailed(
                    tab_id,
                    "Failed to launch \""@ + title + "\""@,
                    "Terminal tab initialization failed: "@ + message,
                ),
            ),
        ],
    }
}

/// The effect of opening a tab.
pub open spec fn tab_opened(
    workspace: WorkspaceModel,
    tab_id: u64,
    default_title: Seq<char>,
    settings: SettingsModel,
    kind: TerminalKind,
    sync_explorer: bool,
    grid_size: Size,
    opened: Result<u64, String>,
) -> (WorkspaceModel, Seq<WorkspaceTaskModel>) {
    let terminal_id = workspace.next_id;
    let next_id = (terminal_id + 1) as u64;
    match opened {
        Err(message) => (
            WorkspaceModel { next_id, ..workspace },
            open_failed_tasks(tab_id, default_title, kind, message@),
        ),
        Ok(widget_id) => {
            let tab = grid_resized(
                new_tab(tab_id, default_title, terminal_id, settings, kind, widget_id),
                grid_size,
            );
            let tasks = seq![
                WorkspaceTaskModel::FocusTerminal(widget_id),
                title_task(tab_id, default_title),
            ];
            (
                WorkspaceModel {
                    tabs: workspace.tabs.insert(tab_id, tab),
                    index: workspace.index.insert(terminal_id, tab_id),
                    next_id,
                },
                if sync_explorer {
                    tasks.push(WorkspaceTaskModel::Effect(WorkspaceEffectModel::SyncExplorer))
                } else {
                    tasks
                },
            )
        },
    }
}

/// The terminals that do not belong to the given tab.
pub open spec fn index_without(index: Map<u64, u64>, tab_id: u64) -> Map<u64, u64> {
    Map::new(|id: u64| index.contains_key(id) && index[id] != tab_id, |id: u64| index[id])
}

/// Whether a terminal is in a tab.
pub open spec fn is_in_tab(tabs: Map<u64, TabModel>, tab_id: u64, terminal_id: u64) -> bool {
    tabs.contains_key(tab_id) && tabs[tab_id].terminals.contains_key(terminal_id)
}

/// The tab of every terminal.
pub open spec fn index_of(tabs: Map<u64, TabModel>) -> Map<u64, u64> {
    Map::new(
        |id: u64| exists|tab_id: u64| is_in_tab(tabs, tab_id, id),
        |id: u64| choose|tab_id: u64| is_in_tab(tabs, tab_id, id),
    )
}

/// The effect of splitting a pane.
pub open spec fn split_requested(
    workspace: WorkspaceModel,
    tab_id: u64,
    pane: Pane,
    axis: Axis,
    opened: Result<u64, String>,
    answers: GridAnswers,
) -> (WorkspaceModel, Seq<WorkspaceTaskModel>) {
    let terminal_id = workspace.next_id;
    let numbered = WorkspaceModel { next_id: (terminal_id + 1) as u64, ..workspace };
    if !workspace.tabs.contains_key(tab_id) {
        unchanged(numbered)
    } else {
        let tab = workspace.tabs[tab_id];
        if tab.panes.contains_key(pane) && answers.has_room && opened is Ok {
            let (after, tasks) = tab_changed(
                numbered,
                tab_id,
                (
                    pane_split(tab, pane, axis, terminal_id, opened->Ok_0, answers.new_pane),
                    split_tasks(tab, pane, opened->Ok_0),
                ),
            );
            (WorkspaceModel { index: after.index.insert(terminal_id, tab_id), ..after }, tasks)
        } else {
            tab_changed(numbered, tab_id, (tab, Seq::empty()))
        }
    }
}

/// What is copied of a selected block.
#[derive(Debug, Clone, Copy, PartialEq, Eq, Structural)]
pub enum CopyKind {
    Content,
    Prompt,
    Command,
}

/// The command that copies a part of a block.
pub open spec fn copy_command(kind: CopyKind, block_id: Seq<char>) -> BlockCommandModel {
    match kind {
        CopyKind::Content => BlockCommandModel::CopyContent(block_id),
        CopyKind::Prompt => BlockCommandModel::CopyPrompt(block_id),
        CopyKind::Command => BlockCommandModel::CopyCommand(block_id),
    }
}

/// The effect of copying the selection of a terminal.
pub open spec fn selection_copied(workspace: WorkspaceModel, tab_id: u64, terminal_id: u64) -> (
    WorkspaceModel,
    Seq<WorkspaceTaskModel>,
) {
    if is_in_tab(workspace.tabs, tab_id, terminal_id) {
        let tab = workspace.tabs[tab_id];
        let (after, tasks) = tab_changed(workspace, tab_id, menu_closed(tab));
        (
            after,
            seq![
                WorkspaceTaskModel::Block(
                    tab.terminals[terminal_id].widget_id,
                    BlockCommandModel::CopySelection,
                ),
            ] + tasks,
        )
    } else {
        unchanged(workspace)
    }
}

/// The effect of pasting into the prompt of a terminal.
pub open spec fn pasted(workspace: WorkspaceModel, tab_id: u64, terminal_id: u64) -> (
    WorkspaceModel,
    Seq<WorkspaceTaskModel>,
) {
    if is_in_tab(workspace.tabs, tab_id, terminal_id) {
        let tab = workspace.tabs[tab_id];
        let (after, tasks) = tab_changed(workspace, tab_id, menu_closed(tab));
        (
            after,
            tasks.push(
                WorkspaceTaskModel::Block(
                    tab.terminals[terminal_id].widget_id,
                    BlockCommandModel::PasteClipboard,
                ),
            ),
        )
    } else {
        unchanged(workspace)
    }
}

/// The effect of copying a part of the selected block of a terminal; nothing
/// where the selected block is in another one.
pub open spec fn block_copied(
    workspace: WorkspaceModel,
    tab_id: u64,
    terminal_id: u64,
    kind: CopyKind,
) -> (WorkspaceModel, Seq<WorkspaceTaskModel>) {
    if is_in_tab(workspace.tabs, tab_id, terminal_id)
        && workspace.tabs[tab_id].selected_block is Some
        && workspace.tabs[tab_id].selected_block->0.terminal_id == terminal_id {
        let tab = workspace.tabs[tab_id];
        let (after, tasks) = tab_changed(workspace, tab_id, menu_closed(tab));
        (
            after,
            seq![
                WorkspaceTaskModel::Block(
                    tab.terminals[terminal_id].widget_id,
                    copy_command(kind, tab.selected_block->0.block_id),
                ),
            ] + tasks,
        )
    } else {
        unchanged(workspace)
    }
}

/// The order to a terminal to show the selection of its tab.
pub open spec fn sync_task(tab: TabModel, terminal_id: u64) -> WorkspaceTaskModel {
    WorkspaceTaskModel::Block(
        tab.terminals[terminal_id].widget_id,
        if tab.selected_block is Some && tab.selected_block->0.terminal_id == terminal_id {
            BlockCommandModel::Select(tab.selected_block->0.block_id)
        } else {
            BlockCommandModel::ClearSelection
        },
    )
}

/// The orders to the terminals of a tab to show its selection.
pub open spec fn sync_tasks(tab: TabModel, ids: Seq<u64>) -> Seq<WorkspaceTaskModel> {
    ids.map_values(|id: u64| sync_task(tab, id))
}

/// The orders to the other terminals of a tab to clear their selections.
pub open spec fn clear_other_tasks(tab: TabModel, ids: Seq<u64>, terminal_id: u64) -> Seq<
    WorkspaceTaskModel,
>
    decreases ids.len(),
{
    if ids.len() == 0 {
        Seq::empty()
    } else {
        let rest = clear_other_tasks(tab, ids.drop_last(), terminal_id);
        if ids.last() == terminal_id {
            rest
        } else {
            rest.push(clear_task(tab.terminals[ids.last()].widget_id))
        }
    }
}

/// What an event does to the selected block of its tab.
pub open spec fn selection_updated(
    workspace: WorkspaceModel,
    tab_id: u64,
    event: TerminalEvent,
) -> (WorkspaceModel, Seq<WorkspaceTaskModel>) {
    let tab = workspace.tabs[tab_id];
    match event {
        TerminalEvent::BlockSelected { id, block_id } => if workspace.tabs.contains_key(tab_id) {
            (
                WorkspaceModel {
                    tabs: workspace.tabs.insert(
                        tab_id,
                        TabModel {
                            selected_block: Some(
                                SelectionModel { terminal_id: id, block_id: block_id@ },
                            ),
                            ..tab
                        },
                    ),
                    ..workspace
                },
                clear_other_tasks(tab, ascending(tab.terminals.dom()), id),
            )
        } else {
            unchanged(workspace)
        },
        TerminalEvent::BlockSelectionCleared { id } => if workspace.tabs.contains_key(tab_id) {
            tab_changed(
                workspace,
                tab_id,
                (
                    selection_cleared_for(tab, id),
                    Seq::empty(),
                ),
            )
        } else {
            unchanged(workspace)
        },
        _ => unchanged(workspace),
    }
}

/// The effect of an event in a terminal.
pub open spec fn widget_event_reduced(
    workspace: WorkspaceModel,
    event: TerminalEvent,
) -> (WorkspaceModel, Seq<WorkspaceTaskModel>) {
    let terminal_id = event.spec_terminal_id();
    if !workspace.index.contains_key(terminal_id) {
        unchanged(workspace)
    } else {
        let tab_id = workspace.index[terminal_id];
        let (selected, selection_tasks) = selection_updated(workspace, tab_id, event);
        let (handled, event_tasks) = if selected.tabs.contains_key(tab_id) {
            tab_changed(
                selected,
                tab_id,
                terminal_event_handled(selected.tabs[tab_id], event),
            )
        } else {
            unchanged(selected)
        };
        let after = if event is Shutdown {
            WorkspaceModel { index: index_of(handled.tabs), ..handled }
        } else {
            handled
        };
        let tasks = selection_tasks + event_tasks;
        (
            after,
            if (event is TitleChanged || event is ResetTitle) && after.tabs.contains_key(tab_id) {
                tasks.push(title_task(tab_id, after.tabs[tab_id].title))
            } else {
                tasks
            },
        )
    }
}

/// The change of a tab, where it is there.
pub open spec fn in_tab(
    workspace: WorkspaceModel,
    tab_id: u64,
    change: (TabModel, Seq<WorkspaceTaskModel>),
) -> (WorkspaceModel, Seq<WorkspaceTaskModel>) {
    if workspace.tabs.contains_key(tab_id) {
        tab_changed(workspace, tab_id, change)
    } else {
        unchanged(workspace)
    }
}

/// The state after an event, and the work that follows it. `opened` is the
/// widget of the terminal that the event opens, or why it could not be opened.
pub open spec fn workspace_reduced(
    workspace: WorkspaceModel,
    event: TerminalWorkspaceIntent,
    ctx: TerminalWorkspaceCtx,
    opened: Result<u64, String>,
    answers: GridAnswers,
) -> (WorkspaceModel, Seq<WorkspaceTaskModel>) {
    match event {
        TerminalWorkspaceIntent::OpenTab {
            tab_id,
            default_title,
            settings,
            kind,
            sync_explorer,
        } => tab_opened(
            workspace,
            tab_id,
            default_title@,
            (*settings)@,
            kind,
            sync_explorer,
            ctx.pane_grid_size,
            opened,
        ),
        TerminalWorkspaceIntent::TabClosed { tab_id } => (
            WorkspaceModel {
                tabs: workspace.tabs.remove(tab_id),
                index: index_without(workspace.index, tab_id),
                ..workspace
            },
            Seq::empty(),
        ),
        TerminalWorkspaceIntent::Widget(event) => widget_event_reduced(
            workspace,
            event,
        ),
        TerminalWorkspaceIntent::PaneClicked { tab_id, pane } => in_tab(
            workspace,
            tab_id,
            (
                pane_focused(workspace.tabs[tab_id], pane, true),
                focus_tasks(workspace.tabs[tab_id], pane),
            ),
        ),
        TerminalWorkspaceIntent::PaneResized { tab_id, .. } => in_tab(
            workspace,
            tab_id,
            (workspace.tabs[tab_id], Seq::empty()),
        ),
        TerminalWorkspaceIntent::PaneGridCursorMoved { tab_id, position } => {
            let tab = workspace.tabs[tab_id];
            in_tab(
                workspace,
                tab_id,
                (
                    TabModel {
                        grid_cursor: Some(clamped_point(position, tab.grid_size)),
                        ..tab
                    },
                    Seq::empty(),
                ),
            )
        },
        TerminalWorkspaceIntent::OpenContextMenu { tab_id, pane, terminal_id, alt_screen } => in_tab(
            workspace,
            tab_id,
            menu_opened(
                workspace.tabs[tab_id],
                PaneMenuModel {
                    pane,
                    cursor: ctx.sidebar_cursor,
                    grid_size: ctx.screen_size,
                    terminal_id,
                    focus_target: ctx.fresh_widget_id,
                },
                alt_screen,
            ),
        ),
        TerminalWorkspaceIntent::CloseContextMenu { tab_id } => in_tab(
            workspace,
            tab_id,
            menu_closed(workspace.tabs[tab_id]),
        ),
        TerminalWorkspaceIntent::ContextMenuInput { .. } => unchanged(workspace),
        TerminalWorkspaceIntent::SplitPane { tab_id, pane, axis } => split_requested(
            workspace,
            tab_id,
            pane,
            axis,
            opened,
            answers,
        ),
        TerminalWorkspaceIntent::ClosePane { tab_id, pane } => {
            let (after, tasks) = in_tab(
                workspace,
                tab_id,
                pane_closed(workspace.tabs[tab_id], pane),
            );
            (WorkspaceModel { index: index_of(after.tabs), ..after }, tasks)
        },
        TerminalWorkspaceIntent::CopySelection { tab_id, terminal_id } => selection_copied(
            workspace,
            tab_id,
            terminal_id,
        ),
        TerminalWorkspaceIntent::PasteIntoPrompt { tab_id, terminal_id } => pasted(
            workspace,
            tab_id,
            terminal_id,
        ),
        TerminalWorkspaceIntent::CopySelectedBlockContent { tab_id, terminal_id } => block_copied(
            workspace,
            tab_id,
            terminal_id,
            CopyKind::Content,
        ),
        TerminalWorkspaceIntent::CopySelectedBlockPrompt { tab_id, terminal_id } => block_copied(
            workspace,
            tab_id,
            terminal_id,
            CopyKind::Prompt,
        ),
        TerminalWorkspaceIntent::CopySelectedBlockCommand { tab_id, terminal_id } => block_copied(
            workspace,
            tab_id,
            terminal_id,
            CopyKind::Command,
        ),
        TerminalWorkspaceIntent::ApplyTheme { appearance } => (
            WorkspaceModel {
                tabs: workspace.tabs.map_values(|tab: TabModel| restyled(tab, appearance)),
                ..workspace
            },
            all_restyle_tasks(workspace.tabs, ascending(workspace.tabs.dom())),
        ),
        TerminalWorkspaceIntent::CloseAllContextMenus => (
            WorkspaceModel {
                tabs: workspace.tabs.map_values(|tab: TabModel| menu_closed(tab).0),
                ..workspace
            },
            all_close_tasks(workspace.tabs, ascending(workspace.tabs.dom())),
        ),
        TerminalWorkspaceIntent::FocusActive => (
            workspace,
            match ctx.active_tab_id {
                Some(tab_id) => if workspace.tabs.contains_key(tab_id)
                    && workspace.tabs[tab_id].focus is Some {
                    focus_tasks(workspace.tabs[tab_id], workspace.tabs[tab_id].focus->0)
                } else {
                    Seq::empty()
                },
                None => Seq::empty(),
            },
        ),
        TerminalWorkspaceIntent::SyncSelection { tab_id } => (
            workspace,
            if workspace.tabs.contains_key(tab_id) {
                sync_tasks(
                    workspace.tabs[tab_id],
                    ascending(workspace.tabs[tab_id].terminals.dom()),
                )
            } else {
                Seq::empty()
            },
        ),
        TerminalWorkspaceIntent::SyncPaneGridSize => (
            WorkspaceModel {
                tabs: workspace.tabs.map_values(
                    |tab: TabModel| grid_resized(tab, ctx.pane_grid_size),
                ),
                ..workspace
            },
            Seq::empty(),
        ),
    }
}

/// The orders to all terminals of the given tabs to take the look of their
/// tab.
pub open spec fn all_restyle_tasks(tabs: Map<u64, TabModel>, ids: Seq<u64>) -> Seq<
    WorkspaceTaskModel,
> {
    concat(ids.map_values(|id: u64| restyle_tasks(ascending(tabs[id].terminals.dom()))))
}

/// The work that follows when the context menus of the given tabs are closed.
pub open spec fn all_close_tasks(tabs: Map<u64, TabModel>, ids: Seq<u64>) -> Seq<
    WorkspaceTaskModel,
> {
    concat(ids.map_values(|id: u64| menu_closed(tabs[id]).1))
}

/// The tab whose grid an event asks for room.
pub open spec fn split_tab(event: TerminalWorkspaceIntent) -> u64 {
    match event {
        TerminalWorkspaceIntent::SplitPane { tab_id, .. } => tab_id,
        _ => 0,
    }
}

/// Whether an event takes an id for a terminal.
pub open spec fn takes_an_id(event: TerminalWorkspaceIntent) -> bool {
    event is OpenTab || event is SplitPane
}

/// What the grid of the tab that an event splits answers.
pub open spec fn answers_for(
    state: TerminalWorkspaceState,
    event: TerminalWorkspaceIntent,
) -> GridAnswers {
    let tab = state.tab_state(split_tab(event));
    GridAnswers { new_pane: tab.next_pane(), has_room: tab.room() >= 2 }
}

/// The invariant of the workspace: every terminal has an id below the next
/// one, and is in one tab only.
pub open spec fn workspace_ok(workspace: WorkspaceModel) -> bool {
    &&& forall|tab_id: u64, id: u64| #[trigger]
        is_in_tab(workspace.tabs, tab_id, id) ==> id < workspace.next_id
    &&& tabs_disjoint(workspace.tabs)
}

/// Whether no terminal is in two tabs.
pub open spec fn tabs_disjoint(tabs: Map<u64, TabModel>) -> bool {
    forall|a: u64, b: u64, id: u64| #[trigger]
        is_in_tab(tabs, a, id) && #[trigger] is_in_tab(tabs, b, id) ==> a == b
}

/// Terminals that only go away keep the invariant of the workspace.
proof fn lemma_ok_shrinks(before: WorkspaceModel, after: WorkspaceModel)
    requires
        workspace_ok(before),
        before.next_id <= after.next_id,
        forall|tab_id: u64, id: u64| #[trigger]
            is_in_tab(after.tabs, tab_id, id) ==> is_in_tab(before.tabs, tab_id, id),
    ensures
        workspace_ok(after),
{
    assert forall|tab_id: u64, id: u64| #[trigger] is_in_tab(after.tabs, tab_id, id) implies id
        < after.next_id by {
        assert(is_in_tab(before.tabs, tab_id, id));
    }
    assert forall|a: u64, b: u64, id: u64| #[trigger]
        is_in_tab(after.tabs, a, id) && #[trigger] is_in_tab(after.tabs, b, id) implies a == b by {
        assert(is_in_tab(before.tabs, a, id) && is_in_tab(before.tabs, b, id));
    }
}

/// A new terminal in one tab keeps the invariant of the workspace.
proof fn lemma_ok_grows(before: WorkspaceModel, after: WorkspaceModel, in_tab: u64)
    requires
        workspace_ok(before),
        before.next_id < after.next_id,
        forall|tab_id: u64, id: u64| #[trigger]
            is_in_tab(after.tabs, tab_id, id) ==> is_in_tab(before.tabs, tab_id, id) || (tab_id
                == in_tab && id == before.next_id),
    ensures
        workspace_ok(after),
{
    assert forall|tab_id: u64, id: u64| #[trigger] is_in_tab(after.tabs, tab_id, id) implies id
        < after.next_id by {
        if !(tab_id == in_tab && id == before.next_id) {
            assert(is_in_tab(before.tabs, tab_id, id));
        }
    }
    assert forall|a: u64, b: u64, id: u64| #[trigger]
        is_in_tab(after.tabs, a, id) && #[trigger] is_in_tab(after.tabs, b, id) implies a == b by {
        if is_in_tab(before.tabs, a, id) {
            assert(id < before.next_id);
        }
        if is_in_tab(before.tabs, b, id) {
            assert(id < before.next_id);
        }
    }
}

/// Whether all tabs but one are as they were.
pub open spec fn others_kept(
    before: TerminalWorkspaceState,
    tab_id: u64,
    after: TerminalWorkspaceState,
) -> bool {
    forall|other: u64|
        other != tab_id ==> #[trigger] after.tab_state(other) == before.tab_state(other)
}

/// Whether the grids of all tabs are as they were.
pub open spec fn grids_kept(
    before: TerminalWorkspaceState,
    after: TerminalWorkspaceState,
) -> bool {
    forall|tab_id: u64|
        before@.contains_key(tab_id) ==> #[trigger] after.tab_state(tab_id).grid()
            == before.tab_state(tab_id).grid()
}

/// The grid that a tab has after an event, with the places of its dividers.
pub open spec fn grid_after(
    tab_id: u64,
    tab: TerminalTabState,
    index: Map<u64, u64>,
    next_id: u64,
    event: TerminalWorkspaceIntent,
    opened: Result<u64, String>,
) -> State<u64> {
    match event {
        TerminalWorkspaceIntent::PaneResized { tab_id: changed, event } => if changed == tab_id {
            grid_resized_by(tab.grid(), event)
        } else {
            tab.grid()
        },
        TerminalWorkspaceIntent::SplitPane { tab_id: changed, pane, axis } => if changed
            == tab_id {
            grid_after_split(tab, pane, axis, next_id, opened)
        } else {
            tab.grid()
        },
        TerminalWorkspaceIntent::ClosePane { tab_id: changed, pane } => if changed == tab_id
            && tab@.panes.dom().len() != 1 {
            grid_closed_by(tab.grid(), pane)
        } else {
            tab.grid()
        },
        TerminalWorkspaceIntent::Widget(event) => {
            let id = event.spec_terminal_id();
            if event is Shutdown && index.contains_key(id) && index[id] == tab_id && is_shown(
                tab@.panes,
                id,
            ) && tab@.panes.dom().len() != 1 {
                grid_closed_by(tab.grid(), pane_showing(tab@, id))
            } else {
                tab.grid()
            }
        },
        _ => tab.grid(),
    }
}

/// Whether the grids of all tabs that are there before and after an event are
/// what the event makes of them. A tab that the event opens has a new one.
pub open spec fn grids_follow(
    before: TerminalWorkspaceState,
    index: Map<u64, u64>,
    next_id: u64,
    event: TerminalWorkspaceIntent,
    opened: Result<u64, String>,
    after: TerminalWorkspaceState,
) -> bool {
    forall|tab_id: u64|
        before@.contains_key(tab_id) && after@.contains_key(tab_id) && !(
        event matches TerminalWorkspaceIntent::OpenTab { tab_id: new, .. } && new == tab_id)
            ==> #[trigger] after.tab_state(tab_id).grid() == grid_after(
            tab_id,
            before.tab_state(tab_id),
            index,
            next_id,
            event,
            opened,
        )
}

/// Put a tab back, and report its title after its own work.
fn finish_tab(
    state: &mut TerminalWorkspaceState,
    tab_id: u64,
    tab: TerminalTabState,
    command: StateCommand,
) -> (tasks: Vec<WorkspaceTask>)
    requires
        old(state).wf(),
        tab.wf(),
    ensures
        final(state).wf(),
        final(state)@ == old(state)@.insert(tab_id, tab@),
        final(state).tab_state(tab_id) == tab,
        others_kept(*old(state), tab_id, *final(state)),
        task_models(tasks@) == command_tasks(command).push(title_task(tab_id, tab@.title)),
{
    let title = tab.title().to_string();
    state.insert_tab(tab_id, tab);
    let mut tasks = execute_command(command);
    push_task(
        &mut tasks,
        WorkspaceTask::Effect(TerminalWorkspaceEffect::TitleChanged { tab_id, title }),
    );
    tasks
}

fn no_tasks() -> (tasks: Vec<WorkspaceTask>)
    ensures
        task_models(tasks@) == Seq::<WorkspaceTaskModel>::empty(),
{
    let tasks: Vec<WorkspaceTask> = Vec::new();
    assert(task_models(tasks@) =~= Seq::empty());
    tasks
}

fn quoted_failure(title: &str) -> (text: String)
    ensures
        text@ == "Failed to launch \""@ + title@ + "\""@,
{
    let mut text = joined("Failed to launch \"", title);
    text.append("\"");
    text
}

fn open_failed(tab_id: u64, title: &str, kind: TerminalKind, message: &str) -> (tasks: Vec<
    WorkspaceTask,
>)
    ensures
        task_models(tasks@) == open_failed_tasks(tab_id, title@, kind, message@),
{
    let mut tasks = no_tasks();
    push_task(&mut tasks, WorkspaceTask::Effect(TerminalWorkspaceEffect::TabClosed { tab_id }));
    if kind == TerminalKind::Command {
        let failed_title = quoted_failure(title);
        let failed_message = joined("Terminal tab initialization failed: ", message);
        push_task(
            &mut tasks,
            WorkspaceTask::Effect(
                TerminalWorkspaceEffect::CommandTabOpenFailed {
                    tab_id,
                    title: failed_title,
                    message: failed_message,
                },
            ),
        );
    }
    assert(task_models(tasks@) =~= open_failed_tasks(tab_id, title@, kind, message@));
    tasks
}

/// Open a tab on a new terminal.
fn reduce_open_tab(
    state: &mut TerminalWorkspaceState,
    terminal_to_tab: &mut HashMap<u64, u64>,
    next_terminal_id: &mut u64,
    ctx: &TerminalWorkspaceCtx,
    tab_id: u64,
    default_title: String,
    settings: Settings,
    kind: TerminalKind,
    sync_explorer: bool,
    opened: Result<u64, String>,
) -> (tasks: Vec<WorkspaceTask>)
    requires
        old(state).wf(),
        *old(next_terminal_id) < u64::MAX,
    ensures
        final(state).wf(),
        others_kept(*old(state), tab_id, *final(state)),
        (
            WorkspaceModel {
                tabs: final(state)@,
                index: final(terminal_to_tab)@,
                next_id: *final(next_terminal_id),
            },
            task_models(tasks@),
        ) == tab_opened(
            WorkspaceModel {
                tabs: old(state)@,
                index: old(terminal_to_tab)@,
                next_id: *old(next_terminal_id),
            },
            tab_id,
            default_title@,
            settings@,
            kind,
            sync_explorer,
            ctx.pane_grid_size,
            opened,
        ),
{
    let terminal_id: u64 = *next_terminal_id;
    *next_terminal_id = terminal_id + 1;
    let failed_tab_title = default_title.clone();
    let (mut tab, widget_id) = match TerminalTabState::new(
        tab_id,
        default_title,
        terminal_id,
        settings,
        kind,
        opened,
    ) {
        Ok(result) => result,
        Err(TerminalWorkspaceError::Init { message }) => {
            return open_failed(tab_id, failed_tab_title.as_str(), kind, message.as_str());
        },
    };
    tab.set_grid_size(ctx.pane_grid_size);
    terminal_to_tab.insert(terminal_id, tab_id);
    let title = tab.title().to_string();
    state.insert_tab(tab_id, tab);
    let mut tasks = no_tasks();
    push_task(&mut tasks, WorkspaceTask::FocusTerminal { widget_id });
    push_task(
        &mut tasks,
        WorkspaceTask::Effect(TerminalWorkspaceEffect::TitleChanged { tab_id, title }),
    );
    assert(task_models(tasks@) =~= seq![
        WorkspaceTaskModel::FocusTerminal(widget_id),
        title_task(tab_id, failed_tab_title@),
    ]);
    if sync_explorer {
        push_task(&mut tasks, WorkspaceTask::Effect(TerminalWorkspaceEffect::SyncExplorer));
    }
    tasks
}

/// Forget the terminals of a tab.
fn forget_tab(terminal_to_tab: &mut HashMap<u64, u64>, tab_id: u64)
    ensures
        final(terminal_to_tab)@ == index_without(old(terminal_to_tab)@, tab_id),
{
    let ghost before = terminal_to_tab@;
    let mut kept: HashMap<u64, u64> = HashMap::new();
    let ids = index_ids(terminal_to_tab);
    let mut i: usize = 0;
    while i < ids.len()
        invariant
            before == terminal_to_tab@,
            ids@.to_set() == before.dom(),
            i <= ids@.len(),
            forall|id: u64| #[trigger]
                kept@.contains_key(id) <==> ids@.take(i as int).contains(id) && before[id]
                    != tab_id,
            forall|id: u64| kept@.contains_key(id) ==> #[trigger] kept@[id] == before[id],
        decreases ids@.len() - i,
    {
        let id: u64 = ids[i];
        assert(ids@.to_set().contains(id));
        let ghost kept_before = kept@;
        if let Some(tab) = terminal_to_tab.get(&id) {
            if *tab != tab_id {
                kept.insert(id, *tab);
            }
        }
        proof {
            lemma_take_contains(ids@, i as int);
        }
        i += 1;
    }
    proof {
        assert(ids@.take(ids@.len() as int) =~= ids@);
        assert forall|id: u64| ids@.contains(id) <==> before.contains_key(id) by {
            assert(ids@.to_set().contains(id) <==> before.dom().contains(id));
        }
        assert(kept@ =~= index_without(before, tab_id));
    }
    *terminal_to_tab = kept;
}

fn index_ids(terminal_to_tab: &HashMap<u64, u64>) -> (ids: Vec<u64>)
    ensures
        ids@.to_set() == terminal_to_tab@.dom(),
{
    let mut ids: Vec<u64> = Vec::new();
    let keys = terminal_to_tab.keys();
    let ghost all = keys.remaining().unref();
    for key in iter: keys
        invariant
            all == iter.seq().unref(),
            ids@ == all.take(iter.index@),
    {
        ids.push(*key);
        assert(ids@ =~= all.take(iter.index@ + 1));
    }
    assert(ids@ =~= all);
    ids
}

/// Note for every terminal the tab that it is in.
fn reindex_terminal_tabs(
    state: &TerminalWorkspaceState,
    terminal_to_tab: &mut HashMap<u64, u64>,
)
    requires
        tabs_disjoint(state@),
    ensures
        final(terminal_to_tab)@ == index_of(state@),
{
    terminal_to_tab.clear();
    let tab_ids = state.tab_ids();
    let mut i: usize = 0;
    while i < tab_ids.len()
        invariant
            tabs_disjoint(state@),
            lists(tab_ids@, state@.dom()),
            i <= tab_ids@.len(),
            forall|id: u64| #[trigger]
                terminal_to_tab@.contains_key(id) <==> exists|j: int|
                    0 <= j < i && is_in_tab(state@, #[trigger] tab_ids@[j], id),
            forall|id: u64|
                terminal_to_tab@.contains_key(id) ==> is_in_tab(
                    state@,
                    #[trigger] terminal_to_tab@[id],
                    id,
                ),
        decreases tab_ids@.len() - i,
    {
        let tab_id: u64 = tab_ids[i];
        assert(tab_ids@.to_set().contains(tab_id));
        if let Some(tab) = state.tab(tab_id) {
            index_tab(tab, tab_id, terminal_to_tab);
        }
        proof {
            assert forall|id: u64| #[trigger]
                terminal_to_tab@.contains_key(id) <==> exists|j: int|
                    0 <= j < i + 1 && is_in_tab(state@, #[trigger] tab_ids@[j], id) by {
                if state@[tab_id].terminals.contains_key(id) {
                    assert(is_in_tab(state@, tab_ids@[i as int], id));
                }
            }
        }
        i += 1;
    }
    proof {
        let result = index_of(state@);
        assert forall|id: u64|
            terminal_to_tab@.contains_key(id) <==> #[trigger] result.contains_key(id) by {
            if result.contains_key(id) {
                let t = choose|t: u64| is_in_tab(state@, t, id);
                assert(state@.dom().contains(t));
                assert(tab_ids@.to_set().contains(t));
                let j = choose|j: int| 0 <= j < tab_ids@.len() && tab_ids@[j] == t;
                assert(is_in_tab(state@, tab_ids@[j], id));
            }
        }
        assert forall|id: u64| terminal_to_tab@.contains_key(id) implies #[trigger] result[id]
            == terminal_to_tab@[id] by {
            let t = choose|t: u64| is_in_tab(state@, t, id);
            assert(is_in_tab(state@, terminal_to_tab@[id], id));
            assert(is_in_tab(state@, t, id));
        }
        assert(terminal_to_tab@ =~= result);
    }
}

fn index_tab(tab: &TerminalTabState, tab_id: u64, terminal_to_tab: &mut HashMap<u64, u64>)
    ensures
        forall|id: u64| #[trigger]
            final(terminal_to_tab)@.contains_key(id) <==> old(terminal_to_tab)@.contains_key(id)
                || tab@.terminals.contains_key(id),
        forall|id: u64|
            final(terminal_to_tab)@.contains_key(id) ==> #[trigger] final(terminal_to_tab)@[id]
                == (if tab@.terminals.contains_key(id) {
                tab_id
            } else {
                old(terminal_to_tab)@[id]
            }),
{
    let ghost before = terminal_to_tab@;
    let terminals = tab.terminals();
    let ids = ascending_keys(terminals);
    assert(entry_models(terminals@).dom() =~= terminals@.dom());
    let mut i: usize = 0;
    while i < ids.len()
        invariant
            lists(ids@, tab@.terminals.dom()),
            i <= ids@.len(),
            forall|id: u64| #[trigger]
                terminal_to_tab@.contains_key(id) <==> before.contains_key(id)
                    || ids@.take(i as int).contains(id),
            forall|id: u64|
                terminal_to_tab@.contains_key(id) ==> #[trigger] terminal_to_tab@[id] == (
                if ids@.take(i as int).contains(id) {
                    tab_id
                } else {
                    before[id]
                }),
        decreases ids@.len() - i,
    {
        terminal_to_tab.insert(ids[i], tab_id);
        proof {
            lemma_take_contains(ids@, i as int);
        }
        i += 1;
    }
    proof {
        assert(ids@.take(ids@.len() as int) =~= ids@);
        assert forall|id: u64| ids@.contains(id) <==> tab@.terminals.contains_key(id) by {
            assert(ids@.to_set().contains(id) <==> tab@.terminals.dom().contains(id));
        }
    }
}

proof fn lemma_take_contains(list: Seq<u64>, i: int)
    requires
        0 <= i < list.len(),
    ensures
        forall|k: u64| #[trigger]
            list.take(i + 1).contains(k) <==> list.take(i).contains(k) || k == list[i],
{
    let less = list.take(i);
    let more = list.take(i + 1);
    assert forall|k: u64| #[trigger] more.contains(k) <==> less.contains(k) || k == list[i] by {
        if more.contains(k) {
            let j = choose|j: int| 0 <= j < more.len() && more[j] == k;
            if j < i {
                assert(less[j] == k);
            }
        }
        if less.contains(k) {
            let j = choose|j: int| 0 <= j < less.len() && less[j] == k;
            assert(more[j] == k);
        }
        if k == list[i] {
            assert(more[i] == k);
        }
    }
}

/// Close the context menu of a tab.
fn close_menu_in(state: &mut TerminalWorkspaceState, tab_id: u64) -> (tasks: Vec<WorkspaceTask>)
    requires
        old(state).wf(),
    ensures
        final(state).wf(),
        grids_kept(*old(state), *final(state)),
        final(state)@ == (if old(state)@.contains_key(tab_id) {
            old(state)@.insert(tab_id, menu_closed(old(state)@[tab_id]).0)
        } else {
            old(state)@
        }),
        task_models(tasks@) == (if old(state)@.contains_key(tab_id) {
            menu_closed(old(state)@[tab_id]).1.push(
                title_task(tab_id, menu_closed(old(state)@[tab_id]).0.title),
            )
        } else {
            Seq::empty()
        }),
{
    let ghost before = state@;
    match state.remove_tab(tab_id) {
        Some(tab) => {
            let mut tab = tab;
            let command = tab.close_context_menu();
            let tasks = finish_tab(state, tab_id, tab, command);
            assert(state@ =~= before.insert(tab_id, menu_closed(before[tab_id]).0));
            tasks
        },
        None => {
            assert(state@ =~= before);
            no_tasks()
        },
    }
}

fn widget_of(state: &TerminalWorkspaceState, tab_id: u64, terminal_id: u64) -> (widget_id: Option<
    u64,
>)
    ensures
        widget_id == (if is_in_tab(state@, tab_id, terminal_id) {
            Some(state@[tab_id].terminals[terminal_id].widget_id)
        } else {
            None
        }),
{
    match state.tab(tab_id) {
        Some(tab) => match tab.terminal_entry(terminal_id) {
            Some(entry) => Some(entry.widget_id),
            None => None,
        },
        None => None,
    }
}

fn one_task(task: WorkspaceTask) -> (tasks: Vec<WorkspaceTask>)
    ensures
        task_models(tasks@) == seq![task@],
{
    let mut tasks = no_tasks();
    push_task(&mut tasks, task);
    assert(task_models(tasks@) =~= seq![task@]);
    tasks
}

/// Copy the selection of a terminal.
fn reduce_copy_selection(state: &mut TerminalWorkspaceState, tab_id: u64, terminal_id: u64) -> (
    tasks: Vec<WorkspaceTask>)
    requires
        old(state).wf(),
    ensures
        final(state).wf(),
        grids_kept(*old(state), *final(state)),
        forall|index: Map<u64, u64>, next_id: u64|
            (
                WorkspaceModel { tabs: final(state)@, index, next_id },
                task_models(tasks@),
            ) == #[trigger] selection_copied(
                WorkspaceModel { tabs: old(state)@, index, next_id },
                tab_id,
                terminal_id,
            ),
{
    let widget_id: u64 = match widget_of(state, tab_id, terminal_id) {
        Some(widget_id) => widget_id,
        None => return no_tasks(),
    };
    let mut tasks = one_task(
        WorkspaceTask::Block { widget_id, command: BlockCommand::CopySelection },
    );
    append_tasks(&mut tasks, close_menu_in(state, tab_id));
    tasks
}

/// Paste into the prompt of a terminal.
fn reduce_paste_into_prompt(state: &mut TerminalWorkspaceState, tab_id: u64, terminal_id: u64) -> (
    tasks: Vec<WorkspaceTask>)
    requires
        old(state).wf(),
    ensures
        final(state).wf(),
        grids_kept(*old(state), *final(state)),
        forall|index: Map<u64, u64>, next_id: u64|
            (
                WorkspaceModel { tabs: final(state)@, index, next_id },
                task_models(tasks@),
            ) == #[trigger] pasted(
                WorkspaceModel { tabs: old(state)@, index, next_id },
                tab_id,
                terminal_id,
            ),
{
    let widget_id: u64 = match widget_of(state, tab_id, terminal_id) {
        Some(widget_id) => widget_id,
        None => return no_tasks(),
    };
    let mut tasks = close_menu_in(state, tab_id);
    push_task(
        &mut tasks,
        WorkspaceTask::Block { widget_id, command: BlockCommand::PasteClipboard },
    );
    tasks
}

fn copy_of(kind: CopyKind, block_id: String) -> (command: BlockCommand)
    ensures
        command@ == copy_command(kind, block_id@),
{
    match kind {
        CopyKind::Content => BlockCommand::CopyContent(block_id),
        CopyKind::Prompt => BlockCommand::CopyPrompt(block_id),
        CopyKind::Command => BlockCommand::CopyCommand(block_id),
    }
}

/// Copy a part of the selected block of a terminal.
fn reduce_copy_selected_block(
    state: &mut TerminalWorkspaceState,
    tab_id: u64,
    terminal_id: u64,
    kind: CopyKind,
) -> (tasks: Vec<WorkspaceTask>)
    requires
        old(state).wf(),
    ensures
        final(state).wf(),
        grids_kept(*old(state), *final(state)),
        forall|index: Map<u64, u64>, next_id: u64|
            (
                WorkspaceModel { tabs: final(state)@, index, next_id },
                task_models(tasks@),
            ) == #[trigger] block_copied(
                WorkspaceModel { tabs: old(state)@, index, next_id },
                tab_id,
                terminal_id,
                kind,
            ),
{
    let widget_id: u64 = match widget_of(state, tab_id, terminal_id) {
        Some(widget_id) => widget_id,
        None => return no_tasks(),
    };
    let block_id = match state.tab(tab_id) {
        Some(tab) => match tab.selected_block() {
            Some(selection) => if selection.terminal_id() == terminal_id {
                selection.block_id().to_string()
            } else {
                return no_tasks();
            },
            None => return no_tasks(),
        },
        None => return no_tasks(),
    };
    let mut tasks = one_task(
        WorkspaceTask::Block { widget_id, command: copy_of(kind, block_id) },
    );
    append_tasks(&mut tasks, close_menu_in(state, tab_id));
    tasks
}

/// Focus the active tab.
fn reduce_focus_active(state: &TerminalWorkspaceState, active_tab_id: Option<u64>) -> (tasks: Vec<
    WorkspaceTask,
>)
    ensures
        task_models(tasks@) == (match active_tab_id {
            Some(tab_id) => if state@.contains_key(tab_id) && state@[tab_id].focus is Some {
                focus_tasks(state@[tab_id], state@[tab_id].focus->0)
            } else {
                Seq::empty()
            },
            None => Seq::empty(),
        }),
{
    if let Some(tab_id) = active_tab_id {
        if let Some(tab) = state.tab(tab_id) {
            if let Some(entry) = tab.focused_terminal_entry() {
                return one_task(WorkspaceTask::FocusTerminal { widget_id: entry.widget_id });
            }
        }
    }
    no_tasks()
}

fn sync_command(tab: &TerminalTabState, terminal_id: u64) -> (command: BlockCommand)
    ensures
        command@ == (if tab@.selected_block is Some && tab@.selected_block->0.terminal_id
            == terminal_id {
            BlockCommandModel::Select(tab@.selected_block->0.block_id)
        } else {
            BlockCommandModel::ClearSelection
        }),
{
    if let Some(selection) = tab.selected_block() {
        if selection.terminal_id() == terminal_id {
            return BlockCommand::Select(selection.block_id().to_string());
        }
    }
    BlockCommand::ClearSelection
}

/// Let the terminals of a tab show its selection.
fn reduce_sync_selection(state: &TerminalWorkspaceState, tab_id: u64) -> (tasks: Vec<WorkspaceTask>)
    ensures
        task_models(tasks@) == (if state@.contains_key(tab_id) {
            sync_tasks(state@[tab_id], ascending(state@[tab_id].terminals.dom()))
        } else {
            Seq::empty()
        }),
{
    let mut tasks = no_tasks();
    let tab = match state.tab(tab_id) {
        Some(tab) => tab,
        None => return tasks,
    };
    let terminals = tab.terminals();
    let ids = ascending_keys(terminals);
    assert(entry_models(terminals@).dom() =~= terminals@.dom());
    let mut i: usize = 0;
    assert(sync_tasks(tab@, ids@.take(0)) =~= Seq::empty());
    while i < ids.len()
        invariant
            lists(ids@, tab@.terminals.dom()),
            i <= ids@.len(),
            task_models(tasks@) == sync_tasks(tab@, ids@.take(i as int)),
        decreases ids@.len() - i,
    {
        assert(ids@.to_set().contains(ids@[i as int]));
        if let Some(entry) = tab.terminal_entry(ids[i]) {
            let command = sync_command(tab, ids[i]);
            push_task(&mut tasks, WorkspaceTask::Block { widget_id: entry.widget_id, command });
        }
        assert(sync_tasks(tab@, ids@.take(i + 1)) =~= sync_tasks(tab@, ids@.take(i as int)).push(
            sync_task(tab@, ids@[i as int]),
        ));
        i += 1;
    }
    assert(ids@.take(ids@.len() as int) =~= ids@);
    tasks
}

fn clear_other_selections(tab: &TerminalTabState, terminal_id: u64) -> (tasks: Vec<WorkspaceTask>)
    ensures
        task_models(tasks@) == clear_other_tasks(
            tab@,
            ascending(tab@.terminals.dom()),
            terminal_id,
        ),
{
    let mut tasks = no_tasks();
    let terminals = tab.terminals();
    let ids = ascending_keys(terminals);
    assert(entry_models(terminals@).dom() =~= terminals@.dom());
    let mut i: usize = 0;
    while i < ids.len()
        invariant
            lists(ids@, tab@.terminals.dom()),
            i <= ids@.len(),
            task_models(tasks@) == clear_other_tasks(tab@, ids@.take(i as int), terminal_id),
        decreases ids@.len() - i,
    {
        assert(ids@.to_set().contains(ids@[i as int]));
        assert(ids@.take(i + 1).drop_last() =~= ids@.take(i as int));
        if ids[i] != terminal_id {
            if let Some(entry) = tab.terminal_entry(ids[i]) {
                push_task(
                    &mut tasks,
                    WorkspaceTask::Block {
                        widget_id: entry.widget_id,
                        command: BlockCommand::ClearSelection,
                    },
                );
            }
        }
        i += 1;
    }
    assert(ids@.take(ids@.len() as int) =~= ids@);
    tasks
}

/// Take note of a block that was selected or is no longer.
fn update_block_selection(
    state: &mut TerminalWorkspaceState,
    tab_id: u64,
    event: &TerminalEvent,
) -> (tasks: Vec<WorkspaceTask>)
    requires
        old(state).wf(),
    ensures
        final(state).wf(),
        grids_kept(*old(state), *final(state)),
        forall|index: Map<u64, u64>, next_id: u64|
            (
                WorkspaceModel { tabs: final(state)@, index, next_id },
                task_models(tasks@),
            ) == #[trigger] selection_updated(
                WorkspaceModel { tabs: old(state)@, index, next_id },
                tab_id,
                *event,
            ),
        !(event is BlockSelected || event is BlockSelectionCleared) ==> *final(state) == *old(
            state,
        ),
{
    let ghost before = state@;
    match event {
        TerminalEvent::BlockSelected { id, block_id } => {
            let mut tab = match state.remove_tab(tab_id) {
                Some(tab) => tab,
                None => {
                    assert(state@ =~= before);
                    return no_tasks();
                },
            };
            let tasks = clear_other_selections(&tab, *id);
            tab.set_selected_block(*id, block_id.clone());
            let ghost changed = tab@;
            state.insert_tab(tab_id, tab);
            assert(state@ =~= before.insert(tab_id, changed));
            tasks
        },
        TerminalEvent::BlockSelectionCleared { id } => {
            let mut tab = match state.remove_tab(tab_id) {
                Some(tab) => tab,
                None => {
                    assert(state@ =~= before);
                    return no_tasks();
                },
            };
            tab.clear_selected_block_for_terminal(*id);
            let ghost changed = tab@;
            let tasks = finish_tab(state, tab_id, tab, StateCommand::Idle);
            assert(state@ =~= before.insert(tab_id, changed));
            tasks
        },
        _ => no_tasks(),
    }
}

/// Take note of an event in a terminal.
fn reduce_widget_event(
    state: &mut TerminalWorkspaceState,
    terminal_to_tab: &mut HashMap<u64, u64>,
    event: TerminalEvent,
    Ghost(next_id): Ghost<u64>,
) -> (tasks: Vec<WorkspaceTask>)
    requires
        old(state).wf(),
        workspace_ok(
            WorkspaceModel { tabs: old(state)@, index: old(terminal_to_tab)@, next_id },
        ),
    ensures
        final(state).wf(),
        grids_follow(
            *old(state),
            old(terminal_to_tab)@,
            next_id,
            TerminalWorkspaceIntent::Widget(event),
            Err(arbitrary()),
            *final(state),
        ),
        (
            WorkspaceModel { tabs: final(state)@, index: final(terminal_to_tab)@, next_id },
            task_models(tasks@),
        ) == widget_event_reduced(
            WorkspaceModel { tabs: old(state)@, index: old(terminal_to_tab)@, next_id },
            event,
        ),
        workspace_ok(
            WorkspaceModel { tabs: final(state)@, index: final(terminal_to_tab)@, next_id },
        ),
{
    let ghost before = WorkspaceModel { tabs: state@, index: terminal_to_tab@, next_id };
    let terminal_id: u64 = event.terminal_id();
    let tab_id: u64 = match terminal_to_tab.get(&terminal_id) {
        Some(tab_id) => *tab_id,
        None => return no_tasks(),
    };
    let refresh_titles = match &event {
        TerminalEvent::TitleChanged { .. } => true,
        TerminalEvent::ResetTitle { .. } => true,
        _ => false,
    };
    let is_shutdown = match &event {
        TerminalEvent::Shutdown { .. } => true,
        _ => false,
    };
    let mut tasks = update_block_selection(state, tab_id, &event);
    let ghost selected = selection_updated(before, tab_id, event).0;
    assert(state@ == selected.tabs);
    match state.remove_tab(tab_id) {
        Some(tab) => {
            let mut tab = tab;
            let ghost old_tab = tab@;
            let command = tab.handle_terminal_event(event);
            let ghost new_tab_model = tab@;
            let event_tasks = finish_tab(state, tab_id, tab, command);
            append_tasks(&mut tasks, event_tasks);
            proof {
                assert(terminal_event_handled(old_tab, event).0 == new_tab_model);
                assert(state@ =~= selected.tabs.insert(tab_id, new_tab_model));
            }
        },
        None => {
            assert(state@ =~= selected.tabs);
            assert(task_models(tasks@) + Seq::<WorkspaceTaskModel>::empty() =~= task_models(
                tasks@,
            ));
        },
    }
    proof {
        lemma_widget_ok(before, event);
        let handled = WorkspaceModel { tabs: state@, index: terminal_to_tab@, next_id };
        lemma_ok_shrinks(widget_event_reduced(before, event).0, handled);
    }
    if is_shutdown {
        reindex_terminal_tabs(state, terminal_to_tab);
    }
    if refresh_titles {
        if let Some(tab) = state.tab(tab_id) {
            let title = tab.title().to_string();
            push_task(
                &mut tasks,
                WorkspaceTask::Effect(TerminalWorkspaceEffect::TitleChanged { tab_id, title }),
            );
        }
    }
    tasks
}

/// No event in a terminal brings a terminal into another tab.
proof fn lemma_widget_ok(workspace: WorkspaceModel, event: TerminalEvent)
    requires
        workspace_ok(workspace),
    ensures
        workspace_ok(widget_event_reduced(workspace, event).0),
{
    let after = widget_event_reduced(workspace, event).0;
    assert forall|tab_id: u64, id: u64| #[trigger] is_in_tab(after.tabs, tab_id, id) implies
        is_in_tab(workspace.tabs, tab_id, id) by {}
    lemma_ok_shrinks(workspace, after);
}

/// Split a pane of a tab for a new terminal.
fn reduce_split_pane(
    state: &mut TerminalWorkspaceState,
    terminal_to_tab: &mut HashMap<u64, u64>,
    next_terminal_id: &mut u64,
    tab_id: u64,
    pane: Pane,
    axis: Axis,
    opened: Result<u64, String>,
) -> (tasks: Vec<WorkspaceTask>)
    requires
        old(state).wf(),
        *old(next_terminal_id) < u64::MAX,
        workspace_ok(
            WorkspaceModel {
                tabs: old(state)@,
                index: old(terminal_to_tab)@,
                next_id: *old(next_terminal_id),
            },
        ),
    ensures
        final(state).wf(),
        grids_follow(
            *old(state),
            old(terminal_to_tab)@,
            *old(next_terminal_id),
            TerminalWorkspaceIntent::SplitPane { tab_id, pane, axis },
            opened,
            *final(state),
        ),
        (
            WorkspaceModel {
                tabs: final(state)@,
                index: final(terminal_to_tab)@,
                next_id: *final(next_terminal_id),
            },
            task_models(tasks@),
        ) == split_requested(
            WorkspaceModel {
                tabs: old(state)@,
                index: old(terminal_to_tab)@,
                next_id: *old(next_terminal_id),
            },
            tab_id,
            pane,
            axis,
            opened,
            answers_for(
                *old(state),
                TerminalWorkspaceIntent::SplitPane { tab_id, pane, axis },
            ),
        ),
{
    let ghost before = state@;
    let terminal_id: u64 = *next_terminal_id;
    *next_terminal_id = terminal_id + 1;
    let mut tab = match state.remove_tab(tab_id) {
        Some(tab) => tab,
        None => {
            assert(state@ =~= before);
            return no_tasks();
        },
    };
    proof {
        if before[tab_id].terminals.contains_key(terminal_id) {
            assert(is_in_tab(before, tab_id, terminal_id));
        }
    }
    let command = tab.split_pane(pane, axis, terminal_id, opened);
    let ghost after = tab@;
    if tab.contains_terminal(terminal_id) {
        terminal_to_tab.insert(terminal_id, tab_id);
    }
    let tasks = finish_tab(state, tab_id, tab, command);
    assert(state@ =~= before.insert(tab_id, after));
    tasks
}

/// Give all tabs another look.
fn restyle_all(state: &mut TerminalWorkspaceState, appearance: u64) -> (tasks: Vec<WorkspaceTask>)
    requires
        old(state).wf(),
    ensures
        final(state).wf(),
        grids_kept(*old(state), *final(state)),
        final(state)@ == old(state)@.map_values(|tab: TabModel| restyled(tab, appearance)),
        task_models(tasks@) == all_restyle_tasks(old(state)@, ascending(old(state)@.dom())),
{
    let ghost before = state@;
    let ids = state.tab_ids();
    let mut tasks = no_tasks();
    let mut i: usize = 0;
    assert(all_restyle_tasks(before, ids@.take(0)) =~= Seq::empty());
    while i < ids.len()
        invariant
            state.wf(),
            before == old(state)@,
            grids_kept(*old(state), *state),
            lists(ids@, before.dom()),
            i <= ids@.len(),
            state@.dom() == before.dom(),
            forall|k: int|
                i <= k < ids@.len() ==> state@[#[trigger] ids@[k]] == before[ids@[k]],
            forall|k: int|
                0 <= k < i ==> state@[#[trigger] ids@[k]] == restyled(before[ids@[k]], appearance),
            task_models(tasks@) == all_restyle_tasks(before, ids@.take(i as int)),
        decreases ids@.len() - i,
    {
        let tab_id: u64 = ids[i];
        assert(ids@.to_set().contains(tab_id));
        assert(before.dom().contains(tab_id));
        assert(state@.contains_key(tab_id));
        if let Some(tab) = state.remove_tab(tab_id) {
            let mut tab = tab;
            let command = tab.apply_theme(appearance);
            state.insert_tab(tab_id, tab);
            append_tasks(&mut tasks, execute_command(command));
        }
        proof {
            assert(state@.dom() =~= before.dom());
            lemma_concat_step(
                ids@,
                i as int,
                |id: u64| restyle_tasks(ascending(before[id].terminals.dom())),
            );
        }
        i += 1;
    }
    proof {
        assert(ids@.take(ids@.len() as int) =~= ids@);
        lemma_all_mapped(before, state@, ids@, |tab: TabModel| restyled(tab, appearance));
    }
    tasks
}

/// The list of one more item is the list so far and that of the item.
proof fn lemma_concat_step(
    ids: Seq<u64>,
    i: int,
    f: spec_fn(u64) -> Seq<WorkspaceTaskModel>,
)
    requires
        0 <= i < ids.len(),
    ensures
        concat(ids.take(i + 1).map_values(f)) == concat(ids.take(i).map_values(f)) + f(ids[i]),
{
    let more = ids.take(i + 1).map_values(f);
    assert(more.drop_last() =~= ids.take(i).map_values(f));
}

/// Tabs that were changed one by one were all changed.
proof fn lemma_all_mapped(
    before: Map<u64, TabModel>,
    after: Map<u64, TabModel>,
    ids: Seq<u64>,
    f: spec_fn(TabModel) -> TabModel,
)
    requires
        lists(ids, before.dom()),
        after.dom() == before.dom(),
        forall|k: int| 0 <= k < ids.len() ==> after[#[trigger] ids[k]] == f(before[ids[k]]),
    ensures
        after == before.map_values(f),
{
    assert forall|id: u64| after.contains_key(id) implies #[trigger] after[id] == f(
        before[id],
    ) by {
        assert(ids.to_set().contains(id));
        let k = choose|k: int| 0 <= k < ids.len() && ids[k] == id;
        assert(after[ids[k]] == f(before[ids[k]]));
    }
    assert(after =~= before.map_values(f));
}

/// Close all context menus.
fn close_all_menus(state: &mut TerminalWorkspaceState) -> (tasks: Vec<WorkspaceTask>)
    requires
        old(state).wf(),
    ensures
        final(state).wf(),
        grids_kept(*old(state), *final(state)),
        final(state)@ == old(state)@.map_values(|tab: TabModel| menu_closed(tab).0),
        task_models(tasks@) == all_close_tasks(old(state)@, ascending(old(state)@.dom())),
{
    let ghost before = state@;
    let ids = state.tab_ids();
    let mut tasks = no_tasks();
    let mut i: usize = 0;
    assert(all_close_tasks(before, ids@.take(0)) =~= Seq::empty());
    while i < ids.len()
        invariant
            state.wf(),
            before == old(state)@,
            grids_kept(*old(state), *state),
            lists(ids@, before.dom()),
            i <= ids@.len(),
            state@.dom() == before.dom(),
            forall|k: int|
                i <= k < ids@.len() ==> state@[#[trigger] ids@[k]] == before[ids@[k]],
            forall|k: int|
                0 <= k < i ==> state@[#[trigger] ids@[k]] == menu_closed(before[ids@[k]]).0,
            task_models(tasks@) == all_close_tasks(before, ids@.take(i as int)),
        decreases ids@.len() - i,
    {
        let tab_id: u64 = ids[i];
        assert(ids@.to_set().contains(tab_id));
        assert(before.dom().contains(tab_id));
        assert(state@.contains_key(tab_id));
        if let Some(tab) = state.remove_tab(tab_id) {
            let mut tab = tab;
            let command = tab.close_context_menu();
            state.insert_tab(tab_id, tab);
            append_tasks(&mut tasks, execute_command(command));
        }
        proof {
            assert(state@.dom() =~= before.dom());
            lemma_concat_step(ids@, i as int, |id: u64| menu_closed(before[id]).1);
        }
        i += 1;
    }
    proof {
        assert(ids@.take(ids@.len() as int) =~= ids@);
        lemma_all_mapped(before, state@, ids@, |tab: TabModel| menu_closed(tab).0);
    }
    tasks
}

/// Set the grid size of all tabs.
fn resize_all(state: &mut TerminalWorkspaceState, size: Size)
    requires
        old(state).wf(),
    ensures
        final(state).wf(),
        grids_kept(*old(state), *final(state)),
        final(state)@ == old(state)@.map_values(|tab: TabModel| grid_resized(tab, size)),
{
    let ghost before = state@;
    let ids = state.tab_ids();
    let mut i: usize = 0;
    while i < ids.len()
        invariant
            state.wf(),
            before == old(state)@,
            grids_kept(*old(state), *state),
            lists(ids@, before.dom()),
            i <= ids@.len(),
            state@.dom() == before.dom(),
            forall|k: int|
                i <= k < ids@.len() ==> state@[#[trigger] ids@[k]] == before[ids@[k]],
            forall|k: int|
                0 <= k < i ==> state@[#[trigger] ids@[k]] == grid_resized(before[ids@[k]], size),
        decreases ids@.len() - i,
    {
        let tab_id: u64 = ids[i];
        assert(ids@.to_set().contains(tab_id));
        assert(before.dom().contains(tab_id));
        assert(state@.contains_key(tab_id));
        if let Some(tab) = state.remove_tab(tab_id) {
            let mut tab = tab;
            tab.set_grid_size(size);
            state.insert_tab(tab_id, tab);
        }
        assert(state@.dom() =~= before.dom());
        i += 1;
    }
    proof {
        lemma_all_mapped(before, state@, ids@, |tab: TabModel| grid_resized(tab, size));
    }
}

/// The terminal that an event needs: its id, and the settings to open it
/// with. A tab needs one, and so does a pane that is split.
pub open spec fn needed_terminal(
    tabs: Map<u64, TabModel>,
    next_id: u64,
    event: TerminalWorkspaceIntent,
) -> Option<(u64, SettingsModel)> {
    match event {
        TerminalWorkspaceIntent::OpenTab { settings, .. } => Some((next_id, (*settings)@)),
        TerminalWorkspaceIntent::SplitPane { tab_id, pane, .. } => if tabs.contains_key(tab_id)
            && tabs[tab_id].panes.contains_key(pane) {
            Some((next_id, tabs[tab_id].settings))
        } else {
            None
        },
        _ => None,
    }
}

/// The terminal that has to be opened before an event is reduced.
pub fn terminal_to_open(
    state: &TerminalWorkspaceState,
    next_terminal_id: u64,
    event: &TerminalWorkspaceIntent,
) -> (needed: Option<(u64, Settings)>)
    ensures
        match needed_terminal(state@, next_terminal_id, *event) {
            Some((id, settings)) => needed matches Some(n) && n.0 == id && n.1@ == settings,
            None => needed is None,
        },
{
    match event {
        TerminalWorkspaceIntent::OpenTab { settings, .. } => Some(
            (next_terminal_id, (**settings).clone()),
        ),
        TerminalWorkspaceIntent::SplitPane { tab_id, pane, .. } => match state.tab(*tab_id) {
            Some(tab) => if tab.pane_terminal_id(*pane).is_some() {
                Some((next_terminal_id, tab.terminal_settings().clone()))
            } else {
                None
            },
            None => None,
        },
        _ => None,
    }
}

/// Events that change one tab and nothing else.
fn reduce_tab_event(
    state: &mut TerminalWorkspaceState,
    event: TerminalWorkspaceIntent,
    ctx: &TerminalWorkspaceCtx,
    Ghost(before): Ghost<WorkspaceModel>,
    Ghost(opened): Ghost<Result<u64, String>>,
    Ghost(answers): Ghost<GridAnswers>,
) -> (tasks: Vec<WorkspaceTask>)
    requires
        old(state).wf(),
        before.tabs == old(state)@,
        event is PaneClicked || event is PaneResized || event is PaneGridCursorMoved
            || event is OpenContextMenu || event is CloseContextMenu || event is ContextMenuInput,
    ensures
        final(state).wf(),
        (WorkspaceModel { tabs: final(state)@, ..before }, task_models(tasks@))
            == workspace_reduced(before, event, *ctx, opened, answers),
        grids_follow(
            *old(state),
            before.index,
            before.next_id,
            event,
            opened,
            *final(state),
        ),
{
    match event {
        TerminalWorkspaceIntent::PaneClicked { tab_id, pane } => {
            let mut tab = match state.remove_tab(tab_id) {
                Some(tab) => tab,
                None => {
                    assert(state@ =~= before.tabs);
                    return no_tasks();
                },
            };
            let command = tab.focus_pane(pane);
            let ghost changed = tab@;
            let tasks = finish_tab(state, tab_id, tab, command);
            assert(state@ =~= before.tabs.insert(tab_id, changed));
            tasks
        },
        TerminalWorkspaceIntent::PaneResized { tab_id, event } => {
            let mut tab = match state.remove_tab(tab_id) {
                Some(tab) => tab,
                None => {
                    assert(state@ =~= before.tabs);
                    return no_tasks();
                },
            };
            tab.resize(event);
            let command = StateCommand::Idle;
            let ghost changed = tab@;
            let tasks = finish_tab(state, tab_id, tab, command);
            assert(state@ =~= before.tabs.insert(tab_id, changed));
            tasks
        },
        TerminalWorkspaceIntent::PaneGridCursorMoved { tab_id, position } => {
            let mut tab = match state.remove_tab(tab_id) {
                Some(tab) => tab,
                None => {
                    assert(state@ =~= before.tabs);
                    return no_tasks();
                },
            };
            let command = tab.update_grid_cursor(position);
            let ghost changed = tab@;
            let tasks = finish_tab(state, tab_id, tab, command);
            assert(state@ =~= before.tabs.insert(tab_id, changed));
            tasks
        },
        TerminalWorkspaceIntent::OpenContextMenu { tab_id, pane, terminal_id, alt_screen } => {
            let mut tab = match state.remove_tab(tab_id) {
                Some(tab) => tab,
                None => {
                    assert(state@ =~= before.tabs);
                    return no_tasks();
                },
            };
            let command = tab.open_context_menu(
                pane,
                terminal_id,
                ctx.sidebar_cursor,
                ctx.screen_size,
                alt_screen,
                ctx.fresh_widget_id,
            );
            let ghost changed = tab@;
            let tasks = finish_tab(state, tab_id, tab, command);
            assert(state@ =~= before.tabs.insert(tab_id, changed));
            tasks
        },
        TerminalWorkspaceIntent::CloseContextMenu { tab_id } => {
            let mut tab = match state.remove_tab(tab_id) {
                Some(tab) => tab,
                None => {
                    assert(state@ =~= before.tabs);
                    return no_tasks();
                },
            };
            let command = tab.close_context_menu();
            let ghost changed = tab@;
            let tasks = finish_tab(state, tab_id, tab, command);
            assert(state@ =~= before.tabs.insert(tab_id, changed));
            tasks
        },
        _ => no_tasks(),
    }
}

/// A tab event brings no terminal into a tab.
proof fn lemma_event_ok(
    before: WorkspaceModel,
    event: TerminalWorkspaceIntent,
    ctx: TerminalWorkspaceCtx,
    opened: Result<u64, String>,
    answers: GridAnswers,
)
    requires
        workspace_ok(before),
        takes_an_id(event) ==> before.next_id < u64::MAX,
        !(event is Widget),
    ensures
        workspace_ok(workspace_reduced(before, event, ctx, opened, answers).0),
{
    let after = workspace_reduced(before, event, ctx, opened, answers).0;
    match event {
        TerminalWorkspaceIntent::OpenTab { tab_id, .. } => {
            assert forall|t: u64, id: u64| #[trigger] is_in_tab(after.tabs, t, id) implies
                is_in_tab(before.tabs, t, id) || (t == tab_id && id == before.next_id) by {}
            lemma_ok_grows(before, after, tab_id);
        },
        TerminalWorkspaceIntent::SplitPane { tab_id, .. } => {
            assert forall|t: u64, id: u64| #[trigger] is_in_tab(after.tabs, t, id) implies
                is_in_tab(before.tabs, t, id) || (t == tab_id && id == before.next_id) by {}
            lemma_ok_grows(before, after, tab_id);
        },
        _ => {
            assert forall|t: u64, id: u64| #[trigger] is_in_tab(after.tabs, t, id) implies
                is_in_tab(before.tabs, t, id) by {}
            lemma_ok_shrinks(before, after);
        },
    }
}

/// Close a pane of a tab.
fn reduce_close_pane(
    state: &mut TerminalWorkspaceState,
    terminal_to_tab: &mut HashMap<u64, u64>,
    tab_id: u64,
    pane: Pane,
    Ghost(next_id): Ghost<u64>,
) -> (tasks: Vec<WorkspaceTask>)
    requires
        old(state).wf(),
        workspace_ok(
            WorkspaceModel { tabs: old(state)@, index: old(terminal_to_tab)@, next_id },
        ),
    ensures
        final(state).wf(),
        grids_follow(
            *old(state),
            old(terminal_to_tab)@,
            next_id,
            TerminalWorkspaceIntent::ClosePane { tab_id, pane },
            Err(arbitrary()),
            *final(state),
        ),
        ({
            let before = WorkspaceModel {
                tabs: old(state)@,
                index: old(terminal_to_tab)@,
                next_id,
            };
            let (after, tasks_after) = in_tab(
                before,
                tab_id,
                pane_closed(before.tabs[tab_id], pane),
            );
            &&& final(state)@ == after.tabs
            &&& final(terminal_to_tab)@ == index_of(after.tabs)
            &&& task_models(tasks@) == tasks_after
        }),
{
    let ghost before = WorkspaceModel { tabs: state@, index: terminal_to_tab@, next_id };
    let tasks = match state.remove_tab(tab_id) {
        Some(tab) => {
            let mut tab = tab;
            let command = tab.close_pane(pane);
            let ghost changed = tab@;
            let tasks = finish_tab(state, tab_id, tab, command);
            assert(state@ =~= before.tabs.insert(tab_id, changed));
            tasks
        },
        None => {
            assert(state@ =~= before.tabs);
            no_tasks()
        },
    };
    proof {
        let after = WorkspaceModel { tabs: state@, ..before };
        assert forall|t: u64, id: u64| #[trigger] is_in_tab(after.tabs, t, id) implies is_in_tab(
            before.tabs,
            t,
            id,
        ) by {}
        lemma_ok_shrinks(before, after);
    }
    reindex_terminal_tabs(state, terminal_to_tab);
    tasks
}

/// Reduce an event into changes of the tabs and work that follows. `opened` is
/// the widget of the terminal that `terminal_to_open` asked for, or why it
/// could not be opened. For an event that takes an id for a terminal, one must be
/// left.
pub fn reduce(
    state: &mut TerminalWorkspaceState,
    terminal_to_tab: &mut HashMap<u64, u64>,
    next_terminal_id: &mut u64,
    event: TerminalWorkspaceIntent,
    ctx: &TerminalWorkspaceCtx,
    opened: Result<u64, String>,
) -> (tasks: Vec<WorkspaceTask>)
    requires
        old(state).wf(),
        takes_an_id(event) ==> *old(next_terminal_id) < u64::MAX,
        workspace_ok(
            WorkspaceModel {
                tabs: old(state)@,
                index: old(terminal_to_tab)@,
                next_id: *old(next_terminal_id),
            },
        ),
    ensures
        final(state).wf(),
        workspace_ok(
            WorkspaceModel {
                tabs: final(state)@,
                index: final(terminal_to_tab)@,
                next_id: *final(next_terminal_id),
            },
        ),
        (
            WorkspaceModel {
                tabs: final(state)@,
                index: final(terminal_to_tab)@,
                next_id: *final(next_terminal_id),
            },
            task_models(tasks@),
        ) == workspace_reduced(
            WorkspaceModel {
                tabs: old(state)@,
                index: old(terminal_to_tab)@,
                next_id: *old(next_terminal_id),
            },
            event,
            *ctx,
            opened,
            answers_for(*old(state), event),
        ),
        grids_follow(
            *old(state),
            old(terminal_to_tab)@,
            *old(next_terminal_id),
            event,
            opened,
            *final(state),
        ),
{
    let ghost before = WorkspaceModel {
        tabs: state@,
        index: terminal_to_tab@,
        next_id: *next_terminal_id,
    };
    let ghost answers = answers_for(*state, event);
    proof {
        if !(event is Widget) {
            lemma_event_ok(before, event, *ctx, opened, answers);
        }
    }
    match event {
        TerminalWorkspaceIntent::OpenTab {
            tab_id,
            default_title,
            settings,
            kind,
            sync_explorer,
        } => reduce_open_tab(
            state,
            terminal_to_tab,
            next_terminal_id,
            ctx,
            tab_id,
            default_title,
            *settings,
            kind,
            sync_explorer,
            opened,
        ),
        TerminalWorkspaceIntent::TabClosed { tab_id } => {
            state.remove_tab(tab_id);
            forget_tab(terminal_to_tab, tab_id);
            no_tasks()
        },
        TerminalWorkspaceIntent::Widget(event) => reduce_widget_event(
            state,
            terminal_to_tab,
            event,
            Ghost(*next_terminal_id),
        ),
        TerminalWorkspaceIntent::SplitPane { tab_id, pane, axis } => reduce_split_pane(
            state,
            terminal_to_tab,
            next_terminal_id,
            tab_id,
            pane,
            axis,
            opened,
        ),
        TerminalWorkspaceIntent::ClosePane { tab_id, pane } => reduce_close_pane(
            state,
            terminal_to_tab,
            tab_id,
            pane,
            Ghost(*next_terminal_id),
        ),
        TerminalWorkspaceIntent::CopySelection { tab_id, terminal_id } => {
            reduce_copy_selection(state, tab_id, terminal_id)
        },
        TerminalWorkspaceIntent::PasteIntoPrompt { tab_id, terminal_id } => {
            reduce_paste_into_prompt(state, tab_id, terminal_id)
        },
        TerminalWorkspaceIntent::CopySelectedBlockContent { tab_id, terminal_id } => {
            reduce_copy_selected_block(state, tab_id, terminal_id, CopyKind::Content)
        },
        TerminalWorkspaceIntent::CopySelectedBlockPrompt { tab_id, terminal_id } => {
            reduce_copy_selected_block(state, tab_id, terminal_id, CopyKind::Prompt)
        },
        TerminalWorkspaceIntent::CopySelectedBlockCommand { tab_id, terminal_id } => {
            reduce_copy_selected_block(state, tab_id, terminal_id, CopyKind::Command)
        },
        TerminalWorkspaceIntent::ApplyTheme { appearance } => restyle_all(state, appearance),
        TerminalWorkspaceIntent::CloseAllContextMenus => close_all_menus(state),
        TerminalWorkspaceIntent::FocusActive => reduce_focus_active(state, ctx.active_tab_id),
        TerminalWorkspaceIntent::SyncSelection { tab_id } => reduce_sync_selection(state, tab_id),
        TerminalWorkspaceIntent::SyncPaneGridSize => {
            resize_all(state, ctx.pane_grid_size);
            no_tasks()
        },
        other => reduce_tab_event(
            state,
            other,
            ctx,
            Ghost(before),
            Ghost(opened),
            Ghost(answers),
        ),
    }
}

} // verus!
