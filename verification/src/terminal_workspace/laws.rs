//! What holds of the terminal workspace whatever happens to it.

use iced_widget::pane_grid::{Axis, Pane};
use vstd::prelude::*;

use crate::geometry::Size;
use crate::session_options::SettingsModel;
use crate::terminal_workspace::layout::{closing_undoes_dividing, shows};
use crate::terminal_workspace::reducer::{
    in_tab, index_of, index_without, is_in_tab, split_requested, tab_opened, tabs_disjoint,
    takes_an_id,
    widget_event_reduced, workspace_ok, workspace_reduced, GridAnswers, TerminalWorkspaceCtx,
    WorkspaceModel,
};
use crate::terminal_workspace::state::{
    menu_closed, menu_opened, pane_closed, pane_split, tab_ok, PaneMenuModel, TabModel,
};
use crate::terminal_workspace::types::{TerminalEvent, TerminalKind, TerminalWorkspaceIntent};

verus! {

/// Whether the index knows the tab of every terminal.
pub open spec fn index_ok(workspace: WorkspaceModel) -> bool {
    forall|tab_id: u64, id: u64| #[trigger]
        is_in_tab(workspace.tabs, tab_id, id) ==> workspace.index.contains_key(id)
            && workspace.index[id] == tab_id
}

/// Closing the pane that a split has made gives back the panes, their layout and
/// the terminals as they were, and the focus to the pane that was split.
pub proof fn close_undoes_split(
    tab: TabModel,
    pane: Pane,
    axis: Axis,
    terminal_id: u64,
    widget_id: u64,
    new_pane: Pane,
)
    requires
        tab_ok(tab),
        tab.panes.contains_key(pane),
        !tab.panes.contains_key(new_pane),
        !tab.terminals.contains_key(terminal_id),
    ensures
        ({
            let split = pane_split(tab, pane, axis, terminal_id, widget_id, new_pane);
            let after = pane_closed(split, new_pane).0;
            &&& after.panes == tab.panes
            &&& after.terminals == tab.terminals
            &&& after.layout == tab.layout
            &&& after.focus == Some(pane)
            &&& after.title == tab.terminals[tab.panes[pane]].title
        }),
{
    let split = pane_split(tab, pane, axis, terminal_id, widget_id, new_pane);
    assert(split.panes.dom() =~= tab.panes.dom().insert(new_pane));
    assert(tab.panes.dom().len() >= 1) by {
        if tab.panes.dom().len() == 0 {
            assert(tab.panes.dom() =~= Set::empty());
            assert(tab.panes.dom().contains(pane));
        }
    }
    assert(split.panes.dom().len() == tab.panes.dom().len() + 1);
    let after = pane_closed(split, new_pane).0;
    assert(shows(tab.layout, pane));
    assert(!shows(tab.layout, new_pane));
    closing_undoes_dividing(tab.layout, pane, axis, new_pane);
    assert(after.panes =~= tab.panes);
    assert(after.terminals =~= tab.terminals);
}

/// The last pane of a tab cannot be closed.
pub proof fn last_pane_stays(tab: TabModel, pane: Pane)
    requires
        tab.panes.dom().len() == 1,
    ensures
        pane_closed(tab, pane).0 == tab,
{
}

/// A context menu that was opened and closed leaves no menu and no selection.
pub proof fn menu_leaves_nothing(tab: TabModel, menu: PaneMenuModel, alt_screen: bool)
    requires
        tab_ok(tab),
        tab.terminals.contains_key(menu.terminal_id),
        !alt_screen,
    ensures
        ({
            let opened = menu_opened(tab, menu, alt_screen).0;
            let closed = menu_closed(opened).0;
            &&& opened.context_menu == Some(menu)
            &&& closed.context_menu is None
            &&& closed.selected_block is None
            &&& closed.panes == tab.panes
            &&& closed.terminals == tab.terminals
        }),
{
}

proof fn lemma_index_of(tabs: Map<u64, TabModel>)
    requires
        tabs_disjoint(tabs),
    ensures
        forall|tab_id: u64, id: u64| #[trigger]
            is_in_tab(tabs, tab_id, id) ==> index_of(tabs).contains_key(id) && index_of(tabs)[id]
                == tab_id,
{
    assert forall|tab_id: u64, id: u64| #[trigger] is_in_tab(tabs, tab_id, id) implies index_of(
        tabs,
    ).contains_key(id) && index_of(tabs)[id] == tab_id by {
        let chosen = choose|t: u64| is_in_tab(tabs, t, id);
        assert(is_in_tab(tabs, chosen, id));
    }
}

/// No event makes the index lose a terminal: it goes on to know the tab of
/// every one.
pub proof fn index_stays_ok(
    workspace: WorkspaceModel,
    event: TerminalWorkspaceIntent,
    ctx: TerminalWorkspaceCtx,
    opened: Result<u64, String>,
    answers: GridAnswers,
)
    requires
        workspace_ok(workspace),
        index_ok(workspace),
        takes_an_id(event) ==> workspace.next_id < u64::MAX,
    ensures
        index_ok(workspace_reduced(workspace, event, ctx, opened, answers).0),
{
    let after = workspace_reduced(workspace, event, ctx, opened, answers).0;
    match event {
        TerminalWorkspaceIntent::OpenTab {
            tab_id,
            default_title,
            settings,
            kind,
            sync_explorer,
        } => {
            lemma_index_opened(
                workspace,
                tab_id,
                default_title@,
                (*settings)@,
                kind,
                sync_explorer,
                ctx.pane_grid_size,
                opened,
            );
        },
        TerminalWorkspaceIntent::SplitPane { tab_id, pane, axis } => {
            lemma_index_split(workspace, tab_id, pane, axis, opened, answers);
        },
        TerminalWorkspaceIntent::ClosePane { tab_id, pane } => {
            lemma_index_closed(workspace, tab_id, pane);
        },
        TerminalWorkspaceIntent::Widget(event) => {
            lemma_index_widget(workspace, event);
        },
        TerminalWorkspaceIntent::TabClosed { tab_id } => {
            assert forall|t: u64, id: u64| #[trigger] is_in_tab(after.tabs, t, id) implies
                after.index.contains_key(id) && after.index[id] == t by {
                assert(is_in_tab(workspace.tabs, t, id));
            }
        },
        _ => {
            lemma_index_kept(workspace, event, ctx, opened, answers);
        },
    }
}

/// Events that only change what tabs show.
proof fn lemma_index_kept(
    workspace: WorkspaceModel,
    event: TerminalWorkspaceIntent,
    ctx: TerminalWorkspaceCtx,
    opened: Result<u64, String>,
    answers: GridAnswers,
)
    requires
        index_ok(workspace),
        !(event is OpenTab || event is SplitPane || event is ClosePane || event is Widget
            || event is TabClosed),
    ensures
        index_ok(workspace_reduced(workspace, event, ctx, opened, answers).0),
{
    let after = workspace_reduced(workspace, event, ctx, opened, answers).0;
    assert(after.index == workspace.index);
    assert forall|t: u64, id: u64| #[trigger] is_in_tab(after.tabs, t, id) implies is_in_tab(
        workspace.tabs,
        t,
        id,
    ) by {}
}

proof fn lemma_index_closed(workspace: WorkspaceModel, tab_id: u64, pane: Pane)
    requires
        workspace_ok(workspace),
    ensures
        ({
            let after = in_tab(
                workspace,
                tab_id,
                pane_closed(workspace.tabs[tab_id], pane),
            ).0;
            index_ok(WorkspaceModel { index: index_of(after.tabs), ..after })
        }),
{
    let closed = in_tab(
        workspace,
        tab_id,
        pane_closed(workspace.tabs[tab_id], pane),
    ).0;
    let after = WorkspaceModel { index: index_of(closed.tabs), ..closed };
    assert forall|t: u64, id: u64| #[trigger] is_in_tab(after.tabs, t, id) implies is_in_tab(
        workspace.tabs,
        t,
        id,
    ) by {}
    lemma_reindexed(workspace, after);
}

proof fn lemma_reindexed(before: WorkspaceModel, after: WorkspaceModel)
    requires
        workspace_ok(before),
        after.index == index_of(after.tabs),
        forall|t: u64, id: u64| #[trigger]
            is_in_tab(after.tabs, t, id) ==> is_in_tab(before.tabs, t, id),
    ensures
        index_ok(after),
{
    assert forall|a: u64, b: u64, id: u64| #[trigger]
        is_in_tab(after.tabs, a, id) && #[trigger] is_in_tab(after.tabs, b, id) implies a == b by {
        assert(is_in_tab(before.tabs, a, id) && is_in_tab(before.tabs, b, id));
    }
    lemma_index_of(after.tabs);
}

proof fn lemma_index_opened(
    workspace: WorkspaceModel,
    tab_id: u64,
    default_title: Seq<char>,
    settings: SettingsModel,
    kind: TerminalKind,
    sync_explorer: bool,
    grid_size: Size,
    opened: Result<u64, String>,
)
    requires
        workspace_ok(workspace),
        index_ok(workspace),
    ensures
        index_ok(
            tab_opened(
                workspace,
                tab_id,
                default_title,
                settings,
                kind,
                sync_explorer,
                grid_size,
                opened,
            ).0,
        ),
{
    let after = tab_opened(
        workspace,
        tab_id,
        default_title,
        settings,
        kind,
        sync_explorer,
        grid_size,
        opened,
    ).0;
    assert forall|t: u64, id: u64| #[trigger] is_in_tab(after.tabs, t, id) implies
        after.index.contains_key(id) && after.index[id] == t by {
        if !(t == tab_id && opened is Ok) {
            assert(is_in_tab(workspace.tabs, t, id));
        }
    }
}

proof fn lemma_index_split(
    workspace: WorkspaceModel,
    tab_id: u64,
    pane: Pane,
    axis: Axis,
    opened: Result<u64, String>,
    answers: GridAnswers,
)
    requires
        workspace_ok(workspace),
        index_ok(workspace),
    ensures
        index_ok(split_requested(workspace, tab_id, pane, axis, opened, answers).0),
{
    let after = split_requested(workspace, tab_id, pane, axis, opened, answers).0;
    assert forall|t: u64, id: u64| #[trigger] is_in_tab(after.tabs, t, id) implies
        after.index.contains_key(id) && after.index[id] == t by {
        if is_in_tab(workspace.tabs, t, id) {
            assert(id < workspace.next_id);
        }
    }
}

proof fn lemma_index_widget(workspace: WorkspaceModel, event: TerminalEvent)
    requires
        workspace_ok(workspace),
        index_ok(workspace),
    ensures
        index_ok(widget_event_reduced(workspace, event).0),
{
    let after = widget_event_reduced(workspace, event).0;
    assert forall|t: u64, id: u64| #[trigger] is_in_tab(after.tabs, t, id) implies is_in_tab(
        workspace.tabs,
        t,
        id,
    ) by {}
    if event is Shutdown && workspace.index.contains_key(event.spec_terminal_id()) {
        lemma_reindexed(workspace, after);
    } else {
        assert(after.index == workspace.index);
    }
}

/// A tab that was opened and closed leaves the other tabs as they were and no
/// terminal behind.
pub proof fn closed_tab_leaves_nothing(
    workspace: WorkspaceModel,
    tab_id: u64,
    default_title: Seq<char>,
    settings: SettingsModel,
    kind: TerminalKind,
    sync_explorer: bool,
    grid_size: Size,
    widget_id: u64,
)
    requires
        !workspace.tabs.contains_key(tab_id),
        forall|id: u64|
            workspace.index.contains_key(id) ==> #[trigger] workspace.index[id] != tab_id && id
                < workspace.next_id,
    ensures
        ({
            let opened = tab_opened(
                workspace,
                tab_id,
                default_title,
                settings,
                kind,
                sync_explorer,
                grid_size,
                Ok(widget_id),
            ).0;
            &&& opened.tabs.contains_key(tab_id)
            &&& opened.tabs.remove(tab_id) == workspace.tabs
            &&& index_without(opened.index, tab_id) == workspace.index
        }),
{
    let opened = tab_opened(
        workspace,
        tab_id,
        default_title,
        settings,
        kind,
        sync_explorer,
        grid_size,
        Ok(widget_id),
    ).0;
    assert(opened.tabs.remove(tab_id) =~= workspace.tabs);
    assert forall|id: u64| workspace.index.contains_key(id) implies workspace.index[id]
        != tab_id by {
        assert(workspace.index[id] != tab_id);
    }
    assert(!workspace.index.contains_key(workspace.next_id)) by {
        if workspace.index.contains_key(workspace.next_id) {
            assert(workspace.index[workspace.next_id] != tab_id);
        }
    }
    assert(index_without(opened.index, tab_id) =~= workspace.index);
}

} // verus!
