//! What each event does to the workspace, as a user of it sees it.

use iced_widget::pane_grid::{Axis, Pane};
use vstd::prelude::*;

use crate::geometry::{Point, Size};
use crate::ids::{ascending, finite_set_is_listed};
use crate::session_options::Settings;
use crate::terminal_workspace::commands::concat;
use crate::terminal_workspace::layout::{
    closed_up, closing_shows_one_less, divided, each_once, shows, successor, Layout,
};
use crate::terminal_workspace::reducer::{
    clear_other_tasks, sync_task, workspace_reduced, GridAnswers, TerminalWorkspaceCtx, WorkspaceModel,
};
use crate::terminal_workspace::state::{
    clear_tasks, is_shown, pane_showing, restyle_tasks, tab_ok, TabModel,
};
use crate::terminal_workspace::types::{
    BlockCommandModel, TerminalEvent, TerminalKind, TerminalWorkspaceIntent, WorkspaceEffectModel,
    WorkspaceTaskModel,
};

verus! {

/// What is copied of a selected block is what was asked for: its content, its
/// prompt or its command. The order goes to the widget of the block's terminal,
/// and before anything else.
pub proof fn block_is_copied_as_asked(
    workspace: WorkspaceModel,
    tab_id: u64,
    terminal_id: u64,
    block_id: Seq<char>,
    ctx: TerminalWorkspaceCtx,
    opened: Result<u64, String>,
    answers: GridAnswers,
)
    requires
        workspace.tabs.contains_key(tab_id),
        workspace.tabs[tab_id].terminals.contains_key(terminal_id),
        workspace.tabs[tab_id].selected_block matches Some(selection) && selection.terminal_id
            == terminal_id && selection.block_id == block_id,
    ensures
        ({
            let widget_id = workspace.tabs[tab_id].terminals[terminal_id].widget_id;
            let content = workspace_reduced(
                workspace,
                TerminalWorkspaceIntent::CopySelectedBlockContent { tab_id, terminal_id },
                ctx,
                opened,
                answers,
            );
            let prompt = workspace_reduced(
                workspace,
                TerminalWorkspaceIntent::CopySelectedBlockPrompt { tab_id, terminal_id },
                ctx,
                opened,
                answers,
            );
            let command = workspace_reduced(
                workspace,
                TerminalWorkspaceIntent::CopySelectedBlockCommand { tab_id, terminal_id },
                ctx,
                opened,
                answers,
            );
            &&& content.1.len() > 0 && content.1[0] == WorkspaceTaskModel::Block(
                widget_id,
                BlockCommandModel::CopyContent(block_id),
            )
            &&& prompt.1.len() > 0 && prompt.1[0] == WorkspaceTaskModel::Block(
                widget_id,
                BlockCommandModel::CopyPrompt(block_id),
            )
            &&& command.1.len() > 0 && command.1[0] == WorkspaceTaskModel::Block(
                widget_id,
                BlockCommandModel::CopyCommand(block_id),
            )
            &&& content.0.tabs[tab_id].context_menu is None
            &&& prompt.0 == content.0
            &&& command.0 == content.0
            &&& prompt.1.skip(1) == content.1.skip(1)
            &&& command.1.skip(1) == content.1.skip(1)
        }),
{
    let content = workspace_reduced(
        workspace,
        TerminalWorkspaceIntent::CopySelectedBlockContent { tab_id, terminal_id },
        ctx,
        opened,
        answers,
    );
    let prompt = workspace_reduced(
        workspace,
        TerminalWorkspaceIntent::CopySelectedBlockPrompt { tab_id, terminal_id },
        ctx,
        opened,
        answers,
    );
    let command = workspace_reduced(
        workspace,
        TerminalWorkspaceIntent::CopySelectedBlockCommand { tab_id, terminal_id },
        ctx,
        opened,
        answers,
    );
    assert(prompt.1.skip(1) =~= content.1.skip(1));
    assert(command.1.skip(1) =~= content.1.skip(1));
}

/// Nothing is copied of a block that is not selected, or not in the terminal.
pub proof fn no_block_no_copy(
    workspace: WorkspaceModel,
    event: TerminalWorkspaceIntent,
    tab_id: u64,
    terminal_id: u64,
    ctx: TerminalWorkspaceCtx,
    opened: Result<u64, String>,
    answers: GridAnswers,
)
    requires
        event == (TerminalWorkspaceIntent::CopySelectedBlockContent { tab_id, terminal_id })
            || event == (TerminalWorkspaceIntent::CopySelectedBlockPrompt { tab_id, terminal_id })
            || event == (TerminalWorkspaceIntent::CopySelectedBlockCommand { tab_id, terminal_id }),
        !workspace.tabs.contains_key(tab_id)
            || !workspace.tabs[tab_id].terminals.contains_key(terminal_id)
            || workspace.tabs[tab_id].selected_block is None
            || workspace.tabs[tab_id].selected_block->0.terminal_id != terminal_id,
    ensures
        workspace_reduced(workspace, event, ctx, opened, answers).0 == workspace,
        workspace_reduced(workspace, event, ctx, opened, answers).1.len() == 0,
{
}

/// Copying takes the selection of the terminal that it is asked of, and pasting
/// goes into that terminal, once the menu is closed and the focus is back.
pub proof fn copy_and_paste_reach_the_terminal(
    workspace: WorkspaceModel,
    tab_id: u64,
    terminal_id: u64,
    ctx: TerminalWorkspaceCtx,
    opened: Result<u64, String>,
    answers: GridAnswers,
)
    ensures
        ({
            let copied = workspace_reduced(
                workspace,
                TerminalWorkspaceIntent::CopySelection { tab_id, terminal_id },
                ctx,
                opened,
                answers,
            );
            let pasted = workspace_reduced(
                workspace,
                TerminalWorkspaceIntent::PasteIntoPrompt { tab_id, terminal_id },
                ctx,
                opened,
                answers,
            );
            let tab = workspace.tabs[tab_id];
            if workspace.tabs.contains_key(tab_id) && tab.terminals.contains_key(terminal_id) {
                let widget_id = tab.terminals[terminal_id].widget_id;
                &&& copied.1.len() > 0 && copied.1[0] == WorkspaceTaskModel::Block(
                    widget_id,
                    BlockCommandModel::CopySelection,
                )
                &&& pasted.1.len() > 0 && pasted.1.last() == WorkspaceTaskModel::Block(
                    widget_id,
                    BlockCommandModel::PasteClipboard,
                )
                &&& pasted.1.drop_last() == copied.1.skip(1)
                &&& copied.0.tabs[tab_id].context_menu is None
                &&& pasted.0 == copied.0
            } else {
                copied.0 == workspace && copied.1.len() == 0 && pasted.0 == workspace
                    && pasted.1.len() == 0
            }
        }),
{
    let copied = workspace_reduced(
        workspace,
        TerminalWorkspaceIntent::CopySelection { tab_id, terminal_id },
        ctx,
        opened,
        answers,
    );
    let pasted = workspace_reduced(
        workspace,
        TerminalWorkspaceIntent::PasteIntoPrompt { tab_id, terminal_id },
        ctx,
        opened,
        answers,
    );
    if workspace.tabs.contains_key(tab_id)
        && workspace.tabs[tab_id].terminals.contains_key(terminal_id) {
        assert(pasted.1.drop_last() =~= copied.1.skip(1));
    }
}

/// A tab that opens has one pane on a new terminal, which has the focus; its
/// title is the default one, and the terminal is known to be in it. The explorer
/// follows where that was asked for.
pub proof fn opened_tab_shows_its_terminal(
    workspace: WorkspaceModel,
    tab_id: u64,
    default_title: String,
    settings: Box<Settings>,
    kind: TerminalKind,
    sync_explorer: bool,
    ctx: TerminalWorkspaceCtx,
    widget_id: u64,
    answers: GridAnswers,
)
    requires
        workspace.next_id < u64::MAX,
    ensures
        ({
            let (after, tasks) = workspace_reduced(
                workspace,
                TerminalWorkspaceIntent::OpenTab {
                    tab_id,
                    default_title,
                    settings,
                    kind,
                    sync_explorer,
                },
                ctx,
                Ok(widget_id),
                answers,
            );
            let tab = after.tabs[tab_id];
            &&& after.tabs.dom() == workspace.tabs.dom().insert(tab_id)
            &&& forall|other: u64|
                other != tab_id ==> #[trigger] after.tabs[other] == workspace.tabs[other]
            &&& tab.tab_id == tab_id
            &&& tab.title == default_title@ && tab.default_title == default_title@
            &&& tab.kind == kind
            &&& tab.settings == (*settings)@
            &&& tab.grid_size == ctx.pane_grid_size
            &&& tab.focus is Some
            &&& tab.panes.dom() == set![tab.focus->0]
            &&& tab.panes[tab.focus->0] == workspace.next_id
            &&& tab.layout == Layout::Leaf(tab.focus->0)
            &&& tab.terminals.dom() == set![workspace.next_id]
            &&& tab.terminals[workspace.next_id].widget_id == widget_id
            &&& tab.terminals[workspace.next_id].title == default_title@
            &&& tab.context_menu is None && tab.selected_block is None
            &&& after.index == workspace.index.insert(workspace.next_id, tab_id)
            &&& after.next_id == workspace.next_id + 1
            &&& tasks.len() == if sync_explorer {
                3
            } else {
                2int
            }
            &&& tasks[0] == WorkspaceTaskModel::FocusTerminal(widget_id)
            &&& tasks[1] == WorkspaceTaskModel::Effect(
                WorkspaceEffectModel::TitleChanged(tab_id, default_title@),
            )
            &&& sync_explorer ==> tasks[2] == WorkspaceTaskModel::Effect(
                WorkspaceEffectModel::SyncExplorer,
            )
        }),
{
    let (after, tasks) = workspace_reduced(
        workspace,
        TerminalWorkspaceIntent::OpenTab { tab_id, default_title, settings, kind, sync_explorer },
        ctx,
        Ok(widget_id),
        answers,
    );
    let tab = after.tabs[tab_id];
    assert(after.tabs.dom() =~= workspace.tabs.dom().insert(tab_id));
    assert(tab.panes.dom() =~= set![tab.focus->0]);
    assert(tab.terminals.dom() =~= set![workspace.next_id]);
}

/// A terminal that cannot be opened leaves the tabs as they were. The tab is
/// closed, and one for a command tells why, with the message it failed with.
pub proof fn failed_tab_is_closed(
    workspace: WorkspaceModel,
    tab_id: u64,
    default_title: String,
    settings: Box<Settings>,
    kind: TerminalKind,
    sync_explorer: bool,
    ctx: TerminalWorkspaceCtx,
    message: String,
    answers: GridAnswers,
)
    requires
        workspace.next_id < u64::MAX,
    ensures
        ({
            let (after, tasks) = workspace_reduced(
                workspace,
                TerminalWorkspaceIntent::OpenTab {
                    tab_id,
                    default_title,
                    settings,
                    kind,
                    sync_explorer,
                },
                ctx,
                Err(message),
                answers,
            );
            &&& after.tabs == workspace.tabs
            &&& after.index == workspace.index
            &&& after.next_id == workspace.next_id + 1
            &&& tasks.len() == if kind is Command {
                2
            } else {
                1int
            }
            &&& tasks[0] == WorkspaceTaskModel::Effect(WorkspaceEffectModel::TabClosed(tab_id))
            &&& kind is Command ==> tasks[1] == WorkspaceTaskModel::Effect(
                WorkspaceEffectModel::CommandTabOpenFailed(
                    tab_id,
                    "Failed to launch \""@ + default_title@ + "\""@,
                    "Terminal tab initialization failed: "@ + message@,
                ),
            )
        }),
{
}

/// Where a layout divides `axis` between two single panes.
pub open spec fn lie_side_by_side(layout: Layout, axis: Axis, first: Pane, second: Pane) -> bool
    decreases layout,
{
    match layout {
        Layout::Leaf(_) => false,
        Layout::Divided { axis: divider, first: left, second: right } => {
            ||| divider == axis && *left == Layout::Leaf(first) && *right == Layout::Leaf(second)
            ||| lie_side_by_side(*left, axis, first, second)
            ||| lie_side_by_side(*right, axis, first, second)
        },
    }
}

/// The panes of a layout in the order in which they are read.
pub open spec fn reading_order(layout: Layout) -> Seq<Pane>
    decreases layout,
{
    match layout {
        Layout::Leaf(pane) => seq![pane],
        Layout::Divided { first, second, .. } => reading_order(*first) + reading_order(*second),
    }
}

proof fn lemma_shown_is_read(layout: Layout, pane: Pane)
    ensures
        shows(layout, pane) == reading_order(layout).contains(
            pane,
        ),
    decreases layout,
{
    match layout {
        Layout::Leaf(leaf) => {
            assert(seq![leaf][0] == leaf);
        },
        Layout::Divided { first, second, .. } => {
            lemma_shown_is_read(*first, pane);
            lemma_shown_is_read(*second, pane);
            let a = reading_order(*first);
            let b = reading_order(*second);
            if a.contains(pane) {
                let i = choose|i: int| 0 <= i < a.len() && a[i] == pane;
                assert((a + b)[i] == pane);
            }
            if b.contains(pane) {
                let i = choose|i: int| 0 <= i < b.len() && b[i] == pane;
                assert((a + b)[a.len() + i] == pane);
            }
            if (a + b).contains(pane) {
                let i = choose|i: int| 0 <= i < (a + b).len() && (a + b)[i] == pane;
                if i < a.len() {
                    assert(a[i] == pane);
                } else {
                    assert(b[i - a.len()] == pane);
                }
            }
        },
    }
}

/// A pane that is split lies beside the new one, which comes right after it,
/// with the divider that was asked for. All others stay in their order.
pub proof fn split_panes_lie_side_by_side(
    layout: Layout,
    pane: Pane,
    axis: Axis,
    new_pane: Pane,
)
    requires
        shows(layout, pane),
    ensures
        lie_side_by_side(
            divided(layout, pane, axis, new_pane),
            axis,
            pane,
            new_pane,
        ),
        ({
            let order = reading_order(layout);
            let split = reading_order(
                divided(layout, pane, axis, new_pane),
            );
            exists|i: int|
                0 <= i < order.len() && #[trigger] order[i] == pane && split == order.take(i + 1)
                    + seq![new_pane] + order.skip(i + 1)
        }),
    decreases layout,
{
    let order = reading_order(layout);
    match layout {
        Layout::Leaf(leaf) => {
            let split = reading_order(
                divided(layout, pane, axis, new_pane),
            );
            assert(order[0] == pane);
            assert(reading_order(Layout::Leaf(pane)) == seq![pane]);
            assert(reading_order(Layout::Leaf(new_pane)) == seq![new_pane]);
            assert(split =~= seq![pane] + seq![new_pane]);
            assert(order.take(1) =~= seq![pane]);
            assert(order.skip(1) =~= Seq::empty());
            assert(split =~= order.take(1) + seq![new_pane] + order.skip(1));
        },
        Layout::Divided { first, second, .. } => {
            let a = reading_order(*first);
            let b = reading_order(*second);
            let split = reading_order(
                divided(layout, pane, axis, new_pane),
            );
            if shows(*first, pane) {
                split_panes_lie_side_by_side(*first, pane, axis, new_pane);
                let inner = reading_order(
                    divided(*first, pane, axis, new_pane),
                );
                let i = choose|i: int|
                    0 <= i < a.len() && #[trigger] a[i] == pane && inner == a.take(i + 1)
                        + seq![new_pane] + a.skip(i + 1);
                assert(order[i] == pane);
                assert(order.take(i + 1) =~= a.take(i + 1));
                assert(order.skip(i + 1) =~= a.skip(i + 1) + b);
                assert(split =~= inner + b);
                assert(split =~= order.take(i + 1) + seq![new_pane] + order.skip(i + 1));
            } else {
                split_panes_lie_side_by_side(*second, pane, axis, new_pane);
                let inner = reading_order(
                    divided(*second, pane, axis, new_pane),
                );
                let i = choose|i: int|
                    0 <= i < b.len() && #[trigger] b[i] == pane && inner == b.take(i + 1)
                        + seq![new_pane] + b.skip(i + 1);
                let j = a.len() + i;
                assert(order[j] == pane);
                assert(order.take(j + 1) =~= a + b.take(i + 1));
                assert(order.skip(j + 1) =~= b.skip(i + 1));
                assert(split =~= a + inner);
                assert(split =~= order.take(j + 1) + seq![new_pane] + order.skip(j + 1));
            }
        },
    }
}

/// Closing a pane takes it, and no other, out of the order of the panes.
pub proof fn closed_pane_leaves_the_order(layout: Layout, pane: Pane)
    requires
        shows(layout, pane),
        layout != Layout::Leaf(pane),
        each_once(layout),
    ensures
        ({
            let order = reading_order(layout);
            let left = reading_order(
                closed_up(layout, pane),
            );
            exists|i: int|
                0 <= i < order.len() && #[trigger] order[i] == pane && left == order.take(i)
                    + order.skip(i + 1)
        }),
    decreases layout,
{
    let order = reading_order(layout);
    match layout {
        Layout::Leaf(_) => {},
        Layout::Divided { axis, first, second } => {
            let a = reading_order(*first);
            let b = reading_order(*second);
            let left = reading_order(
                closed_up(layout, pane),
            );
            if *first == Layout::Leaf(pane) {
                assert(a == seq![pane]);
                assert(order[0] == pane);
                assert(left =~= order.take(0) + order.skip(1));
            } else if *second == Layout::Leaf(pane) {
                assert(b == seq![pane]);
                let j = a.len() as int;
                assert(order[j] == pane);
                assert(left =~= order.take(j) + order.skip(j + 1));
            } else if shows(*first, pane) {
                closed_pane_leaves_the_order(*first, pane);
                let inner = reading_order(
                    closed_up(*first, pane),
                );
                let i = choose|i: int|
                    0 <= i < a.len() && #[trigger] a[i] == pane && inner == a.take(i) + a.skip(
                        i + 1,
                    );
                assert(order[i] == pane);
                assert(left =~= inner + b);
                assert(order.take(i) =~= a.take(i));
                assert(order.skip(i + 1) =~= a.skip(i + 1) + b);
                assert(left =~= order.take(i) + order.skip(i + 1));
            } else {
                closed_pane_leaves_the_order(*second, pane);
                let inner = reading_order(
                    closed_up(*second, pane),
                );
                let i = choose|i: int|
                    0 <= i < b.len() && #[trigger] b[i] == pane && inner == b.take(i) + b.skip(
                        i + 1,
                    );
                let j = a.len() + i;
                assert(order[j] == pane);
                assert(left =~= a + inner);
                assert(order.take(j) =~= a + b.take(i));
                assert(order.skip(j + 1) =~= b.skip(i + 1));
                assert(left =~= order.take(j) + order.skip(j + 1));
            }
        },
    }
}

/// A split shows a new terminal beside the pane that was split, and gives it the
/// focus. All that was shown is still shown where it was; the selection of the
/// old terminal and the menu are gone.
pub proof fn split_shows_a_new_terminal(
    workspace: WorkspaceModel,
    tab_id: u64,
    pane: Pane,
    axis: Axis,
    ctx: TerminalWorkspaceCtx,
    widget_id: u64,
    answers: GridAnswers,
)
    requires
        workspace.next_id < u64::MAX,
        workspace.tabs.contains_key(tab_id),
        tab_ok(workspace.tabs[tab_id]),
        workspace.tabs[tab_id].panes.contains_key(pane),
        !workspace.tabs[tab_id].panes.contains_key(answers.new_pane),
        !workspace.tabs[tab_id].terminals.contains_key(workspace.next_id),
        answers.has_room,
    ensures
        ({
            let (after, tasks) = workspace_reduced(
                workspace,
                TerminalWorkspaceIntent::SplitPane { tab_id, pane, axis },
                ctx,
                Ok(widget_id),
                answers,
            );
            let before = workspace.tabs[tab_id];
            let tab = after.tabs[tab_id];
            &&& tab.panes.remove(answers.new_pane) == before.panes
            &&& tab.panes.contains_key(answers.new_pane) && tab.panes[answers.new_pane]
                == workspace.next_id
            &&& tab.terminals.remove(workspace.next_id) == before.terminals
            &&& tab.terminals.contains_key(workspace.next_id)
            &&& tab.terminals[workspace.next_id].widget_id == widget_id
            &&& tab.terminals[workspace.next_id].title == before.default_title
            &&& tab.focus == Some(answers.new_pane)
            &&& tab.title == before.default_title
            &&& tab.context_menu is None
            &&& tab.selected_block matches Some(selection) ==> selection.terminal_id
                != before.panes[pane]
            &&& before.selected_block matches Some(selection) ==> selection.terminal_id
                != before.panes[pane] ==> tab.selected_block == before.selected_block
            &&& lie_side_by_side(tab.layout, axis, pane, answers.new_pane)
            &&& after.index == workspace.index.insert(workspace.next_id, tab_id)
            &&& after.next_id == workspace.next_id + 1
            &&& after.tabs.remove(tab_id) == workspace.tabs.remove(tab_id)
            &&& tasks.len() == 3
            &&& tasks[0] == WorkspaceTaskModel::Block(
                before.terminals[before.panes[pane]].widget_id,
                BlockCommandModel::ClearSelection,
            )
            &&& tasks[1] == WorkspaceTaskModel::FocusTerminal(widget_id)
            &&& tasks[2] == WorkspaceTaskModel::Effect(
                WorkspaceEffectModel::TitleChanged(tab_id, before.default_title),
            )
        }),
{
    let (after, tasks) = workspace_reduced(
        workspace,
        TerminalWorkspaceIntent::SplitPane { tab_id, pane, axis },
        ctx,
        Ok(widget_id),
        answers,
    );
    let before = workspace.tabs[tab_id];
    let tab = after.tabs[tab_id];
    assert(tab.panes.remove(answers.new_pane) =~= before.panes);
    assert(tab.terminals.remove(workspace.next_id) =~= before.terminals);
    assert(after.tabs.remove(tab_id) =~= workspace.tabs.remove(tab_id));
    assert(shows(before.layout, pane));
    split_panes_lie_side_by_side(before.layout, pane, axis, answers.new_pane);
}

/// A split that cannot be made leaves the tab as it was.
pub proof fn failed_split_changes_nothing(
    workspace: WorkspaceModel,
    tab_id: u64,
    pane: Pane,
    axis: Axis,
    ctx: TerminalWorkspaceCtx,
    opened: Result<u64, String>,
    answers: GridAnswers,
)
    requires
        workspace.next_id < u64::MAX,
        workspace.tabs.contains_key(tab_id) ==> !workspace.tabs[tab_id].panes.contains_key(pane)
            || !answers.has_room || opened is Err,
    ensures
        ({
            let (after, tasks) = workspace_reduced(
                workspace,
                TerminalWorkspaceIntent::SplitPane { tab_id, pane, axis },
                ctx,
                opened,
                answers,
            );
            &&& after.tabs == workspace.tabs
            &&& after.index == workspace.index
            &&& after.next_id == workspace.next_id + 1
            &&& forall|i: int| 0 <= i < tasks.len() ==> !((#[trigger] tasks[i]) is FocusTerminal)
        }),
{
    let after = workspace_reduced(
        workspace,
        TerminalWorkspaceIntent::SplitPane { tab_id, pane, axis },
        ctx,
        opened,
        answers,
    ).0;
    assert(after.tabs =~= workspace.tabs);
}

/// A pane that is closed is gone with its terminal; the others stay. Where it
/// had the focus, another pane of the tab gets it, with its terminal's widget
/// and title; else the focus and the title stay.
pub proof fn closed_pane_is_gone(
    workspace: WorkspaceModel,
    tab_id: u64,
    pane: Pane,
    ctx: TerminalWorkspaceCtx,
    opened: Result<u64, String>,
    answers: GridAnswers,
)
    requires
        workspace.tabs.contains_key(tab_id),
        tab_ok(workspace.tabs[tab_id]),
        workspace.tabs[tab_id].panes.dom().len() > 1,
        workspace.tabs[tab_id].panes.contains_key(pane),
    ensures
        ({
            let (after, tasks) = workspace_reduced(
                workspace,
                TerminalWorkspaceIntent::ClosePane { tab_id, pane },
                ctx,
                opened,
                answers,
            );
            let before = workspace.tabs[tab_id];
            let tab = after.tabs[tab_id];
            &&& tab.panes == before.panes.remove(pane)
            &&& tab.terminals == before.terminals.remove(before.panes[pane])
            &&& tab.context_menu is None
            &&& tab.selected_block matches Some(selection) ==> selection.terminal_id
                != before.panes[pane]
            &&& before.selected_block matches Some(selection) ==> selection.terminal_id
                != before.panes[pane] ==> tab.selected_block == before.selected_block
            &&& tab.focus is Some
            &&& tab.panes.contains_key(tab.focus->0)
            &&& tab.title == before.terminals[before.panes[tab.focus->0]].title
            &&& tasks.last() == WorkspaceTaskModel::Effect(
                WorkspaceEffectModel::TitleChanged(tab_id, tab.title),
            )
            &&& if before.focus == Some(pane) {
                tasks.len() == 2 && tasks[0] == WorkspaceTaskModel::FocusTerminal(
                    before.terminals[before.panes[tab.focus->0]].widget_id,
                )
            } else {
                tasks.len() == 1 && tab.focus == before.focus
            }
            &&& after.tabs.remove(tab_id) == workspace.tabs.remove(tab_id)
            &&& after.next_id == workspace.next_id
        }),
{
    let (after, tasks) = workspace_reduced(
        workspace,
        TerminalWorkspaceIntent::ClosePane { tab_id, pane },
        ctx,
        opened,
        answers,
    );
    let before = workspace.tabs[tab_id];
    let tab = after.tabs[tab_id];
    assert(after.tabs.remove(tab_id) =~= workspace.tabs.remove(tab_id));
    assert(shows(before.layout, pane));
    lemma_more_than_a_leaf(before, pane);
    closing_shows_one_less(before.layout, pane);
    let sibling = successor(before.layout, pane);
    assert(before.panes.contains_key(sibling) && sibling != pane);
}

proof fn lemma_more_than_a_leaf(tab: TabModel, pane: Pane)
    requires
        tab_ok(tab),
        tab.panes.dom().len() > 1,
    ensures
        tab.layout != Layout::Leaf(pane),
{
    if tab.layout == Layout::Leaf(pane) {
        assert forall|other: Pane| tab.panes.dom().contains(other) implies set![pane].contains(
            other,
        ) by {
            assert(shows(tab.layout, other));
        }
        assert(tab.panes.dom().subset_of(set![pane]));
        vstd::set_lib::lemma_len_subset(tab.panes.dom(), set![pane]);
    }
}

/// The last pane is not closed: the tab stays as it is and asks to be closed.
pub proof fn last_pane_asks_for_the_tab_to_close(
    workspace: WorkspaceModel,
    tab_id: u64,
    pane: Pane,
    ctx: TerminalWorkspaceCtx,
    opened: Result<u64, String>,
    answers: GridAnswers,
)
    requires
        workspace.tabs.contains_key(tab_id),
        workspace.tabs[tab_id].panes.dom().len() == 1,
    ensures
        ({
            let (after, tasks) = workspace_reduced(
                workspace,
                TerminalWorkspaceIntent::ClosePane { tab_id, pane },
                ctx,
                opened,
                answers,
            );
            &&& after.tabs == workspace.tabs
            &&& tasks.len() == 2
            &&& tasks[0] == WorkspaceTaskModel::Effect(
                WorkspaceEffectModel::TabClosed(workspace.tabs[tab_id].tab_id),
            )
        }),
{
    let after = workspace_reduced(
        workspace,
        TerminalWorkspaceIntent::ClosePane { tab_id, pane },
        ctx,
        opened,
        answers,
    ).0;
    assert(after.tabs =~= workspace.tabs);
}

/// A terminal whose session is over goes as if its pane were closed.
pub proof fn ended_terminal_closes_its_pane(
    workspace: WorkspaceModel,
    tab_id: u64,
    pane: Pane,
    ctx: TerminalWorkspaceCtx,
    opened: Result<u64, String>,
    answers: GridAnswers,
)
    requires
        workspace.tabs.contains_key(tab_id),
        tab_ok(workspace.tabs[tab_id]),
        workspace.tabs[tab_id].panes.contains_key(pane),
        workspace.index.contains_key(workspace.tabs[tab_id].panes[pane]),
        workspace.index[workspace.tabs[tab_id].panes[pane]] == tab_id,
    ensures
        ({
            let id = workspace.tabs[tab_id].panes[pane];
            let ended = workspace_reduced(
                workspace,
                TerminalWorkspaceIntent::Widget(TerminalEvent::Shutdown { id }),
                ctx,
                opened,
                answers,
            );
            let closed = workspace_reduced(
                workspace,
                TerminalWorkspaceIntent::ClosePane { tab_id, pane },
                ctx,
                opened,
                answers,
            );
            ended == closed
        }),
{
    let id = workspace.tabs[tab_id].panes[pane];
    let tab = workspace.tabs[tab_id];
    let shown = pane_showing(tab, id);
    assert(is_shown(tab.panes, id));
    assert(tab.panes.contains_key(shown) && tab.panes[shown] == id);
    assert(shown == pane);
    let ended = workspace_reduced(
        workspace,
        TerminalWorkspaceIntent::Widget(TerminalEvent::Shutdown { id }),
        ctx,
        opened,
        answers,
    );
    let closed = workspace_reduced(
        workspace,
        TerminalWorkspaceIntent::ClosePane { tab_id, pane },
        ctx,
        opened,
        answers,
    );
    assert(ended.1 =~= closed.1);
}

/// A click on a pane gives it the focus and closes the menu; the tab takes the
/// title of the terminal in it, whose widget gets the keyboard.
pub proof fn clicked_pane_has_the_focus(
    workspace: WorkspaceModel,
    tab_id: u64,
    pane: Pane,
    ctx: TerminalWorkspaceCtx,
    opened: Result<u64, String>,
    answers: GridAnswers,
)
    requires
        workspace.tabs.contains_key(tab_id),
        tab_ok(workspace.tabs[tab_id]),
        workspace.tabs[tab_id].panes.contains_key(pane),
    ensures
        ({
            let (after, tasks) = workspace_reduced(
                workspace,
                TerminalWorkspaceIntent::PaneClicked { tab_id, pane },
                ctx,
                opened,
                answers,
            );
            let before = workspace.tabs[tab_id];
            let entry = before.terminals[before.panes[pane]];
            &&& after.tabs[tab_id] == (TabModel {
                focus: Some(pane),
                context_menu: None,
                title: entry.title,
                ..before
            })
            &&& after.tabs.remove(tab_id) == workspace.tabs.remove(tab_id)
            &&& tasks.len() == 2
            &&& tasks[0] == WorkspaceTaskModel::FocusTerminal(entry.widget_id)
            &&& tasks[1] == WorkspaceTaskModel::Effect(
                WorkspaceEffectModel::TitleChanged(tab_id, entry.title),
            )
        }),
{
    let after = workspace_reduced(
        workspace,
        TerminalWorkspaceIntent::PaneClicked { tab_id, pane },
        ctx,
        opened,
        answers,
    ).0;
    assert(after.tabs.remove(tab_id) =~= workspace.tabs.remove(tab_id));
}

/// The keyboard goes to the terminal with the focus in the active tab, and to
/// nothing where there is none.
pub proof fn active_terminal_gets_the_keyboard(
    workspace: WorkspaceModel,
    ctx: TerminalWorkspaceCtx,
    opened: Result<u64, String>,
    answers: GridAnswers,
)
    ensures
        ({
            let (after, tasks) = workspace_reduced(
                workspace,
                TerminalWorkspaceIntent::FocusActive,
                ctx,
                opened,
                answers,
            );
            &&& after == workspace
            &&& ctx.active_tab_id is None ==> tasks.len() == 0
            &&& ctx.active_tab_id matches Some(tab_id) ==> {
                let tab = workspace.tabs[tab_id];
                &&& !workspace.tabs.contains_key(tab_id) ==> tasks.len() == 0
                &&& workspace.tabs.contains_key(tab_id) && tab_ok(tab) ==> tasks.len() == 1
                    && tasks[0] == WorkspaceTaskModel::FocusTerminal(
                    tab.terminals[tab.panes[tab.focus->0]].widget_id,
                )
            }
        }),
{
}

/// A menu opens where the cursor is, on the terminal that it is asked for, and
/// gets the keyboard; the pane gets the focus, and the block under the cursor is
/// selected. None opens on the alternate screen.
pub proof fn menu_opens_on_the_terminal(
    workspace: WorkspaceModel,
    tab_id: u64,
    pane: Pane,
    terminal_id: u64,
    alt_screen: bool,
    ctx: TerminalWorkspaceCtx,
    opened: Result<u64, String>,
    answers: GridAnswers,
)
    requires
        workspace.tabs.contains_key(tab_id),
        tab_ok(workspace.tabs[tab_id]),
        workspace.tabs[tab_id].panes.contains_key(pane),
        workspace.tabs[tab_id].terminals.contains_key(terminal_id),
    ensures
        ({
            let (after, tasks) = workspace_reduced(
                workspace,
                TerminalWorkspaceIntent::OpenContextMenu { tab_id, pane, terminal_id, alt_screen },
                ctx,
                opened,
                answers,
            );
            let before = workspace.tabs[tab_id];
            let tab = after.tabs[tab_id];
            if alt_screen {
                tab == before && tasks.len() == 1
            } else {
                &&& tab.context_menu matches Some(menu) && menu.pane == pane && menu.cursor
                    == ctx.sidebar_cursor && menu.grid_size == ctx.screen_size && menu.terminal_id
                    == terminal_id && menu.focus_target == ctx.fresh_widget_id
                &&& tab.focus == Some(pane)
                &&& tab.title == before.terminals[before.panes[pane]].title
                &&& tab.selected_block == before.selected_block
                &&& tasks.len() == 3
                &&& tasks[0] == WorkspaceTaskModel::Block(
                    before.terminals[terminal_id].widget_id,
                    BlockCommandModel::SelectHovered,
                )
                &&& tasks[1] == WorkspaceTaskModel::FocusElement(ctx.fresh_widget_id)
            }
        }),
{
}

proof fn lemma_ascending_contains(ids: Set<u64>, id: u64)
    requires
        ids.finite(),
    ensures
        ascending(ids).contains(id) == ids.contains(id),
{
    finite_set_is_listed(ids);
    assert(ascending(ids).to_set().contains(id) == ids.contains(id));
}

/// When the menu of a tab is closed, no block is selected any more: every
/// terminal of the tab is told, and the keyboard goes back to the terminal with
/// the focus.
pub proof fn closed_menu_clears_the_selection(
    workspace: WorkspaceModel,
    tab_id: u64,
    terminal_id: u64,
    ctx: TerminalWorkspaceCtx,
    opened: Result<u64, String>,
    answers: GridAnswers,
)
    requires
        workspace.tabs.contains_key(tab_id),
        tab_ok(workspace.tabs[tab_id]),
        workspace.tabs[tab_id].terminals.dom().finite(),
        workspace.tabs[tab_id].context_menu is Some,
        workspace.tabs[tab_id].terminals.contains_key(terminal_id),
    ensures
        ({
            let (after, tasks) = workspace_reduced(
                workspace,
                TerminalWorkspaceIntent::CloseContextMenu { tab_id },
                ctx,
                opened,
                answers,
            );
            let before = workspace.tabs[tab_id];
            let n = tasks.len() as int;
            &&& after.tabs[tab_id] == (TabModel {
                context_menu: None,
                selected_block: None,
                ..before
            })
            &&& tasks.contains(
                WorkspaceTaskModel::Block(
                    before.terminals[terminal_id].widget_id,
                    BlockCommandModel::ClearSelection,
                ),
            )
            &&& n >= 2
            &&& tasks[n - 2] == WorkspaceTaskModel::FocusTerminal(
                before.terminals[before.panes[before.focus->0]].widget_id,
            )
        }),
{
    let (after, tasks) = workspace_reduced(
        workspace,
        TerminalWorkspaceIntent::CloseContextMenu { tab_id },
        ctx,
        opened,
        answers,
    );
    let before = workspace.tabs[tab_id];
    let ids = ascending(before.terminals.dom());
    lemma_ascending_contains(before.terminals.dom(), terminal_id);
    let i = choose|i: int| 0 <= i < ids.len() && ids[i] == terminal_id;
    let clears = clear_tasks(before.terminals, ids);
    assert(tasks[i] == clears[i]);
    assert(after.tabs[tab_id] =~= (TabModel {
        context_menu: None,
        selected_block: None,
        ..before
    }));
}

/// A tab without a menu is left alone when its menu is closed.
pub proof fn no_menu_nothing_to_close(
    workspace: WorkspaceModel,
    tab_id: u64,
    ctx: TerminalWorkspaceCtx,
    opened: Result<u64, String>,
    answers: GridAnswers,
)
    requires
        workspace.tabs.contains_key(tab_id),
        workspace.tabs[tab_id].context_menu is None,
    ensures
        workspace_reduced(
            workspace,
            TerminalWorkspaceIntent::CloseContextMenu { tab_id },
            ctx,
            opened,
            answers,
        ).0.tabs[tab_id] == workspace.tabs[tab_id],
{
}

/// A terminal that has a new title shows it, and so does its tab where the
/// terminal has the focus; a reset gives back the title that the tab came with.
/// No other terminal is touched.
pub proof fn titles_follow_the_terminals(
    workspace: WorkspaceModel,
    tab_id: u64,
    id: u64,
    title: String,
    ctx: TerminalWorkspaceCtx,
    opened: Result<u64, String>,
    answers: GridAnswers,
)
    requires
        workspace.index.contains_key(id),
        workspace.index[id] == tab_id,
        workspace.tabs.contains_key(tab_id),
        tab_ok(workspace.tabs[tab_id]),
        workspace.tabs[tab_id].terminals.contains_key(id),
    ensures
        ({
            let (changed, tasks) = workspace_reduced(
                workspace,
                TerminalWorkspaceIntent::Widget(TerminalEvent::TitleChanged { id, title }),
                ctx,
                opened,
                answers,
            );
            let (reset, _) = workspace_reduced(
                workspace,
                TerminalWorkspaceIntent::Widget(TerminalEvent::ResetTitle { id }),
                ctx,
                opened,
                answers,
            );
            let before = workspace.tabs[tab_id];
            let tab = changed.tabs[tab_id];
            let fresh = reset.tabs[tab_id];
            let focused = before.panes[before.focus->0] == id;
            &&& tab.terminals[id].title == title@
            &&& tab.terminals[id].widget_id == before.terminals[id].widget_id
            &&& tab.terminals.remove(id) == before.terminals.remove(id)
            &&& tab.title == if focused {
                title@
            } else {
                before.title
            }
            &&& fresh.terminals[id].title == before.default_title
            &&& fresh.terminals.remove(id) == before.terminals.remove(id)
            &&& fresh.title == if focused {
                before.default_title
            } else {
                before.title
            }
            &&& tab.panes == before.panes && tab.focus == before.focus
            &&& tasks.len() > 0 && tasks.last() == WorkspaceTaskModel::Effect(
                WorkspaceEffectModel::TitleChanged(tab_id, tab.title),
            )
        }),
{
    let changed = workspace_reduced(
        workspace,
        TerminalWorkspaceIntent::Widget(TerminalEvent::TitleChanged { id, title }),
        ctx,
        opened,
        answers,
    ).0;
    let reset = workspace_reduced(
        workspace,
        TerminalWorkspaceIntent::Widget(TerminalEvent::ResetTitle { id }),
        ctx,
        opened,
        answers,
    ).0;
    let before = workspace.tabs[tab_id];
    assert(changed.tabs[tab_id].terminals.remove(id) =~= before.terminals.remove(id));
    assert(reset.tabs[tab_id].terminals.remove(id) =~= before.terminals.remove(id));
}

proof fn lemma_clears_others(tab: TabModel, ids: Seq<u64>, keep: u64)
    ensures
        forall|i: int|
            0 <= i < ids.len() && ids[i] != keep ==> clear_other_tasks(tab, ids, keep).contains(
                WorkspaceTaskModel::Block(
                    tab.terminals[#[trigger] ids[i]].widget_id,
                    BlockCommandModel::ClearSelection,
                ),
            ),
        forall|k: int|
            0 <= k < clear_other_tasks(tab, ids, keep).len() ==> exists|i: int|
                0 <= i < ids.len() && ids[i] != keep && #[trigger] clear_other_tasks(
                    tab,
                    ids,
                    keep,
                )[k] == WorkspaceTaskModel::Block(
                    tab.terminals[#[trigger] ids[i]].widget_id,
                    BlockCommandModel::ClearSelection,
                ),
    decreases ids.len(),
{
    if ids.len() > 0 {
        let less = ids.drop_last();
        lemma_clears_others(tab, less, keep);
        let all = clear_other_tasks(tab, ids, keep);
        let rest = clear_other_tasks(tab, less, keep);
        assert forall|i: int| 0 <= i < ids.len() && ids[i] != keep implies all.contains(
            WorkspaceTaskModel::Block(
                tab.terminals[#[trigger] ids[i]].widget_id,
                BlockCommandModel::ClearSelection,
            ),
        ) by {
            let task = WorkspaceTaskModel::Block(
                tab.terminals[ids[i]].widget_id,
                BlockCommandModel::ClearSelection,
            );
            if i < less.len() {
                assert(less[i] == ids[i]);
                assert(rest.contains(task));
                let k = choose|k: int| 0 <= k < rest.len() && rest[k] == task;
                assert(all[k] == task);
            } else {
                assert(all[all.len() - 1] == task);
            }
        }
        assert forall|k: int| 0 <= k < all.len() implies exists|i: int|
            0 <= i < ids.len() && ids[i] != keep && #[trigger] all[k] == WorkspaceTaskModel::Block(
                tab.terminals[#[trigger] ids[i]].widget_id,
                BlockCommandModel::ClearSelection,
            ) by {
            if k < rest.len() {
                assert(all[k] == rest[k]);
                let i = choose|i: int|
                    0 <= i < less.len() && less[i] != keep && #[trigger] rest[k]
                        == WorkspaceTaskModel::Block(
                        tab.terminals[#[trigger] less[i]].widget_id,
                        BlockCommandModel::ClearSelection,
                    );
                assert(ids[i] == less[i]);
            } else {
                let last = ids.len() - 1;
                assert(ids[last] == ids.last());
            }
        }
    }
}

/// A block that is selected in a terminal is the selected block of its tab, and
/// every other terminal of the tab is told to clear its own. The tasks go on with
/// the event itself.
pub proof fn one_block_is_selected_in_a_tab(
    workspace: WorkspaceModel,
    tab_id: u64,
    id: u64,
    block_id: String,
    other: u64,
    ctx: TerminalWorkspaceCtx,
    opened: Result<u64, String>,
    answers: GridAnswers,
)
    requires
        workspace.index.contains_key(id),
        workspace.index[id] == tab_id,
        workspace.tabs.contains_key(tab_id),
        workspace.tabs[tab_id].terminals.dom().finite(),
        workspace.tabs[tab_id].terminals.contains_key(id),
        workspace.tabs[tab_id].terminals.contains_key(other),
        other != id,
    ensures
        ({
            let (after, tasks) = workspace_reduced(
                workspace,
                TerminalWorkspaceIntent::Widget(TerminalEvent::BlockSelected { id, block_id }),
                ctx,
                opened,
                answers,
            );
            let before = workspace.tabs[tab_id];
            let tab = after.tabs[tab_id];
            &&& tab.selected_block matches Some(selection) && selection.terminal_id == id
                && selection.block_id == block_id@
            &&& tab == (TabModel { selected_block: tab.selected_block, ..before })
            &&& tasks.contains(
                WorkspaceTaskModel::Block(
                    before.terminals[other].widget_id,
                    BlockCommandModel::ClearSelection,
                ),
            )
            &&& tasks.contains(WorkspaceTaskModel::Forward(id))
        }),
{
    let (after, tasks) = workspace_reduced(
        workspace,
        TerminalWorkspaceIntent::Widget(TerminalEvent::BlockSelected { id, block_id }),
        ctx,
        opened,
        answers,
    );
    let before = workspace.tabs[tab_id];
    let ids = ascending(before.terminals.dom());
    lemma_ascending_contains(before.terminals.dom(), other);
    let i = choose|i: int| 0 <= i < ids.len() && ids[i] == other;
    lemma_clears_others(before, ids, id);
    let clears = clear_other_tasks(before, ids, id);
    let task = WorkspaceTaskModel::Block(
        before.terminals[ids[i]].widget_id,
        BlockCommandModel::ClearSelection,
    );
    assert(clears.contains(task));
    let k = choose|k: int| 0 <= k < clears.len() && clears[k] == task;
    assert(tasks[k] == task);
    assert(tasks[clears.len() as int] == WorkspaceTaskModel::Forward(id));
}

/// A terminal that clears its selection takes it away from the tab only where
/// it is its own.
pub proof fn selection_is_cleared_by_its_terminal(
    workspace: WorkspaceModel,
    tab_id: u64,
    id: u64,
    ctx: TerminalWorkspaceCtx,
    opened: Result<u64, String>,
    answers: GridAnswers,
)
    requires
        workspace.index.contains_key(id),
        workspace.index[id] == tab_id,
        workspace.tabs.contains_key(tab_id),
    ensures
        ({
            let after = workspace_reduced(
                workspace,
                TerminalWorkspaceIntent::Widget(TerminalEvent::BlockSelectionCleared { id }),
                ctx,
                opened,
                answers,
            ).0;
            let before = workspace.tabs[tab_id].selected_block;
            match before {
                Some(selection) => after.tabs[tab_id].selected_block == if selection.terminal_id
                    == id {
                    None
                } else {
                    before
                },
                None => after.tabs[tab_id].selected_block is None,
            }
        }),
{
}

/// An event that is for the terminal alone is handed on to it and changes
/// nothing else. One of a terminal that no tab has is passed over.
pub proof fn other_events_are_handed_on(
    workspace: WorkspaceModel,
    id: u64,
    ctx: TerminalWorkspaceCtx,
    opened: Result<u64, String>,
    answers: GridAnswers,
)
    ensures
        ({
            let (after, tasks) = workspace_reduced(
                workspace,
                TerminalWorkspaceIntent::Widget(TerminalEvent::Other { id }),
                ctx,
                opened,
                answers,
            );
            &&& after == workspace
            &&& !workspace.index.contains_key(id) ==> tasks.len() == 0
            &&& workspace.index.contains_key(id) && workspace.tabs.contains_key(
                workspace.index[id],
            ) && workspace.tabs[workspace.index[id]].terminals.contains_key(id) ==> tasks[0]
                == WorkspaceTaskModel::Forward(id)
        }),
{
    let after = workspace_reduced(
        workspace,
        TerminalWorkspaceIntent::Widget(TerminalEvent::Other { id }),
        ctx,
        opened,
        answers,
    ).0;
    assert(after.tabs =~= workspace.tabs);
    assert(after =~= workspace);
}

/// An event of a terminal that no tab has does nothing.
pub proof fn unknown_terminal_is_passed_over(
    workspace: WorkspaceModel,
    event: TerminalEvent,
    ctx: TerminalWorkspaceCtx,
    opened: Result<u64, String>,
    answers: GridAnswers,
)
    requires
        !workspace.index.contains_key(
            match event {
                TerminalEvent::Shutdown { id } => id,
                TerminalEvent::TitleChanged { id, .. } => id,
                TerminalEvent::ResetTitle { id } => id,
                TerminalEvent::BlockSelected { id, .. } => id,
                TerminalEvent::BlockSelectionCleared { id } => id,
                TerminalEvent::Other { id } => id,
            },
        ),
    ensures
        workspace_reduced(workspace, TerminalWorkspaceIntent::Widget(event), ctx, opened, answers).0
            == workspace,
        workspace_reduced(
            workspace,
            TerminalWorkspaceIntent::Widget(event),
            ctx,
            opened,
            answers,
        ).1.len() == 0,
{
}

proof fn lemma_concat_contains<T>(lists: Seq<Seq<T>>, i: int, value: T)
    requires
        0 <= i < lists.len(),
        lists[i].contains(value),
    ensures
        concat(lists).contains(value),
    decreases lists.len(),
{
    let rest = concat(lists.drop_last());
    let last = lists.last();
    if i == lists.len() - 1 {
        let k = choose|k: int| 0 <= k < last.len() && last[k] == value;
        assert(concat(lists)[rest.len() + k] == value);
    } else {
        lemma_concat_contains(lists.drop_last(), i, value);
        let k = choose|k: int| 0 <= k < rest.len() && rest[k] == value;
        assert(concat(lists)[k] == value);
    }
}

/// A look is for all tabs, and every terminal of every tab is told to take it.
/// Nothing else of a tab changes.
pub proof fn look_reaches_every_terminal(
    workspace: WorkspaceModel,
    appearance: u64,
    tab_id: u64,
    terminal_id: u64,
    ctx: TerminalWorkspaceCtx,
    opened: Result<u64, String>,
    answers: GridAnswers,
)
    requires
        workspace.tabs.dom().finite(),
        workspace.tabs.contains_key(tab_id),
        workspace.tabs[tab_id].terminals.dom().finite(),
        workspace.tabs[tab_id].terminals.contains_key(terminal_id),
    ensures
        ({
            let (after, tasks) = workspace_reduced(
                workspace,
                TerminalWorkspaceIntent::ApplyTheme { appearance },
                ctx,
                opened,
                answers,
            );
            let before = workspace.tabs[tab_id];
            let tab = after.tabs[tab_id];
            &&& after.tabs.dom() == workspace.tabs.dom()
            &&& tab.settings.appearance == appearance
            &&& tab.settings.session == before.settings.session
            &&& tab == (TabModel { settings: tab.settings, ..before })
            &&& tasks.contains(WorkspaceTaskModel::Restyle(terminal_id))
            &&& after.index == workspace.index
        }),
{
    let (after, tasks) = workspace_reduced(
        workspace,
        TerminalWorkspaceIntent::ApplyTheme { appearance },
        ctx,
        opened,
        answers,
    );
    assert(after.tabs.dom() =~= workspace.tabs.dom());
    let ids = ascending(workspace.tabs.dom());
    lemma_ascending_contains(workspace.tabs.dom(), tab_id);
    let i = choose|i: int| 0 <= i < ids.len() && ids[i] == tab_id;
    let inner = ascending(workspace.tabs[tab_id].terminals.dom());
    lemma_ascending_contains(workspace.tabs[tab_id].terminals.dom(), terminal_id);
    let k = choose|k: int| 0 <= k < inner.len() && inner[k] == terminal_id;
    assert(restyle_tasks(inner)[k] == WorkspaceTaskModel::Restyle(terminal_id));
    let tabs = workspace.tabs;
    let lists = ids.map_values(|id: u64| restyle_tasks(ascending(tabs[id].terminals.dom())));
    assert(lists[i] == restyle_tasks(inner));
    assert(lists[i].contains(WorkspaceTaskModel::Restyle(terminal_id)));
    lemma_concat_contains(lists, i, WorkspaceTaskModel::Restyle(terminal_id));
}

/// Closing all menus leaves no tab with one.
pub proof fn all_menus_are_closed(
    workspace: WorkspaceModel,
    tab_id: u64,
    ctx: TerminalWorkspaceCtx,
    opened: Result<u64, String>,
    answers: GridAnswers,
)
    requires
        workspace.tabs.contains_key(tab_id),
        tab_ok(workspace.tabs[tab_id]),
    ensures
        ({
            let after = workspace_reduced(
                workspace,
                TerminalWorkspaceIntent::CloseAllContextMenus,
                ctx,
                opened,
                answers,
            ).0;
            let before = workspace.tabs[tab_id];
            &&& after.tabs.dom() == workspace.tabs.dom()
            &&& after.tabs[tab_id].context_menu is None
            &&& before.context_menu is None ==> after.tabs[tab_id] == before
            &&& before.context_menu is Some ==> after.tabs[tab_id].selected_block is None
            &&& after.tabs[tab_id].panes == before.panes
            &&& after.tabs[tab_id].terminals == before.terminals
            &&& after.tabs[tab_id].focus == before.focus
        }),
{
    let after = workspace_reduced(
        workspace,
        TerminalWorkspaceIntent::CloseAllContextMenus,
        ctx,
        opened,
        answers,
    ).0;
    assert(after.tabs.dom() =~= workspace.tabs.dom());
}

/// Each terminal of a tab is told what is selected in it: its block where the
/// selected one is in it, else nothing.
pub proof fn terminals_are_told_the_selection(
    workspace: WorkspaceModel,
    tab_id: u64,
    terminal_id: u64,
    ctx: TerminalWorkspaceCtx,
    opened: Result<u64, String>,
    answers: GridAnswers,
)
    requires
        workspace.tabs.contains_key(tab_id),
        workspace.tabs[tab_id].terminals.dom().finite(),
        workspace.tabs[tab_id].terminals.contains_key(terminal_id),
    ensures
        ({
            let (after, tasks) = workspace_reduced(
                workspace,
                TerminalWorkspaceIntent::SyncSelection { tab_id },
                ctx,
                opened,
                answers,
            );
            let tab = workspace.tabs[tab_id];
            let widget_id = tab.terminals[terminal_id].widget_id;
            &&& after == workspace
            &&& (tab.selected_block is Some && tab.selected_block->0.terminal_id == terminal_id)
                ==> tasks.contains(
                WorkspaceTaskModel::Block(
                    widget_id,
                    BlockCommandModel::Select(tab.selected_block->0.block_id),
                ),
            )
            &&& (tab.selected_block is None || tab.selected_block->0.terminal_id != terminal_id)
                ==> tasks.contains(
                WorkspaceTaskModel::Block(widget_id, BlockCommandModel::ClearSelection),
            )
        }),
{
    let (after, tasks) = workspace_reduced(
        workspace,
        TerminalWorkspaceIntent::SyncSelection { tab_id },
        ctx,
        opened,
        answers,
    );
    let tab = workspace.tabs[tab_id];
    let ids = ascending(tab.terminals.dom());
    lemma_ascending_contains(tab.terminals.dom(), terminal_id);
    let i = choose|i: int| 0 <= i < ids.len() && ids[i] == terminal_id;
    assert(tasks[i] == sync_task(tab, ids[i]));
}

/// A new size of the window reaches the grid of every tab, and nothing else of
/// it but the cursor, which stays where it is as long as that is inside.
pub proof fn grid_size_reaches_every_tab(
    workspace: WorkspaceModel,
    tab_id: u64,
    ctx: TerminalWorkspaceCtx,
    opened: Result<u64, String>,
    answers: GridAnswers,
)
    requires
        workspace.tabs.contains_key(tab_id),
    ensures
        ({
            let (after, tasks) = workspace_reduced(
                workspace,
                TerminalWorkspaceIntent::SyncPaneGridSize,
                ctx,
                opened,
                answers,
            );
            let before = workspace.tabs[tab_id];
            let tab = after.tabs[tab_id];
            &&& tasks.len() == 0
            &&& after.tabs.dom() == workspace.tabs.dom()
            &&& tab.grid_size == ctx.pane_grid_size
            &&& tab == (TabModel {
                grid_size: ctx.pane_grid_size,
                grid_cursor: tab.grid_cursor,
                ..before
            })
            &&& before.grid_cursor is None ==> tab.grid_cursor is None
            &&& before.grid_cursor matches Some(cursor) ==> tab.grid_cursor matches Some(moved)
                && stays_inside(cursor, ctx.pane_grid_size, moved)
        }),
{
    let after = workspace_reduced(
        workspace,
        TerminalWorkspaceIntent::SyncPaneGridSize,
        ctx,
        opened,
        answers,
    ).0;
    assert(after.tabs.dom() =~= workspace.tabs.dom());
}

/// The least number that is no ordinary number: infinity.
pub open spec fn is_ordinary(bits: u32) -> bool {
    bits < 0x7f80_0000u32
}

/// Whether a point was moved into an area: a coordinate inside stays, one beyond
/// the far edge lands on it. Said of points and areas without negative or endless
/// coordinates.
pub open spec fn stays_inside(point: Point, area: Size, moved: Point) -> bool {
    &&& is_ordinary(point.x_bits) && is_ordinary(area.width_bits) ==> moved.x_bits == if point.x_bits
        <= area.width_bits {
        point.x_bits
    } else {
        area.width_bits
    }
    &&& is_ordinary(point.y_bits) && is_ordinary(area.height_bits) ==> moved.y_bits == if point.y_bits
        <= area.height_bits {
        point.y_bits
    } else {
        area.height_bits
    }
}

/// The cursor of a grid is where the mouse is, and never outside the grid.
pub proof fn cursor_follows_the_mouse(
    workspace: WorkspaceModel,
    tab_id: u64,
    position: Point,
    ctx: TerminalWorkspaceCtx,
    opened: Result<u64, String>,
    answers: GridAnswers,
)
    requires
        workspace.tabs.contains_key(tab_id),
    ensures
        ({
            let after = workspace_reduced(
                workspace,
                TerminalWorkspaceIntent::PaneGridCursorMoved { tab_id, position },
                ctx,
                opened,
                answers,
            ).0;
            let before = workspace.tabs[tab_id];
            let tab = after.tabs[tab_id];
            &&& tab.grid_cursor matches Some(cursor) && stays_inside(
                position,
                before.grid_size,
                cursor,
            )
            &&& tab == (TabModel { grid_cursor: tab.grid_cursor, ..before })
        }),
{
}

/// A tab that is closed is gone with its terminals; the other tabs and theirs
/// stay.
pub proof fn closed_tab_is_gone(
    workspace: WorkspaceModel,
    tab_id: u64,
    ctx: TerminalWorkspaceCtx,
    opened: Result<u64, String>,
    answers: GridAnswers,
)
    ensures
        ({
            let (after, tasks) = workspace_reduced(
                workspace,
                TerminalWorkspaceIntent::TabClosed { tab_id },
                ctx,
                opened,
                answers,
            );
            &&& after.tabs == workspace.tabs.remove(tab_id)
            &&& tasks.len() == 0
            &&& after.next_id == workspace.next_id
            &&& forall|id: u64| #[trigger]
                after.index.contains_key(id) <==> workspace.index.contains_key(id)
                    && workspace.index[id] != tab_id
            &&& forall|id: u64| #[trigger]
                after.index.contains_key(id) ==> after.index[id] == workspace.index[id]
        }),
{
}

/// The tab that an event is for, where it is for one only.
pub open spec fn tab_of(workspace: WorkspaceModel, event: TerminalWorkspaceIntent) -> Option<u64> {
    match event {
        TerminalWorkspaceIntent::OpenTab { tab_id, .. } => Some(tab_id),
        TerminalWorkspaceIntent::TabClosed { tab_id } => Some(tab_id),
        TerminalWorkspaceIntent::PaneClicked { tab_id, .. } => Some(tab_id),
        TerminalWorkspaceIntent::PaneResized { tab_id, .. } => Some(tab_id),
        TerminalWorkspaceIntent::PaneGridCursorMoved { tab_id, .. } => Some(tab_id),
        TerminalWorkspaceIntent::OpenContextMenu { tab_id, .. } => Some(tab_id),
        TerminalWorkspaceIntent::CloseContextMenu { tab_id } => Some(tab_id),
        TerminalWorkspaceIntent::ContextMenuInput { tab_id } => Some(tab_id),
        TerminalWorkspaceIntent::SplitPane { tab_id, .. } => Some(tab_id),
        TerminalWorkspaceIntent::ClosePane { tab_id, .. } => Some(tab_id),
        TerminalWorkspaceIntent::CopySelection { tab_id, .. } => Some(tab_id),
        TerminalWorkspaceIntent::PasteIntoPrompt { tab_id, .. } => Some(tab_id),
        TerminalWorkspaceIntent::CopySelectedBlockContent { tab_id, .. } => Some(tab_id),
        TerminalWorkspaceIntent::CopySelectedBlockPrompt { tab_id, .. } => Some(tab_id),
        TerminalWorkspaceIntent::CopySelectedBlockCommand { tab_id, .. } => Some(tab_id),
        TerminalWorkspaceIntent::SyncSelection { tab_id } => Some(tab_id),
        _ => None,
    }
}

/// An event that is for one tab leaves all others alone, and only those that
/// need a new terminal use up an id.
pub proof fn other_tabs_stay(
    workspace: WorkspaceModel,
    event: TerminalWorkspaceIntent,
    tab_id: u64,
    ctx: TerminalWorkspaceCtx,
    opened: Result<u64, String>,
    answers: GridAnswers,
)
    requires
        tab_of(workspace, event) == Some(tab_id),
        workspace.next_id < u64::MAX,
    ensures
        ({
            let after = workspace_reduced(workspace, event, ctx, opened, answers).0;
            &&& after.tabs.remove(tab_id) == workspace.tabs.remove(tab_id)
            &&& after.next_id == if event is OpenTab || event is SplitPane {
                workspace.next_id + 1
            } else {
                workspace.next_id as int
            }
        }),
{
    let after = workspace_reduced(workspace, event, ctx, opened, answers).0;
    assert(after.tabs.remove(tab_id) =~= workspace.tabs.remove(tab_id));
}

} // verus!
