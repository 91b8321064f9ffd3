use std::collections::HashMap;

use iced_widget::pane_grid;
use otty::geometry::{Point, Size};
use otty::session_options::{LocalSessionOptions, SessionKind, Settings};
use otty::terminal_workspace::commands::StateCommand;
use otty::terminal_workspace::reducer::{reduce, terminal_to_open, TerminalWorkspaceCtx};
use otty::terminal_workspace::state::{
    PaneContextMenuState, TerminalTabState, TerminalWorkspaceError, TerminalWorkspaceState,
};
use otty::terminal_workspace::types::{
    BlockCommand, TerminalEvent, TerminalKind, TerminalWorkspaceEffect, TerminalWorkspaceIntent,
    WorkspaceTask,
};

fn point(x: f32, y: f32) -> Point {
    Point { x_bits: x.to_bits(), y_bits: y.to_bits() }
}

fn size(width: f32, height: f32) -> Size {
    Size { width_bits: width.to_bits(), height_bits: height.to_bits() }
}

fn settings_with_program(program: &str) -> Settings {
    Settings {
        appearance: 0,
        session: SessionKind::Local(LocalSessionOptions::default().with_program(program)),
    }
}

fn build_terminal_state(default_title: &str) -> TerminalTabState {
    let (state, widget) = TerminalTabState::new(
        1,
        String::from(default_title),
        10,
        settings_with_program("/bin/sh"),
        TerminalKind::Shell,
        Ok(110),
    )
    .expect("terminal state should initialize");
    assert_eq!(widget, 110);
    state
}

fn default_ctx() -> TerminalWorkspaceCtx {
    TerminalWorkspaceCtx {
        active_tab_id: None,
        pane_grid_size: Size::zero(),
        screen_size: Size::zero(),
        sidebar_cursor: Point::origin(),
        fresh_widget_id: 900,
    }
}

/// A workspace whose terminals get the widget with their id plus 100.
#[derive(Default)]
struct Workspace {
    state: TerminalWorkspaceState,
    terminal_to_tab: HashMap<u64, u64>,
    next_id: u64,
}

impl Workspace {
    fn starting_at(next_id: u64) -> Self {
        Self { next_id, ..Default::default() }
    }

    fn send(&mut self, event: TerminalWorkspaceIntent) -> Vec<WorkspaceTask> {
        self.send_in(event, &default_ctx())
    }

    fn send_in(
        &mut self,
        event: TerminalWorkspaceIntent,
        ctx: &TerminalWorkspaceCtx,
    ) -> Vec<WorkspaceTask> {
        let opened = match terminal_to_open(&self.state, self.next_id, &event) {
            Some((id, _)) => Ok(id + 100),
            None => Err(String::from("no terminal was asked for")),
        };
        reduce(&mut self.state, &mut self.terminal_to_tab, &mut self.next_id, event, ctx, opened)
    }

    fn open(&mut self, tab_id: u64) -> Vec<WorkspaceTask> {
        self.send(TerminalWorkspaceIntent::OpenTab {
            tab_id,
            default_title: String::from("Shell"),
            settings: Box::new(settings_with_program("/bin/sh")),
            kind: TerminalKind::Shell,
            sync_explorer: false,
        })
    }

    fn focus(&self, tab_id: u64) -> pane_grid::Pane {
        self.state.tab(tab_id).and_then(|tab| tab.focus()).expect("focused pane")
    }
}

#[test]
fn given_context_menu_state_when_accessors_called_then_values_match() {
    let (_grid, pane) = pane_grid::State::new(1_u64);
    let menu_state =
        PaneContextMenuState::new(pane, point(20.0, 30.0), size(300.0, 200.0), 77, 5);

    assert_eq!(menu_state.pane(), pane);
    assert_eq!(menu_state.cursor(), point(20.0, 30.0));
    assert_eq!(menu_state.grid_size(), size(300.0, 200.0));
    assert_eq!(menu_state.terminal_id(), 77);
    assert_eq!(menu_state.focus_target(), 5);
}

#[test]
fn given_new_state_when_constructed_then_initial_terminal_is_focused() {
    let state = build_terminal_state("Shell");
    let focused_pane = state.focus().expect("focused pane");
    let focused_terminal_id = state.pane_terminal_id(focused_pane).expect("terminal id");

    assert_eq!(state.title(), "Shell");
    assert!(state.is_shell());
    assert_eq!(state.panes().len(), 1);
    assert_eq!(state.terminals().len(), 1);
    assert_eq!(focused_terminal_id, 10);
    assert_eq!(state.focused_terminal_id(), Some(10));
    assert!(state.context_menu().is_none());
    assert!(state.selected_block().is_none());
}

#[test]
fn given_selected_block_when_cleared_for_matching_terminal_then_selection_removed() {
    let mut state = build_terminal_state("Shell");
    state.set_selected_block(10, String::from("block-1"));

    state.clear_selected_block_for_terminal(11);
    assert_eq!(state.selected_block_terminal(), Some(10));

    state.clear_selected_block_for_terminal(10);
    assert!(state.selected_block().is_none());
}

#[test]
fn given_existing_pane_when_split_then_new_terminal_is_added_and_focused() {
    let mut state = build_terminal_state("Shell");
    let pane = state.focus().expect("focused pane");

    let _task = state.split_pane(pane, pane_grid::Axis::Vertical, 11, Ok(111));

    assert_eq!(state.panes().len(), 2);
    assert_eq!(state.terminals().len(), 2);
    assert!(state.contains_terminal(11));
    assert_eq!(state.focused_terminal_id(), Some(11));
}

#[test]
fn given_selected_block_on_source_when_split_then_selection_is_cleared() {
    let mut state = build_terminal_state("Shell");
    let pane = state.focus().expect("focused pane");
    state.set_selected_block(10, String::from("block-1"));

    let command = state.split_pane(pane, pane_grid::Axis::Vertical, 11, Ok(111));

    assert!(state.selected_block().is_none());
    assert!(matches!(command, StateCommand::Batch(_)));
}

#[test]
fn given_single_pane_when_close_requested_then_state_keeps_terminal() {
    let mut state = build_terminal_state("Shell");
    let pane = state.focus().expect("focused pane");

    let command = state.close_pane(pane);

    assert_eq!(state.panes().len(), 1);
    assert_eq!(state.terminals().len(), 1);
    assert_eq!(state.focus(), Some(pane));
    assert!(matches!(command, StateCommand::CloseTab { tab_id: 1 }));
}

#[test]
fn given_two_panes_when_focused_pane_closed_then_focus_moves_to_sibling() {
    let mut state = build_terminal_state("Shell");
    let initial_pane = state.focus().expect("focused pane");
    let _task = state.split_pane(initial_pane, pane_grid::Axis::Horizontal, 11, Ok(111));
    let closing_pane = state.focus().expect("split pane should be focused");
    state.set_selected_block(11, String::from("block-2"));

    let command = state.close_pane(closing_pane);

    assert_eq!(state.panes().len(), 1);
    assert_eq!(state.terminals().len(), 1);
    assert!(!state.contains_terminal(11));
    assert_eq!(state.focus(), Some(initial_pane));
    assert!(state.selected_block().is_none());
    assert!(matches!(command, StateCommand::FocusTerminal(110)));
}

#[test]
fn given_unknown_terminal_when_open_context_menu_then_state_is_unchanged() {
    let mut state = build_terminal_state("Shell");
    let pane = state.focus().expect("focused pane");

    let _task =
        state.open_context_menu(pane, 999, point(10.0, 10.0), size(100.0, 100.0), false, 7);

    assert!(state.context_menu().is_none());
    assert_eq!(state.focus(), Some(pane));
}

#[test]
fn given_valid_terminal_when_open_and_close_context_menu_then_menu_toggles() {
    let mut state = build_terminal_state("Shell");
    let pane = state.focus().expect("focused pane");
    state.set_selected_block(10, String::from("block-1"));

    let _task =
        state.open_context_menu(pane, 10, point(15.0, 25.0), size(500.0, 300.0), false, 7);

    let menu_state = state.context_menu().expect("context menu state");
    assert_eq!(menu_state.pane(), pane);
    assert_eq!(menu_state.terminal_id(), 10);
    assert_eq!(menu_state.cursor(), point(15.0, 25.0));
    assert_eq!(menu_state.grid_size(), size(500.0, 300.0));

    let _task = state.close_context_menu();
    assert!(state.context_menu().is_none());
    assert!(state.selected_block().is_none());
    assert_eq!(state.focus(), Some(pane));
}

#[test]
fn given_title_events_when_handled_then_tab_title_updates_and_resets() {
    let mut state = build_terminal_state("Shell");

    let _task = state.handle_terminal_event(TerminalEvent::TitleChanged {
        id: 10,
        title: String::from("Renamed"),
    });
    assert_eq!(state.title(), "Renamed");

    let _task = state.handle_terminal_event(TerminalEvent::ResetTitle { id: 10 });
    assert_eq!(state.title(), "Shell");
}

#[test]
fn given_secondary_terminal_shutdown_when_handled_then_terminal_is_closed() {
    let mut state = build_terminal_state("Shell");
    let pane = state.focus().expect("focused pane");
    let _task = state.split_pane(pane, pane_grid::Axis::Vertical, 11, Ok(111));
    assert!(state.contains_terminal(11));

    let _task = state.handle_terminal_event(TerminalEvent::Shutdown { id: 11 });

    assert!(!state.contains_terminal(11));
    assert_eq!(state.panes().len(), 1);
}

#[test]
fn given_grid_cursor_when_updated_and_resized_then_position_is_clamped() {
    let mut state = build_terminal_state("Shell");
    state.set_grid_size(size(100.0, 80.0));

    let _task = state.update_grid_cursor(point(250.0, -5.0));
    assert_eq!(state.grid_cursor(), Some(point(100.0, 0.0)));

    state.set_grid_size(size(10.0, 5.0));
    assert_eq!(state.grid_cursor(), Some(point(10.0, 0.0)));
}

#[test]
fn given_open_tab_command_when_reduced_then_state_stores_tab() {
    let mut workspace = Workspace::starting_at(100);

    let tasks = workspace.send(TerminalWorkspaceIntent::OpenTab {
        tab_id: 1,
        default_title: String::from("Shell"),
        settings: Box::new(settings_with_program("/bin/sh")),
        kind: TerminalKind::Shell,
        sync_explorer: true,
    });

    assert!(workspace.state.tab(1).is_some());
    assert_eq!(workspace.terminal_to_tab.get(&100), Some(&1));
    assert!(matches!(
        &tasks[..],
        [
            WorkspaceTask::FocusTerminal { widget_id: 200 },
            WorkspaceTask::Effect(TerminalWorkspaceEffect::TitleChanged { tab_id: 1, title }),
            WorkspaceTask::Effect(TerminalWorkspaceEffect::SyncExplorer),
        ] if title == "Shell"
    ));
}

#[test]
fn given_invalid_command_tab_when_open_requested_then_close_and_error_effects_emitted() {
    let mut state = TerminalWorkspaceState::default();
    let mut terminal_to_tab = HashMap::new();
    let mut next_id = 100_u64;
    let ctx = default_ctx();

    let tasks = reduce(
        &mut state,
        &mut terminal_to_tab,
        &mut next_id,
        TerminalWorkspaceIntent::OpenTab {
            tab_id: 99,
            default_title: String::from("Broken command"),
            settings: Box::new(settings_with_program(
                "/definitely/not/existing/otty-v3-missing-command",
            )),
            kind: TerminalKind::Command,
            sync_explorer: false,
        },
        &ctx,
        Err(String::from("no such file")),
    );

    assert!(state.tab(99).is_none());
    assert_eq!(terminal_to_tab.len(), 0);
    assert_eq!(tasks.len(), 2);
    assert!(matches!(
        &tasks[..],
        [
            WorkspaceTask::Effect(TerminalWorkspaceEffect::TabClosed { tab_id: 99 }),
            WorkspaceTask::Effect(TerminalWorkspaceEffect::CommandTabOpenFailed {
                tab_id: 99,
                title,
                message,
            }),
        ] if title == "Failed to launch \"Broken command\""
            && message == "Terminal tab initialization failed: no such file"
    ));
    assert_eq!(next_id, 101);
}

#[test]
fn given_sync_pane_grid_size_when_reduced_then_all_tab_grid_sizes_update() {
    let mut workspace = Workspace::starting_at(100);
    let open_ctx = TerminalWorkspaceCtx { pane_grid_size: size(120.0, 80.0), ..default_ctx() };
    workspace.send_in(
        TerminalWorkspaceIntent::OpenTab {
            tab_id: 1,
            default_title: String::from("Shell"),
            settings: Box::new(settings_with_program("/bin/sh")),
            kind: TerminalKind::Shell,
            sync_explorer: false,
        },
        &open_ctx,
    );
    assert_eq!(workspace.state.tab(1).expect("tab").grid_size(), size(120.0, 80.0));

    let sync_ctx = TerminalWorkspaceCtx { pane_grid_size: size(480.0, 320.0), ..default_ctx() };
    workspace.send_in(TerminalWorkspaceIntent::SyncPaneGridSize, &sync_ctx);

    let tab = workspace.state.tab(1).expect("tab must exist after opening");
    assert_eq!(tab.grid_size(), size(480.0, 320.0));
}

#[test]
fn given_missing_tab_when_pane_clicked_then_reducer_ignores_event() {
    let mut workspace = Workspace::starting_at(0);

    let (_grid, pane) = pane_grid::State::new(1_u64);
    let tasks = workspace.send(TerminalWorkspaceIntent::PaneClicked { tab_id: 999, pane });

    assert!(workspace.state.tab(999).is_none());
    assert!(tasks.is_empty());
}

#[test]
fn given_tab_closed_command_when_reduced_then_tab_is_removed() {
    let mut workspace = Workspace::starting_at(100);
    workspace.open(1);

    let _tasks = workspace.send(TerminalWorkspaceIntent::TabClosed { tab_id: 1 });

    assert!(workspace.state.tab(1).is_none());
    assert_eq!(workspace.terminal_to_tab.get(&100), None);
}

#[test]
fn given_close_all_context_menus_when_no_menus_open_then_no_error() {
    let mut workspace = Workspace::starting_at(100);
    assert!(workspace.send(TerminalWorkspaceIntent::CloseAllContextMenus).is_empty());
}

#[test]
fn given_context_menu_input_when_reduced_then_no_effect() {
    let mut workspace = Workspace::starting_at(100);
    let tasks = workspace.send(TerminalWorkspaceIntent::ContextMenuInput { tab_id: 1 });
    assert!(tasks.is_empty());
}

#[test]
fn given_focus_active_with_no_tabs_when_reduced_then_no_error() {
    let mut workspace = Workspace::starting_at(100);
    let ctx = TerminalWorkspaceCtx { active_tab_id: Some(999), ..default_ctx() };
    assert!(workspace.send_in(TerminalWorkspaceIntent::FocusActive, &ctx).is_empty());
}

#[test]
fn a_split_that_cannot_open_a_terminal_changes_nothing() {
    let mut state = build_terminal_state("Shell");
    let pane = state.focus().expect("focused pane");
    let command =
        state.split_pane(pane, pane_grid::Axis::Vertical, 11, Err(String::from("no pty")));
    assert!(matches!(command, StateCommand::Idle));
    assert_eq!(state.panes().len(), 1);
    assert_eq!(state.focus(), Some(pane));
    assert_eq!(state.focused_terminal_id(), Some(10));
    assert!(matches!(
        TerminalTabState::new(
            1,
            String::from("T"),
            2,
            Settings::default(),
            TerminalKind::Command,
            Err(String::from("no pty")),
        ),
        Err(TerminalWorkspaceError::Init { message }) if message == "no pty"
    ));
}

#[test]
fn closing_a_split_pane_undoes_the_split() {
    let mut state = build_terminal_state("Shell");
    let first = state.focus().expect("focused pane");
    state.split_pane(first, pane_grid::Axis::Vertical, 11, Ok(111));
    let second = state.focus().expect("focused pane");
    state.split_pane(second, pane_grid::Axis::Horizontal, 12, Ok(112));
    let third = state.focus().expect("focused pane");
    assert_eq!(state.panes().len(), 3);
    state.close_pane(third);
    assert_eq!(state.panes().len(), 2);
    assert_eq!(state.pane_terminal_id(first), Some(10));
    assert_eq!(state.pane_terminal_id(second), Some(11));
    assert_eq!(state.pane_terminal_id(third), None);
    assert_eq!(state.focus(), Some(second));
    // Closing a pane without the focus leaves the focus where it is.
    assert!(matches!(state.close_pane(first), StateCommand::Idle));
    assert_eq!(state.focus(), Some(second));
    assert!(matches!(state.close_pane(first), StateCommand::CloseTab { tab_id: 1 }));
}

#[test]
fn terminals_are_found_and_forgotten_with_their_panes() {
    let mut workspace = Workspace::starting_at(1);
    workspace.open(5);
    workspace.open(6);
    let pane = workspace.focus(5);
    let tasks = workspace.send(TerminalWorkspaceIntent::SplitPane {
        tab_id: 5,
        pane,
        axis: pane_grid::Axis::Vertical,
    });
    assert!(matches!(
        &tasks[..],
        [
            WorkspaceTask::Block { widget_id: 101, command: BlockCommand::ClearSelection },
            WorkspaceTask::FocusTerminal { widget_id: 103 },
            WorkspaceTask::Effect(TerminalWorkspaceEffect::TitleChanged { tab_id: 5, .. }),
        ]
    ));
    assert_eq!(workspace.terminal_to_tab.get(&3), Some(&5));
    assert_eq!(workspace.next_id, 4);

    let tasks =
        workspace.send(TerminalWorkspaceIntent::Widget(TerminalEvent::Shutdown { id: 1 }));
    assert!(matches!(
        &tasks[..],
        [WorkspaceTask::Effect(TerminalWorkspaceEffect::TitleChanged { tab_id: 5, .. })]
    ));
    assert_eq!(workspace.terminal_to_tab.get(&1), None);
    assert_eq!(workspace.terminal_to_tab.get(&2), Some(&6));
    assert_eq!(workspace.terminal_to_tab.get(&3), Some(&5));

    let last = workspace.focus(6);
    let tasks = workspace.send(TerminalWorkspaceIntent::ClosePane { tab_id: 6, pane: last });
    assert!(matches!(
        &tasks[..],
        [
            WorkspaceTask::Effect(TerminalWorkspaceEffect::TabClosed { tab_id: 6 }),
            WorkspaceTask::Effect(TerminalWorkspaceEffect::TitleChanged { tab_id: 6, .. }),
        ]
    ));
    assert_eq!(workspace.terminal_to_tab.get(&2), Some(&6));
}

#[test]
fn a_selected_block_clears_the_others_and_can_be_copied() {
    let mut workspace = Workspace::starting_at(1);
    workspace.open(5);
    let pane = workspace.focus(5);
    workspace.send(TerminalWorkspaceIntent::SplitPane {
        tab_id: 5,
        pane,
        axis: pane_grid::Axis::Horizontal,
    });
    let tasks = workspace.send(TerminalWorkspaceIntent::Widget(TerminalEvent::BlockSelected {
        id: 1,
        block_id: String::from("b"),
    }));
    assert!(matches!(
        &tasks[..],
        [
            WorkspaceTask::Block { widget_id: 102, command: BlockCommand::ClearSelection },
            WorkspaceTask::Forward { terminal_id: 1 },
            WorkspaceTask::Effect(TerminalWorkspaceEffect::TitleChanged { .. }),
        ]
    ));
    let tasks = workspace.send(TerminalWorkspaceIntent::SyncSelection { tab_id: 5 });
    assert!(matches!(
        &tasks[..],
        [
            WorkspaceTask::Block { widget_id: 101, command: BlockCommand::Select(b) },
            WorkspaceTask::Block { widget_id: 102, command: BlockCommand::ClearSelection },
        ] if b == "b"
    ));
    let copy = workspace.send(TerminalWorkspaceIntent::CopySelectedBlockPrompt {
        tab_id: 5,
        terminal_id: 1,
    });
    assert!(matches!(
        &copy[0],
        WorkspaceTask::Block { widget_id: 101, command: BlockCommand::CopyPrompt(b) } if b == "b"
    ));
    let none = workspace.send(TerminalWorkspaceIntent::CopySelectedBlockContent {
        tab_id: 5,
        terminal_id: 2,
    });
    assert!(none.is_empty());
    workspace.send(TerminalWorkspaceIntent::Widget(TerminalEvent::BlockSelectionCleared {
        id: 1,
    }));
    assert!(workspace.state.tab(5).expect("tab").selected_block().is_none());
    let paste =
        workspace.send(TerminalWorkspaceIntent::PasteIntoPrompt { tab_id: 5, terminal_id: 2 });
    assert!(matches!(
        paste.last(),
        Some(WorkspaceTask::Block { widget_id: 102, command: BlockCommand::PasteClipboard })
    ));
    let copied =
        workspace.send(TerminalWorkspaceIntent::CopySelection { tab_id: 5, terminal_id: 2 });
    assert!(matches!(
        copied.first(),
        Some(WorkspaceTask::Block { widget_id: 102, command: BlockCommand::CopySelection })
    ));
}

#[test]
fn menus_of_all_tabs_are_closed_and_looks_applied() {
    let mut workspace = Workspace::starting_at(1);
    workspace.open(5);
    workspace.open(6);
    for (tab_id, terminal_id) in [(5, 1), (6, 2)] {
        let pane = workspace.focus(tab_id);
        let tasks = workspace.send(TerminalWorkspaceIntent::OpenContextMenu {
            tab_id,
            pane,
            terminal_id,
            alt_screen: false,
        });
        assert!(matches!(
            &tasks[..],
            [
                WorkspaceTask::Block { command: BlockCommand::SelectHovered, .. },
                WorkspaceTask::FocusElement { id: 900 },
                WorkspaceTask::Effect(_),
            ]
        ));
    }
    let tasks = workspace.send(TerminalWorkspaceIntent::CloseAllContextMenus);
    assert!(matches!(
        &tasks[..],
        [
            WorkspaceTask::Block { widget_id: 101, command: BlockCommand::ClearSelection },
            WorkspaceTask::FocusTerminal { widget_id: 101 },
            WorkspaceTask::Block { widget_id: 102, command: BlockCommand::ClearSelection },
            WorkspaceTask::FocusTerminal { widget_id: 102 },
        ]
    ));
    assert!(workspace.state.tab(6).expect("tab").context_menu().is_none());
    let tasks = workspace.send(TerminalWorkspaceIntent::ApplyTheme { appearance: 4 });
    assert!(matches!(
        &tasks[..],
        [WorkspaceTask::Restyle { terminal_id: 1 }, WorkspaceTask::Restyle { terminal_id: 2 }]
    ));
    assert_eq!(workspace.state.tab(5).expect("tab").terminal_settings().appearance, 4);
    let pane = workspace.focus(5);
    let alt = workspace.send(TerminalWorkspaceIntent::OpenContextMenu {
        tab_id: 5,
        pane,
        terminal_id: 1,
        alt_screen: true,
    });
    assert_eq!(alt.len(), 1);
    let ctx = TerminalWorkspaceCtx { active_tab_id: Some(6), ..default_ctx() };
    assert!(matches!(
        &workspace.send_in(TerminalWorkspaceIntent::FocusActive, &ctx)[..],
        [WorkspaceTask::FocusTerminal { widget_id: 102 }]
    ));
}

#[test]
fn the_focused_title_is_the_title_of_the_tab() {
    let mut workspace = Workspace::starting_at(1);
    workspace.open(5);
    let first = workspace.focus(5);
    workspace.send(TerminalWorkspaceIntent::SplitPane {
        tab_id: 5,
        pane: first,
        axis: pane_grid::Axis::Vertical,
    });
    let tasks = workspace.send(TerminalWorkspaceIntent::Widget(TerminalEvent::TitleChanged {
        id: 1,
        title: String::from("vim"),
    }));
    assert_eq!(tasks.len(), 2);
    assert_eq!(workspace.state.tab(5).expect("tab").title(), "Shell");
    workspace.send(TerminalWorkspaceIntent::PaneClicked { tab_id: 5, pane: first });
    assert_eq!(workspace.state.tab(5).expect("tab").title(), "vim");
    let unknown = workspace.send(TerminalWorkspaceIntent::Widget(TerminalEvent::Other { id: 77 }));
    assert!(unknown.is_empty());
    workspace.send(TerminalWorkspaceIntent::PaneGridCursorMoved {
        tab_id: 5,
        position: point(3.0, 4.0),
    });
    assert_eq!(workspace.state.tab(5).expect("tab").grid_cursor(), Some(point(0.0, 0.0)));
}
