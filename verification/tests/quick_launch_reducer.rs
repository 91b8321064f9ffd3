use std::sync::atomic::AtomicBool;
use std::sync::Arc;

use otty::geometry::Point;
use otty::quick_launch::event::{
    ContextMenuAction, QuickLaunchCtx, QuickLaunchEffect, QuickLaunchIntent, QuickLaunchTask,
    QuickLaunchWizardSaveRequest, QuickLaunchWizardSaveTarget,
};
use otty::quick_launch::launches::should_highlight_launch_indicator;
use otty::quick_launch::reducer::reduce;
use otty::quick_launch::setup::QuickLaunchSetupOutcome;
use otty::quick_launch::state::{
    ContextMenuState, ContextMenuTarget, InlineEditKind, InlineEditState, QuickLaunchErrorState,
    QuickLaunchState,
};
use otty::quick_launch::tree::{QuickLaunchFolder, QuickLaunchNode};
use otty::quick_launch::types::{CommandSpec, CustomCommand, QuickLaunch, QuickLaunchType};
use otty::session_options::Settings;

fn ctx(settings: &Settings) -> QuickLaunchCtx<'_> {
    QuickLaunchCtx {
        terminal_settings: settings,
        sidebar_cursor: Point::origin(),
        sidebar_is_resizing: false,
        fresh_widget_id: 41,
    }
}

fn sample_command() -> QuickLaunch {
    QuickLaunch {
        title: String::from("Demo"),
        spec: CommandSpec::Custom {
            custom: CustomCommand {
                program: String::from("bash"),
                args: Vec::new(),
                env: Vec::new(),
                working_directory: None,
            },
        },
    }
}

#[test]
fn given_selected_folder_when_delete_selected_then_folder_is_removed() {
    let mut state = QuickLaunchState::default();
    state.data_mut().root.children.push(QuickLaunchNode::Folder(
        QuickLaunchFolder {
            title: String::from("Folder"),
            expanded: true,
            children: Vec::new(),
        },
    ));
    state.set_selected_path(Some(vec![String::from("Folder")]));

    let settings = Settings::default();
    let _task = reduce(
        &mut state,
        QuickLaunchIntent::DeleteSelected,
        &ctx(&settings),
    );

    assert!(state.data().root.children.is_empty());
    assert!(state.selected_path().is_none());
}

#[test]
fn given_unknown_node_when_released_then_reducer_ignores_event() {
    let mut state = QuickLaunchState::default();
    let settings = Settings::default();
    let _task = reduce(
        &mut state,
        QuickLaunchIntent::NodeReleased {
            path: vec![String::from("Missing")],
        },
        &ctx(&settings),
    );
    assert!(state.selected_path().is_none());
    assert!(state.launching().is_empty());
}

#[test]
fn given_editor_create_save_request_when_reduced_then_command_is_added() {
    let mut state = QuickLaunchState::default();
    state.data_mut().root = QuickLaunchFolder {
        title: String::from("Root"),
        expanded: true,
        children: Vec::new(),
    };

    let request = QuickLaunchWizardSaveRequest {
        tab_id: 7,
        target: QuickLaunchWizardSaveTarget::Create {
            parent_path: Vec::new(),
        },
        command: sample_command(),
    };

    let settings = Settings::default();
    let _task = reduce(
        &mut state,
        QuickLaunchIntent::WizardSaveRequested(request),
        &ctx(&settings),
    );

    assert_eq!(state.data().root.children.len(), 1);
    assert!(state.is_dirty());
}

#[test]
fn given_error_tab_opened_and_closed_when_reduced_then_payload_is_cleaned()
{
    let mut state = QuickLaunchState::default();
    let settings = Settings::default();

    let _task = reduce(
        &mut state,
        QuickLaunchIntent::OpenErrorTab {
            tab_id: 5,
            title: String::from("Err"),
            message: String::from("something went wrong"),
        },
        &ctx(&settings),
    );
    assert!(state.error_tab(5).is_some());

    let _task = reduce(
        &mut state,
        QuickLaunchIntent::TabClosed { tab_id: 5 },
        &ctx(&settings),
    );
    assert!(state.error_tab(5).is_none());
}

#[test]
fn given_active_launch_when_tick_then_blink_nonce_advances() {
    let mut state = QuickLaunchState::default();
    state.set_blink_nonce(0);
    let cancel = Arc::new(AtomicBool::new(false));
    state.begin_launch(vec![String::from("cmd")], cancel);

    let settings = Settings::default();
    let _task =
        reduce(&mut state, QuickLaunchIntent::Tick, &ctx(&settings));

    assert_eq!(state.blink_nonce(), 1);
}

#[test]
fn given_dirty_state_when_tick_then_persist_begins() {
    let mut state = QuickLaunchState::default();
    state.mark_dirty();

    let settings = Settings::default();
    let _task =
        reduce(&mut state, QuickLaunchIntent::Tick, &ctx(&settings));

    assert!(state.is_persist_in_flight());
    assert!(state.is_dirty());
}

#[test]
fn given_wizard_field_update_when_reduced_then_editor_is_updated() {
    let mut state = QuickLaunchState::default();
    state.wizard_mut().initialize_create(
        1,
        vec![],
        QuickLaunchType::Custom,
    );

    let settings = Settings::default();
    let _task = reduce(
        &mut state,
        QuickLaunchIntent::WizardUpdateTitle {
            tab_id: 1,
            value: String::from("MyCmd"),
        },
        &ctx(&settings),
    );

    let editor = state.wizard().editor(1).expect("editor should exist");
    assert_eq!(editor.title(), "MyCmd");
}

#[test]
fn given_wizard_save_with_empty_title_when_reduced_then_error_is_set() {
    let mut state = QuickLaunchState::default();
    state.wizard_mut().initialize_create(
        1,
        vec![],
        QuickLaunchType::Custom,
    );

    let settings = Settings::default();
    let _task = reduce(
        &mut state,
        QuickLaunchIntent::WizardSave { tab_id: 1 },
        &ctx(&settings),
    );

    let editor = state.wizard().editor(1).expect("editor should exist");
    assert!(editor.error().is_some());
}


#[test]
fn given_background_pressed_when_reduced_then_selection_and_menu_are_cleared()
 {
    let mut state = QuickLaunchState::default();
    state.set_selected_path(Some(vec![String::from("cmd")]));
    state.set_context_menu(Some(
        ContextMenuState::default()
            .with_target(ContextMenuTarget::Background)
            .with_cursor(Point::origin()),
    ));

    let settings = Settings::default();
    let _task = reduce(
        &mut state,
        QuickLaunchIntent::BackgroundPressed,
        &ctx(&settings),
    );

    assert!(state.selected_path().is_none());
    assert!(state.context_menu().is_none());
}

#[test]
fn given_node_pressed_when_reduced_then_selection_and_drag_are_set() {
    let mut state = QuickLaunchState::default();
    state
        .data_mut()
        .root
        .children
        .push(QuickLaunchNode::Command(sample_command()));
    let path = vec![String::from("Demo")];

    let settings = Settings::default();
    let _task = reduce(
        &mut state,
        QuickLaunchIntent::NodePressed { path: path.clone() },
        &ctx(&settings),
    );

    assert_eq!(state.selected_path(), Some(&path));
    assert!(state.pressed_path().is_some());
    assert!(state.drag().is_some());
}

#[test]
fn given_node_hovered_when_sidebar_resizing_then_hover_not_set() {
    let mut state = QuickLaunchState::default();
    let settings = Settings::default();
    let mut resizing_ctx = ctx(&settings);
    resizing_ctx.sidebar_is_resizing = true;

    let _task = reduce(
        &mut state,
        QuickLaunchIntent::NodeHovered {
            path: vec![String::from("x")],
        },
        &resizing_ctx,
    );

    assert!(state.hovered_path().is_none());
}

#[test]
fn given_node_hovered_when_not_resizing_then_hover_is_set() {
    let mut state = QuickLaunchState::default();
    let settings = Settings::default();

    let _task = reduce(
        &mut state,
        QuickLaunchIntent::NodeHovered {
            path: vec![String::from("x")],
        },
        &ctx(&settings),
    );

    assert_eq!(state.hovered_path(), Some(&vec![String::from("x")]));
}

#[test]
fn given_node_right_clicked_on_command_when_reduced_then_context_menu_opens()
 {
    let mut state = QuickLaunchState::default();
    state
        .data_mut()
        .root
        .children
        .push(QuickLaunchNode::Command(sample_command()));
    let path = vec![String::from("Demo")];

    let settings = Settings::default();
    let _task = reduce(
        &mut state,
        QuickLaunchIntent::NodeRightClicked { path: path.clone() },
        &ctx(&settings),
    );

    assert!(state.context_menu().is_some());
    assert_eq!(state.selected_path(), Some(&path));
}

#[test]
fn given_background_right_clicked_when_reduced_then_background_menu_opens()
{
    let mut state = QuickLaunchState::default();
    let settings = Settings::default();
    let _task = reduce(
        &mut state,
        QuickLaunchIntent::BackgroundRightClicked,
        &ctx(&settings),
    );

    assert!(state.context_menu().is_some());
    assert!(state.selected_path().is_none());
}

#[test]
fn given_context_menu_dismiss_when_reduced_then_menu_is_cleared() {
    let mut state = QuickLaunchState::default();
    state.set_context_menu(Some(
        ContextMenuState::default()
            .with_target(ContextMenuTarget::Background)
            .with_cursor(Point::origin()),
    ));

    let settings = Settings::default();
    let _task = reduce(
        &mut state,
        QuickLaunchIntent::ContextMenuDismiss,
        &ctx(&settings),
    );

    assert!(state.context_menu().is_none());
}

#[test]
fn given_cancel_inline_edit_when_reduced_then_edit_is_cleared() {
    let mut state = QuickLaunchState::default();
    state.set_inline_edit(Some(InlineEditState {
        kind: InlineEditKind::CreateFolder {
            parent_path: Vec::new(),
        },
        value: String::from("test"),
        error: None,
        id: 1,
    }));

    let settings = Settings::default();
    let _task = reduce(
        &mut state,
        QuickLaunchIntent::CancelInlineEdit,
        &ctx(&settings),
    );

    assert!(state.inline_edit().is_none());
}

#[test]
fn given_reset_interaction_state_when_reduced_then_hover_and_drag_are_cleared()
 {
    let mut state = QuickLaunchState::default();
    state.set_hovered_path(Some(vec![String::from("x")]));
    state.set_pressed_path(Some(vec![String::from("x")]));

    let settings = Settings::default();
    let _task = reduce(
        &mut state,
        QuickLaunchIntent::ResetInteractionState,
        &ctx(&settings),
    );

    assert!(state.hovered_path().is_none());
    assert!(state.pressed_path().is_none());
}


#[test]
fn given_inline_edit_active_when_value_changed_then_value_updates() {
    let mut state = QuickLaunchState::default();
    state.set_inline_edit(Some(InlineEditState {
        kind: InlineEditKind::CreateFolder {
            parent_path: Vec::new(),
        },
        value: String::new(),
        error: Some(String::from("old error")),
        id: 1,
    }));

    let settings = Settings::default();
    let _task = reduce(
        &mut state,
        QuickLaunchIntent::InlineEditChanged(String::from("NewFolder")),
        &ctx(&settings),
    );

    let edit = state.inline_edit().expect("edit should exist");
    assert_eq!(edit.value, "NewFolder");
    assert!(edit.error.is_none());
}

#[test]
fn given_inline_create_folder_when_submitted_then_folder_is_created() {
    let mut state = QuickLaunchState::default();
    state.set_inline_edit(Some(InlineEditState {
        kind: InlineEditKind::CreateFolder {
            parent_path: Vec::new(),
        },
        value: String::from("MyFolder"),
        error: None,
        id: 1,
    }));

    let settings = Settings::default();
    let _task = reduce(
        &mut state,
        QuickLaunchIntent::InlineEditSubmit,
        &ctx(&settings),
    );

    assert_eq!(state.data().root.children.len(), 1);
    assert_eq!(state.data().root.children[0].title(), "MyFolder");
    assert!(state.is_dirty());
    assert!(state.inline_edit().is_none());
}

#[test]
fn given_inline_create_folder_with_empty_name_when_submitted_then_error_shown()
 {
    let mut state = QuickLaunchState::default();
    state.set_inline_edit(Some(InlineEditState {
        kind: InlineEditKind::CreateFolder {
            parent_path: Vec::new(),
        },
        value: String::from("   "),
        error: None,
        id: 1,
    }));

    let settings = Settings::default();
    let _task = reduce(
        &mut state,
        QuickLaunchIntent::InlineEditSubmit,
        &ctx(&settings),
    );

    let edit = state.inline_edit().expect("edit should remain");
    assert!(edit.error.is_some());
}

#[test]
fn given_inline_rename_when_submitted_then_node_is_renamed() {
    let mut state = QuickLaunchState::default();
    state
        .data_mut()
        .root
        .children
        .push(QuickLaunchNode::Command(sample_command()));
    let path = vec![String::from("Demo")];
    state.set_inline_edit(Some(InlineEditState {
        kind: InlineEditKind::Rename { path },
        value: String::from("Renamed"),
        error: None,
        id: 1,
    }));

    let settings = Settings::default();
    let _task = reduce(
        &mut state,
        QuickLaunchIntent::InlineEditSubmit,
        &ctx(&settings),
    );

    assert_eq!(state.data().root.children[0].title(), "Renamed");
    assert!(state.is_dirty());
}


#[test]
fn given_context_menu_remove_on_command_when_reduced_then_command_is_removed()
 {
    let mut state = QuickLaunchState::default();
    state
        .data_mut()
        .root
        .children
        .push(QuickLaunchNode::Command(sample_command()));
    state.set_context_menu(Some(
        ContextMenuState::default()
            .with_target(ContextMenuTarget::Command(vec![String::from(
                "Demo",
            )]))
            .with_cursor(Point::origin()),
    ));

    let settings = Settings::default();
    let _task = reduce(
        &mut state,
        QuickLaunchIntent::ContextMenuAction(ContextMenuAction::Remove),
        &ctx(&settings),
    );

    assert!(state.data().root.children.is_empty());
}

#[test]
fn given_context_menu_duplicate_on_command_when_reduced_then_duplicate_is_created()
 {
    let mut state = QuickLaunchState::default();
    state
        .data_mut()
        .root
        .children
        .push(QuickLaunchNode::Command(sample_command()));
    state.set_context_menu(Some(
        ContextMenuState::default()
            .with_target(ContextMenuTarget::Command(vec![String::from(
                "Demo",
            )]))
            .with_cursor(Point::origin()),
    ));

    let settings = Settings::default();
    let _task = reduce(
        &mut state,
        QuickLaunchIntent::ContextMenuAction(ContextMenuAction::Duplicate),
        &ctx(&settings),
    );

    assert_eq!(state.data().root.children.len(), 2);
}

#[test]
fn given_context_menu_delete_on_folder_when_reduced_then_folder_is_removed()
{
    let mut state = QuickLaunchState::default();
    state.data_mut().root.children.push(QuickLaunchNode::Folder(
        QuickLaunchFolder {
            title: String::from("Dir"),
            expanded: true,
            children: Vec::new(),
        },
    ));
    state.set_context_menu(Some(
        ContextMenuState::default()
            .with_target(ContextMenuTarget::Folder(vec![String::from(
                "Dir",
            )]))
            .with_cursor(Point::origin()),
    ));

    let settings = Settings::default();
    let _task = reduce(
        &mut state,
        QuickLaunchIntent::ContextMenuAction(ContextMenuAction::Delete),
        &ctx(&settings),
    );

    assert!(state.data().root.children.is_empty());
}

#[test]
fn given_context_menu_kill_on_running_command_when_reduced_then_launch_is_canceled()
 {
    let mut state = QuickLaunchState::default();
    state
        .data_mut()
        .root
        .children
        .push(QuickLaunchNode::Command(sample_command()));
    let path = vec![String::from("Demo")];
    let cancel = Arc::new(AtomicBool::new(false));
    state.begin_launch(path.clone(), cancel.clone());
    state.set_context_menu(Some(
        ContextMenuState::default()
            .with_target(ContextMenuTarget::Command(path))
            .with_cursor(Point::origin()),
    ));

    let settings = Settings::default();
    let _task = reduce(
        &mut state,
        QuickLaunchIntent::ContextMenuAction(ContextMenuAction::Kill),
        &ctx(&settings),
    );

    assert!(cancel.load(std::sync::atomic::Ordering::SeqCst));
}


#[test]
fn given_folder_when_clicked_then_expanded_state_toggles() {
    let mut state = QuickLaunchState::default();
    state.data_mut().root.children.push(QuickLaunchNode::Folder(
        QuickLaunchFolder {
            title: String::from("Dir"),
            expanded: true,
            children: Vec::new(),
        },
    ));
    let path = vec![String::from("Dir")];

    // Press then release to simulate click
    let settings = Settings::default();
    let _task = reduce(
        &mut state,
        QuickLaunchIntent::NodePressed { path: path.clone() },
        &ctx(&settings),
    );
    let _task = reduce(
        &mut state,
        QuickLaunchIntent::NodeReleased { path: path.clone() },
        &ctx(&settings),
    );

    let folder = state.data().folder(&path).expect("folder should exist");
    assert!(!folder.is_expanded());
}


#[test]
fn given_header_create_folder_when_reduced_then_inline_edit_starts() {
    let mut state = QuickLaunchState::default();
    let settings = Settings::default();
    let _task = reduce(
        &mut state,
        QuickLaunchIntent::HeaderCreateFolder,
        &ctx(&settings),
    );

    assert!(state.inline_edit().is_some());
}


#[test]
fn given_persist_completed_when_reduced_then_in_flight_is_cleared() {
    let mut state = QuickLaunchState::default();
    state.mark_dirty();
    state.begin_persist();

    let settings = Settings::default();
    let _task = reduce(
        &mut state,
        QuickLaunchIntent::PersistCompleted,
        &ctx(&settings),
    );

    assert!(!state.is_persist_in_flight());
}

#[test]
fn given_persist_failed_when_reduced_then_in_flight_is_cleared() {
    let mut state = QuickLaunchState::default();
    state.mark_dirty();
    state.begin_persist();

    let settings = Settings::default();
    let _task = reduce(
        &mut state,
        QuickLaunchIntent::PersistFailed(String::from("disk full")),
        &ctx(&settings),
    );

    assert!(!state.is_persist_in_flight());
}


#[test]
fn given_cursor_moved_when_reduced_then_cursor_is_updated() {
    let mut state = QuickLaunchState::default();
    let pos = Point { x_bits: 100.0f32.to_bits(), y_bits: 200.0f32.to_bits() };

    let settings = Settings::default();
    let _task = reduce(
        &mut state,
        QuickLaunchIntent::CursorMoved { position: pos, past_threshold: false },
        &ctx(&settings),
    );

    assert_eq!(state.cursor(), pos);
}


#[test]
fn given_canceled_setup_when_reduced_then_launch_is_removed() {
    let mut state = QuickLaunchState::default();
    let path = vec![String::from("cmd")];
    let cancel = Arc::new(AtomicBool::new(false));
    state.begin_launch(path.clone(), cancel);
    let launch_id = state
        .launching()
        .get(&path)
        .expect("launch should exist")
        .id;

    let settings = Settings::default();
    let _task = reduce(
        &mut state,
        QuickLaunchIntent::SetupCompleted(
            QuickLaunchSetupOutcome::Canceled {
                path: path.clone(),
                launch_id,
            },
        ),
        &ctx(&settings),
    );

    assert!(state.launching().is_empty());
}


#[test]
fn given_wizard_initialize_create_when_reduced_then_editor_is_created() {
    let mut state = QuickLaunchState::default();
    let settings = Settings::default();
    let _task = reduce(
        &mut state,
        QuickLaunchIntent::WizardInitializeCreate {
            tab_id: 10,
            parent_path: vec![],
            command_type: QuickLaunchType::Custom,
        },
        &ctx(&settings),
    );

    assert!(state.wizard().editor(10).is_some());
}

#[test]
fn given_wizard_initialize_edit_when_reduced_then_editor_is_loaded() {
    let mut state = QuickLaunchState::default();
    let cmd = sample_command();
    let settings = Settings::default();
    let _task = reduce(
        &mut state,
        QuickLaunchIntent::WizardInitializeEdit {
            tab_id: 10,
            path: vec![String::from("Demo")],
            command: Box::new(cmd),
        },
        &ctx(&settings),
    );

    let editor = state.wizard().editor(10).expect("editor should exist");
    assert_eq!(editor.title(), "Demo");
}

#[test]
fn given_wizard_cancel_when_reduced_then_close_tab_effect_is_emitted() {
    let mut state = QuickLaunchState::default();
    let settings = Settings::default();
    let task = reduce(
        &mut state,
        QuickLaunchIntent::WizardCancel { tab_id: 5 },
        &ctx(&settings),
    );
    assert!(matches!(
        task,
        QuickLaunchTask::Effect(QuickLaunchEffect::CloseTabRequested { tab_id: 5 })
    ));
}

#[test]
fn given_wizard_set_error_when_reduced_then_editor_error_is_set() {
    let mut state = QuickLaunchState::default();
    state.wizard_mut().initialize_create(
        1,
        vec![],
        QuickLaunchType::Custom,
    );

    let settings = Settings::default();
    let _task = reduce(
        &mut state,
        QuickLaunchIntent::WizardSetError {
            tab_id: 1,
            message: String::from("oops"),
        },
        &ctx(&settings),
    );

    let editor = state.wizard().editor(1).expect("editor should exist");
    assert_eq!(editor.error(), Some("oops"));
}

#[test]
fn given_wizard_select_command_type_in_create_mode_when_reduced_then_type_changes()
 {
    let mut state = QuickLaunchState::default();
    state.wizard_mut().initialize_create(
        1,
        vec![],
        QuickLaunchType::Custom,
    );

    let settings = Settings::default();
    let _task = reduce(
        &mut state,
        QuickLaunchIntent::WizardSelectCommandType {
            tab_id: 1,
            command_type: QuickLaunchType::Ssh,
        },
        &ctx(&settings),
    );

    let editor = state.wizard().editor(1).expect("editor should exist");
    assert_eq!(
        editor.command_type(),
        QuickLaunchType::Ssh
    );
}


#[test]
fn given_wizard_update_program_when_reduced_then_program_field_changes() {
    let mut state = QuickLaunchState::default();
    state.wizard_mut().initialize_create(
        1,
        vec![],
        QuickLaunchType::Custom,
    );

    let settings = Settings::default();
    let _task = reduce(
        &mut state,
        QuickLaunchIntent::WizardUpdateProgram {
            tab_id: 1,
            value: String::from("/usr/bin/zsh"),
        },
        &ctx(&settings),
    );

    let editor = state.wizard().editor(1).expect("editor should exist");
    let custom = editor.custom().expect("custom options should exist");
    assert_eq!(custom.program(), "/usr/bin/zsh");
}

#[test]
fn given_wizard_add_arg_when_reduced_then_arg_count_increases() {
    let mut state = QuickLaunchState::default();
    state.wizard_mut().initialize_create(
        1,
        vec![],
        QuickLaunchType::Custom,
    );

    let settings = Settings::default();
    let _task = reduce(
        &mut state,
        QuickLaunchIntent::WizardAddArg { tab_id: 1 },
        &ctx(&settings),
    );

    let editor = state.wizard().editor(1).expect("editor should exist");
    let custom = editor.custom().expect("custom options should exist");
    assert_eq!(custom.args().len(), 1);
}

#[test]
fn given_wizard_add_env_when_reduced_then_env_count_increases() {
    let mut state = QuickLaunchState::default();
    state.wizard_mut().initialize_create(
        1,
        vec![],
        QuickLaunchType::Custom,
    );

    let settings = Settings::default();
    let _task = reduce(
        &mut state,
        QuickLaunchIntent::WizardAddEnv { tab_id: 1 },
        &ctx(&settings),
    );

    let editor = state.wizard().editor(1).expect("editor should exist");
    let custom = editor.custom().expect("custom options should exist");
    assert_eq!(custom.env().len(), 1);
}


#[test]
fn given_launch_under_delay_threshold_when_checking_indicator_then_not_highlighted()
 {
    assert!(!should_highlight_launch_indicator(0, 0));
}

#[test]
fn given_launch_past_delay_and_even_blink_when_checking_then_highlighted() {
    // 10 ticks * 200ms = 2000ms > 1000ms delay
    assert!(should_highlight_launch_indicator(10, 0));
}


#[test]
fn given_editor_edit_save_request_when_reduced_then_command_is_updated() {
    let mut state = QuickLaunchState::default();
    state
        .data_mut()
        .root
        .children
        .push(QuickLaunchNode::Command(sample_command()));

    let request = QuickLaunchWizardSaveRequest {
        tab_id: 7,
        target: QuickLaunchWizardSaveTarget::Edit {
            path: vec![String::from("Demo")],
        },
        command: QuickLaunch {
            title: String::from("Updated"),
            spec: CommandSpec::Custom {
                custom: CustomCommand {
                    program: String::from("zsh"),
                    args: Vec::new(),
                    env: Vec::new(),
                    working_directory: None,
                },
            },
        },
    };

    let settings = Settings::default();
    let _task = reduce(
        &mut state,
        QuickLaunchIntent::WizardSaveRequested(request),
        &ctx(&settings),
    );

    assert_eq!(state.data().root.children[0].title(), "Updated");
    assert!(state.is_dirty());
}


#[test]
fn given_selected_command_when_delete_selected_then_command_is_not_removed()
{
    let mut state = QuickLaunchState::default();
    state
        .data_mut()
        .root
        .children
        .push(QuickLaunchNode::Command(sample_command()));
    state.set_selected_path(Some(vec![String::from("Demo")]));

    let settings = Settings::default();
    let _task = reduce(
        &mut state,
        QuickLaunchIntent::DeleteSelected,
        &ctx(&settings),
    );

    // DeleteSelected only removes folders, not commands
    assert_eq!(state.data().root.children.len(), 1);
}

#[test]
fn given_no_selection_when_delete_selected_then_nothing_happens() {
    let mut state = QuickLaunchState::default();
    let settings = Settings::default();
    let _task = reduce(
        &mut state,
        QuickLaunchIntent::DeleteSelected,
        &ctx(&settings),
    );
    assert!(state.data().root.children.is_empty());
}


#[test]
fn given_tab_closed_when_reduced_then_both_error_and_wizard_are_cleaned() {
    let mut state = QuickLaunchState::default();
    state.wizard_mut().initialize_create(
        5,
        vec![],
        QuickLaunchType::Custom,
    );
    state.set_error_tab(
        5,
        QuickLaunchErrorState::new(String::from("E"), String::from("msg")),
    );

    let settings = Settings::default();
    let _task = reduce(
        &mut state,
        QuickLaunchIntent::TabClosed { tab_id: 5 },
        &ctx(&settings),
    );

    assert!(state.error_tab(5).is_none());
    assert!(state.wizard().editor(5).is_none());
}


#[test]
fn given_no_drag_when_background_released_then_pressed_is_cleared() {
    let mut state = QuickLaunchState::default();
    state.set_pressed_path(Some(vec![String::from("x")]));

    let settings = Settings::default();
    let _task = reduce(
        &mut state,
        QuickLaunchIntent::BackgroundReleased,
        &ctx(&settings),
    );

    assert!(state.pressed_path().is_none());
}


#[test]
fn given_wizard_with_filled_fields_when_save_then_command_created() {
    let mut state = QuickLaunchState::default();
    state.wizard_mut().initialize_create(
        1,
        vec![],
        QuickLaunchType::Custom,
    );
    if let Some(editor) = state.wizard_mut().editor_mut(1) {
        editor.set_title(String::from("NewCmd"));
        editor.set_program(String::from("bash"));
    }

    let settings = Settings::default();
    let _task = reduce(
        &mut state,
        QuickLaunchIntent::WizardSave { tab_id: 1 },
        &ctx(&settings),
    );

    assert_eq!(state.data().root.children.len(), 1);
    assert_eq!(state.data().root.children[0].title(), "NewCmd");
}


#[test]
fn given_wizard_ssh_fields_when_updated_then_values_change() {
    let mut state = QuickLaunchState::default();
    state.wizard_mut().initialize_create(
        1,
        vec![],
        QuickLaunchType::Custom,
    );
    if let Some(editor) = state.wizard_mut().editor_mut(1) {
        editor.set_command_type(QuickLaunchType::Ssh);
    }

    let settings = Settings::default();
    let _task = reduce(
        &mut state,
        QuickLaunchIntent::WizardUpdateHost {
            tab_id: 1,
            value: String::from("example.com"),
        },
        &ctx(&settings),
    );
    let _task = reduce(
        &mut state,
        QuickLaunchIntent::WizardUpdateUser {
            tab_id: 1,
            value: String::from("admin"),
        },
        &ctx(&settings),
    );
    let _task = reduce(
        &mut state,
        QuickLaunchIntent::WizardUpdatePort {
            tab_id: 1,
            value: String::from("2222"),
        },
        &ctx(&settings),
    );
    let _task = reduce(
        &mut state,
        QuickLaunchIntent::WizardUpdateIdentityFile {
            tab_id: 1,
            value: String::from("~/.ssh/id_rsa"),
        },
        &ctx(&settings),
    );

    let editor = state.wizard().editor(1).expect("editor should exist");
    let ssh = editor.ssh().expect("ssh options should exist");
    assert_eq!(ssh.host(), "example.com");
    assert_eq!(ssh.user(), "admin");
    assert_eq!(ssh.port(), "2222");
    assert_eq!(ssh.identity_file(), "~/.ssh/id_rsa");
}

#[test]
fn given_wizard_working_directory_when_updated_then_value_changes() {
    let mut state = QuickLaunchState::default();
    state.wizard_mut().initialize_create(
        1,
        vec![],
        QuickLaunchType::Custom,
    );

    let settings = Settings::default();
    let _task = reduce(
        &mut state,
        QuickLaunchIntent::WizardUpdateWorkingDirectory {
            tab_id: 1,
            value: String::from("/tmp"),
        },
        &ctx(&settings),
    );

    let editor = state.wizard().editor(1).expect("editor should exist");
    let custom = editor.custom().expect("custom options should exist");
    assert_eq!(custom.working_directory(), "/tmp");
}

#[test]
fn given_wizard_remove_arg_when_reduced_then_arg_is_removed() {
    let mut state = QuickLaunchState::default();
    state.wizard_mut().initialize_create(
        1,
        vec![],
        QuickLaunchType::Custom,
    );
    if let Some(editor) = state.wizard_mut().editor_mut(1) {
        editor.add_arg();
        editor.add_arg();
    }

    let settings = Settings::default();
    let _task = reduce(
        &mut state,
        QuickLaunchIntent::WizardRemoveArg {
            tab_id: 1,
            index: 0,
        },
        &ctx(&settings),
    );

    let editor = state.wizard().editor(1).expect("editor should exist");
    let custom = editor.custom().expect("custom options should exist");
    assert_eq!(custom.args().len(), 1);
}

#[test]
fn given_wizard_update_arg_when_reduced_then_arg_value_changes() {
    let mut state = QuickLaunchState::default();
    state.wizard_mut().initialize_create(
        1,
        vec![],
        QuickLaunchType::Custom,
    );
    if let Some(editor) = state.wizard_mut().editor_mut(1) {
        editor.add_arg();
    }

    let settings = Settings::default();
    let _task = reduce(
        &mut state,
        QuickLaunchIntent::WizardUpdateArg {
            tab_id: 1,
            index: 0,
            value: String::from("-v"),
        },
        &ctx(&settings),
    );

    let editor = state.wizard().editor(1).expect("editor should exist");
    let custom = editor.custom().expect("custom options should exist");
    assert_eq!(custom.args()[0], "-v");
}

#[test]
fn given_wizard_remove_env_when_reduced_then_env_is_removed() {
    let mut state = QuickLaunchState::default();
    state.wizard_mut().initialize_create(
        1,
        vec![],
        QuickLaunchType::Custom,
    );
    if let Some(editor) = state.wizard_mut().editor_mut(1) {
        editor.add_env();
    }

    let settings = Settings::default();
    let _task = reduce(
        &mut state,
        QuickLaunchIntent::WizardRemoveEnv {
            tab_id: 1,
            index: 0,
        },
        &ctx(&settings),
    );

    let editor = state.wizard().editor(1).expect("editor should exist");
    let custom = editor.custom().expect("custom options should exist");
    assert!(custom.env().is_empty());
}

#[test]
fn given_wizard_update_env_when_reduced_then_env_key_and_value_change() {
    let mut state = QuickLaunchState::default();
    state.wizard_mut().initialize_create(
        1,
        vec![],
        QuickLaunchType::Custom,
    );
    if let Some(editor) = state.wizard_mut().editor_mut(1) {
        editor.add_env();
    }

    let settings = Settings::default();
    let _task = reduce(
        &mut state,
        QuickLaunchIntent::WizardUpdateEnvKey {
            tab_id: 1,
            index: 0,
            value: String::from("PATH"),
        },
        &ctx(&settings),
    );
    let _task = reduce(
        &mut state,
        QuickLaunchIntent::WizardUpdateEnvValue {
            tab_id: 1,
            index: 0,
            value: String::from("/usr/bin"),
        },
        &ctx(&settings),
    );

    let editor = state.wizard().editor(1).expect("editor should exist");
    let custom = editor.custom().expect("custom options should exist");
    assert_eq!(custom.env()[0].0, "PATH");
    assert_eq!(custom.env()[0].1, "/usr/bin");
}

#[test]
fn given_wizard_ssh_extra_args_when_added_and_removed_then_list_updates() {
    let mut state = QuickLaunchState::default();
    state.wizard_mut().initialize_create(
        1,
        vec![],
        QuickLaunchType::Custom,
    );
    if let Some(editor) = state.wizard_mut().editor_mut(1) {
        editor.set_command_type(QuickLaunchType::Ssh);
    }

    let settings = Settings::default();
    let _task = reduce(
        &mut state,
        QuickLaunchIntent::WizardAddExtraArg { tab_id: 1 },
        &ctx(&settings),
    );
    let _task = reduce(
        &mut state,
        QuickLaunchIntent::WizardUpdateExtraArg {
            tab_id: 1,
            index: 0,
            value: String::from("-o StrictHostKeyChecking=no"),
        },
        &ctx(&settings),
    );

    let editor = state.wizard().editor(1).expect("editor should exist");
    let ssh = editor.ssh().expect("ssh options should exist");
    assert_eq!(ssh.extra_args().len(), 1);
    assert_eq!(ssh.extra_args()[0], "-o StrictHostKeyChecking=no");

    let _task = reduce(
        &mut state,
        QuickLaunchIntent::WizardRemoveExtraArg {
            tab_id: 1,
            index: 0,
        },
        &ctx(&settings),
    );

    let editor = state.wizard().editor(1).expect("editor should exist");
    let ssh = editor.ssh().expect("ssh options should exist");
    assert!(ssh.extra_args().is_empty());
}
