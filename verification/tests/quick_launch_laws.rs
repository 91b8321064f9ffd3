use std::sync::atomic::{AtomicBool, Ordering};
use std::sync::Arc;

use otty::geometry::Point;
use otty::quick_launch::errors::QuickLaunchError;
use otty::quick_launch::event::{
    ContextMenuAction, QuickLaunchCtx, QuickLaunchEffect, QuickLaunchIntent, QuickLaunchTask,
    QuickLaunchWizardSaveRequest, QuickLaunchWizardSaveTarget,
};
use otty::quick_launch::launches::should_highlight_launch_indicator;
use otty::quick_launch::reducer::reduce;
use otty::quick_launch::setup::{PreparedQuickLaunch, QuickLaunchSetupOutcome};
use otty::quick_launch::state::{ContextMenuState, ContextMenuTarget, QuickLaunchState};
use otty::quick_launch::tree::{QuickLaunchFolder, QuickLaunchNode};
use otty::quick_launch::types::{CommandSpec, CustomCommand, NodePath, QuickLaunch};
use otty::session_options::Settings;
use otty::text::{decimal, parse_u16, signed_decimal};

fn path(titles: &[&str]) -> NodePath {
    titles.iter().map(|t| String::from(*t)).collect()
}

fn command(title: &str) -> QuickLaunch {
    QuickLaunch {
        title: String::from(title),
        spec: CommandSpec::Custom {
            custom: CustomCommand {
                program: String::from("sh"),
                args: Vec::new(),
                env: Vec::new(),
                working_directory: None,
            },
        },
    }
}

fn folder(title: &str, children: Vec<QuickLaunchNode>) -> QuickLaunchNode {
    QuickLaunchNode::Folder(QuickLaunchFolder {
        title: String::from(title),
        expanded: false,
        children,
    })
}

fn leaf(title: &str) -> QuickLaunchNode {
    QuickLaunchNode::Command(command(title))
}

/// Work / {Servers / {a}, build}, Home / {}, note
fn sample() -> QuickLaunchState {
    let mut state = QuickLaunchState::default();
    state.data_mut().root.children = vec![
        folder("Work", vec![folder("Servers", vec![leaf("a")]), leaf("build")]),
        folder("Home", Vec::new()),
        leaf("note"),
    ];
    state
}

fn send(state: &mut QuickLaunchState, event: QuickLaunchIntent) -> QuickLaunchTask {
    let settings = Settings::default();
    let ctx = QuickLaunchCtx {
        terminal_settings: &settings,
        sidebar_cursor: Point::origin(),
        sidebar_is_resizing: false,
        fresh_widget_id: 8,
    };
    reduce(state, event, &ctx)
}

fn drag(state: &mut QuickLaunchState, from: &[&str], to: &[&str]) {
    send(state, QuickLaunchIntent::NodePressed { path: path(from) });
    send(
        state,
        QuickLaunchIntent::CursorMoved {
            position: Point { x_bits: 50.0f32.to_bits(), y_bits: 0 },
            past_threshold: true,
        },
    );
    send(state, QuickLaunchIntent::NodeHovered { path: path(to) });
    send(state, QuickLaunchIntent::NodeReleased { path: path(to) });
}

fn titles(state: &QuickLaunchState, at: &[&str]) -> Vec<String> {
    state
        .data()
        .folder(&path(at))
        .expect("folder")
        .children
        .iter()
        .map(|n| String::from(n.title()))
        .collect()
}

fn menu(state: &mut QuickLaunchState, target: ContextMenuTarget, action: ContextMenuAction) -> QuickLaunchTask {
    state.set_context_menu(Some(
        ContextMenuState::default().with_target(target).with_cursor(Point::origin()),
    ));
    send(state, QuickLaunchIntent::ContextMenuAction(action))
}

#[test]
fn a_moved_entry_is_found_in_its_new_folder_with_its_launches() {
    let mut state = sample();
    let token = Arc::new(AtomicBool::new(false));
    let id = state.begin_launch(path(&["Work", "Servers", "a"]), token);
    drag(&mut state, &["Work", "Servers"], &["Home"]);
    assert_eq!(titles(&state, &["Work"]), vec!["build"]);
    assert_eq!(titles(&state, &["Home"]), vec!["Servers"]);
    assert!(state.data().node(&path(&["Home", "Servers", "a"])).is_some());
    assert_eq!(state.selected_path(), Some(&path(&["Home", "Servers"])));
    assert!(state.is_dirty());
    assert!(state.launch_info(&path(&["Work", "Servers", "a"])).is_none());
    let info = state.launch_info(&path(&["Home", "Servers", "a"])).expect("launch follows");
    assert_eq!(info.id, id);
}

#[test]
fn moves_that_make_no_sense_change_nothing() {
    let mut state = sample();
    // Into itself or below itself.
    drag(&mut state, &["Work"], &["Work", "Servers"]);
    // Where it is already.
    drag(&mut state, &["Work", "build"], &["Work"]);
    // An entry that is not there.
    drag(&mut state, &["gone"], &["Home"]);
    assert!(!state.is_dirty());
    assert_eq!(titles(&state, &[]), vec!["Work", "Home", "note"]);
    assert_eq!(titles(&state, &["Work"]), vec!["Servers", "build"]);
    // Where the title is taken.
    state.data_mut().root.children.push(leaf("build"));
    drag(&mut state, &["build"], &["Work"]);
    assert_eq!(titles(&state, &["Work"]), vec!["Servers", "build"]);
    assert_eq!(titles(&state, &[]), vec!["Work", "Home", "note", "build"]);
    // A drop on a command goes to its folder; one on the background to the root.
    drag(&mut state, &["note"], &["Work", "Servers", "a"]);
    assert_eq!(titles(&state, &["Work", "Servers"]), vec!["a", "note"]);
    send(&mut state, QuickLaunchIntent::NodePressed { path: path(&["Work", "Servers", "note"]) });
    send(
        &mut state,
        QuickLaunchIntent::CursorMoved { position: Point::origin(), past_threshold: true },
    );
    send(&mut state, QuickLaunchIntent::BackgroundReleased);
    assert_eq!(titles(&state, &[]), vec!["Work", "Home", "build", "note"]);
}

#[test]
fn a_drag_below_the_threshold_is_a_click() {
    let mut state = sample();
    send(&mut state, QuickLaunchIntent::NodePressed { path: path(&["note"]) });
    send(
        &mut state,
        QuickLaunchIntent::CursorMoved { position: Point::origin(), past_threshold: false },
    );
    let task = send(&mut state, QuickLaunchIntent::NodeReleased { path: path(&["note"]) });
    assert!(matches!(task, QuickLaunchTask::Launch { launch_id: 1, .. }));
    // The command is being launched already.
    send(&mut state, QuickLaunchIntent::NodePressed { path: path(&["note"]) });
    let task = send(&mut state, QuickLaunchIntent::NodeReleased { path: path(&["note"]) });
    assert!(matches!(task, QuickLaunchTask::Idle));
}

#[test]
fn titles_in_a_folder_stay_unique() {
    let mut state = sample();
    let request = |title: &str, target| QuickLaunchWizardSaveRequest {
        tab_id: 1,
        target,
        command: command(title),
    };
    state.wizard_mut().initialize_create(1, vec![], otty::quick_launch::types::QuickLaunchType::Custom);
    let task = send(
        &mut state,
        QuickLaunchIntent::WizardSaveRequested(request(
            " note ",
            QuickLaunchWizardSaveTarget::Create { parent_path: vec![] },
        )),
    );
    assert!(matches!(task, QuickLaunchTask::Idle));
    assert_eq!(
        state.wizard().editor(1).and_then(|e| e.error()),
        Some("Title already exists in this folder.")
    );
    let task = send(
        &mut state,
        QuickLaunchIntent::WizardSaveRequested(request(
            "x",
            QuickLaunchWizardSaveTarget::Create { parent_path: path(&["note"]) },
        )),
    );
    assert!(matches!(task, QuickLaunchTask::Idle));
    assert_eq!(state.wizard().editor(1).and_then(|e| e.error()), Some("Missing target folder."));
    send(
        &mut state,
        QuickLaunchIntent::WizardSaveRequested(request(
            "x",
            QuickLaunchWizardSaveTarget::Edit { path: vec![] },
        )),
    );
    assert_eq!(state.wizard().editor(1).and_then(|e| e.error()), Some("Missing parent folder."));
    send(
        &mut state,
        QuickLaunchIntent::WizardSaveRequested(request(
            "x",
            QuickLaunchWizardSaveTarget::Edit { path: path(&["gone"]) },
        )),
    );
    assert_eq!(
        state.wizard().editor(1).and_then(|e| e.error()),
        Some("Command no longer exists.")
    );
    assert_eq!(titles(&state, &[]), vec!["Work", "Home", "note"]);
    let task = send(
        &mut state,
        QuickLaunchIntent::WizardSaveRequested(request(
            "note",
            QuickLaunchWizardSaveTarget::Edit { path: path(&["note"]) },
        )),
    );
    assert!(matches!(
        task,
        QuickLaunchTask::Effect(QuickLaunchEffect::CloseTabRequested { tab_id: 1 })
    ));
}

#[test]
fn copies_get_the_first_free_title() {
    let mut state = sample();
    for _ in 0..4 {
        menu(
            &mut state,
            ContextMenuTarget::Command(path(&["note"])),
            ContextMenuAction::Duplicate,
        );
    }
    menu(
        &mut state,
        ContextMenuTarget::Command(path(&["note copy (1)"])),
        ContextMenuAction::Remove,
    );
    menu(&mut state, ContextMenuTarget::Command(path(&["note"])), ContextMenuAction::Duplicate);
    assert_eq!(
        titles(&state, &[]),
        vec![
            "Work",
            "Home",
            "note",
            "note copy",
            "note copy (0)",
            "note copy (2)",
            "note copy (1)",
        ]
    );
}

#[test]
fn a_killed_launch_opens_nothing() {
    let mut state = sample();
    send(&mut state, QuickLaunchIntent::NodePressed { path: path(&["note"]) });
    let task = send(&mut state, QuickLaunchIntent::NodeReleased { path: path(&["note"]) });
    let QuickLaunchTask::Launch { launch_id, cancel, command, path: launched, settings } = task
    else {
        panic!("expected a launch");
    };
    let task =
        menu(&mut state, ContextMenuTarget::Command(path(&["note"])), ContextMenuAction::Kill);
    let QuickLaunchTask::Cancel { token } = task else {
        panic!("expected the flag of the launch");
    };
    assert!(Arc::ptr_eq(&token, &cancel));
    assert!(cancel.load(Ordering::SeqCst));
    let outcome = QuickLaunchSetupOutcome::Prepared(Box::new(PreparedQuickLaunch {
        path: launched,
        launch_id,
        title: String::from("note"),
        settings,
        command: Box::new(command),
    }));
    let task = send(&mut state, QuickLaunchIntent::SetupCompleted(outcome));
    assert!(matches!(task, QuickLaunchTask::Idle));
    assert!(state.launching().is_empty());
}

#[test]
fn reports_open_a_terminal_or_an_error() {
    let mut state = sample();
    let id = state.begin_launch(path(&["note"]), Arc::new(AtomicBool::new(false)));
    let stale = QuickLaunchSetupOutcome::Failed {
        path: path(&["note"]),
        launch_id: id + 7,
        command: Box::new(command("note")),
        error: QuickLaunchError::Validation { message: String::from("old") },
    };
    let task = send(&mut state, QuickLaunchIntent::SetupCompleted(stale));
    assert!(matches!(task, QuickLaunchTask::Idle));
    assert!(state.is_launching(&path(&["note"])));
    let failed = QuickLaunchSetupOutcome::Failed {
        path: path(&["note"]),
        launch_id: id,
        command: Box::new(command("note")),
        error: QuickLaunchError::Validation { message: String::from("boom") },
    };
    let task = send(&mut state, QuickLaunchIntent::SetupCompleted(failed));
    assert!(matches!(
        task,
        QuickLaunchTask::Effect(QuickLaunchEffect::OpenErrorTab { title, message })
            if title == "Failed to launch \"note\"" && message == "boom"
    ));
    assert!(!state.has_active_launches());
    let id = state.begin_launch(path(&["note"]), Arc::new(AtomicBool::new(false)));
    assert_eq!(id, 2);
    let prepared = QuickLaunchSetupOutcome::Prepared(Box::new(PreparedQuickLaunch {
        path: path(&["note"]),
        launch_id: id,
        title: String::from("note"),
        settings: Settings::default(),
        command: Box::new(command("note")),
    }));
    let task = send(&mut state, QuickLaunchIntent::SetupCompleted(prepared));
    assert!(matches!(
        task,
        QuickLaunchTask::Effect(QuickLaunchEffect::OpenCommandTerminalTab { title, .. })
            if title == "note"
    ));
}

#[test]
fn the_tree_is_stored_once_at_a_time() {
    let mut state = sample();
    state.mark_dirty();
    let task = send(&mut state, QuickLaunchIntent::Tick);
    assert!(matches!(task, QuickLaunchTask::Persist { data } if data.root.children.len() == 3));
    assert!(matches!(send(&mut state, QuickLaunchIntent::Tick), QuickLaunchTask::Idle));
    send(&mut state, QuickLaunchIntent::PersistFailed(String::from("full")));
    assert!(matches!(send(&mut state, QuickLaunchIntent::Tick), QuickLaunchTask::Persist { .. }));
    send(&mut state, QuickLaunchIntent::PersistCompleted);
    assert!(!state.is_dirty());
    assert!(matches!(send(&mut state, QuickLaunchIntent::Tick), QuickLaunchTask::Idle));
}

#[test]
fn renaming_moves_launches_and_the_selection() {
    let mut state = sample();
    state.begin_launch(path(&["Work", "build"]), Arc::new(AtomicBool::new(false)));
    state.set_selected_path(Some(path(&["Work"])));
    let task =
        menu(&mut state, ContextMenuTarget::Folder(path(&["Work"])), ContextMenuAction::Rename);
    assert!(matches!(task, QuickLaunchTask::Focus { id: 8 }));
    assert_eq!(state.inline_edit().expect("edit").value, "Work");
    send(&mut state, QuickLaunchIntent::InlineEditChanged(String::from(" Home ")));
    send(&mut state, QuickLaunchIntent::InlineEditSubmit);
    assert_eq!(
        state.inline_edit().expect("edit").error.as_deref(),
        Some("Title already exists in this folder.")
    );
    send(&mut state, QuickLaunchIntent::InlineEditChanged(String::from(" Office ")));
    send(&mut state, QuickLaunchIntent::InlineEditSubmit);
    assert_eq!(titles(&state, &[]), vec!["Office", "Home", "note"]);
    assert_eq!(state.selected_path(), Some(&path(&["Office"])));
    assert!(state.is_launching(&path(&["Office", "build"])));
}

#[test]
fn new_entries_go_where_the_selection_is() {
    let mut state = sample();
    state.set_selected_path(Some(path(&["Work", "build"])));
    let task = send(&mut state, QuickLaunchIntent::HeaderCreateCommand);
    assert!(matches!(
        task,
        QuickLaunchTask::Effect(QuickLaunchEffect::OpenWizardCreateTab { parent_path })
            if parent_path == path(&["Work"])
    ));
    let task = send(&mut state, QuickLaunchIntent::HeaderCreateFolder);
    assert!(matches!(task, QuickLaunchTask::Focus { id: 8 }));
    assert!(state.data().folder(&path(&["Work"])).expect("folder").is_expanded());
    send(&mut state, QuickLaunchIntent::InlineEditChanged(String::from("New")));
    send(&mut state, QuickLaunchIntent::InlineEditSubmit);
    assert_eq!(titles(&state, &["Work"]), vec!["Servers", "build", "New"]);
    let task = menu(
        &mut state,
        ContextMenuTarget::Command(path(&["Work", "build"])),
        ContextMenuAction::Edit,
    );
    assert!(matches!(
        task,
        QuickLaunchTask::Effect(QuickLaunchEffect::OpenWizardEditTab { command, .. })
            if command.title() == "build"
    ));
    let task = menu(
        &mut state,
        ContextMenuTarget::Command(path(&["Work", "build"])),
        ContextMenuAction::CreateCommand,
    );
    assert!(matches!(
        task,
        QuickLaunchTask::Effect(QuickLaunchEffect::OpenWizardCreateTab { parent_path })
            if parent_path == path(&["Work"])
    ));
    let task =
        menu(&mut state, ContextMenuTarget::Background, ContextMenuAction::CreateFolder);
    assert!(matches!(task, QuickLaunchTask::Focus { id: 8 }));
}

#[test]
fn indicators_blink_after_a_second() {
    assert!(!should_highlight_launch_indicator(4, 0));
    assert!(should_highlight_launch_indicator(5, 0));
    assert!(should_highlight_launch_indicator(5, 2));
    assert!(!should_highlight_launch_indicator(5, 3));
    assert!(should_highlight_launch_indicator(u64::MAX, 5));
    let mut state = sample();
    state.begin_launch(path(&["note"]), Arc::new(AtomicBool::new(false)));
    for _ in 0..5 {
        send(&mut state, QuickLaunchIntent::Tick);
    }
    let info = state.launch_info(&path(&["note"])).expect("launch");
    assert_eq!(info.launch_ticks, 5);
    assert_eq!(state.blink_nonce(), 5);
    assert!(info.is_indicator_highlighted);
}

#[test]
fn numbers_read_back() {
    for n in [0u16, 7, 10, 22, 65535] {
        assert_eq!(decimal(n as u64), n.to_string());
        assert_eq!(parse_u16(&decimal(n as u64)), Some(n));
    }
    assert_eq!(decimal(u64::MAX), u64::MAX.to_string());
    assert_eq!(signed_decimal(i64::MIN), i64::MIN.to_string());
    assert_eq!(signed_decimal(42), "42");
    assert_eq!(parse_u16("65536"), None);
    assert_eq!(parse_u16("++1"), None);
    assert_eq!(parse_u16(""), None);
}
