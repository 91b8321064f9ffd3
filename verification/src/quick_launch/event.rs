//! What happens to the quick launch widget, and what it asks for in return.

use std::sync::atomic::AtomicBool;
use std::sync::Arc;

use vstd::prelude::*;

use crate::geometry::Point;
use crate::quick_launch::setup::QuickLaunchSetupOutcome;
use crate::quick_launch::tree::{FolderModel, QuickLaunchFile};
use crate::quick_launch::types::{LaunchModel, NodePath, QuickLaunch, QuickLaunchType};
use crate::session_options::{Settings, SettingsModel};
use crate::text::texts;

verus! {

/// An entry of a context menu.
#[derive(Debug, Clone, Copy, PartialEq, Eq, Structural)]
pub enum ContextMenuAction {
    Edit,
    Rename,
    Duplicate,
    Remove,
    Delete,
    CreateFolder,
    CreateCommand,
    Kill,
}

/// Where the command of an editor is stored.
#[derive(Debug)]
pub enum QuickLaunchWizardSaveTarget {
    Create { parent_path: NodePath },
    Edit { path: NodePath },
}

/// The request to store the command of an editor.
#[derive(Debug)]
pub struct QuickLaunchWizardSaveRequest {
    pub tab_id: u64,
    pub target: QuickLaunchWizardSaveTarget,
    pub command: QuickLaunch,
}

/// What happens to the widget.
#[derive(Debug)]
pub enum QuickLaunchIntent {
    NodeHovered { path: NodePath },
    NodePressed { path: NodePath },
    NodeReleased { path: NodePath },
    NodeRightClicked { path: NodePath },
    BackgroundPressed,
    BackgroundReleased,
    BackgroundRightClicked,
    /// The cursor is at `position`. `past_threshold` says whether that is at
    /// least the drag threshold away from where the current drag began.
    CursorMoved { position: Point, past_threshold: bool },
    ResetInteractionState,
    ContextMenuDismiss,
    ContextMenuAction(ContextMenuAction),
    InlineEditChanged(String),
    InlineEditSubmit,
    CancelInlineEdit,
    HeaderAddButtonPressed,
    HeaderCreateFolder,
    HeaderCreateCommand,
    DeleteSelected,
    OpenErrorTab { tab_id: u64, title: String, message: String },
    TabClosed { tab_id: u64 },
    WizardInitializeCreate { tab_id: u64, parent_path: NodePath, command_type: QuickLaunchType },
    WizardInitializeEdit { tab_id: u64, path: NodePath, command: Box<QuickLaunch> },
    WizardCancel { tab_id: u64 },
    WizardSave { tab_id: u64 },
    WizardSetError { tab_id: u64, message: String },
    WizardUpdateTitle { tab_id: u64, value: String },
    WizardUpdateProgram { tab_id: u64, value: String },
    WizardUpdateHost { tab_id: u64, value: String },
    WizardUpdateUser { tab_id: u64, value: String },
    WizardUpdatePort { tab_id: u64, value: String },
    WizardUpdateIdentityFile { tab_id: u64, value: String },
    WizardUpdateWorkingDirectory { tab_id: u64, value: String },
    WizardAddArg { tab_id: u64 },
    WizardRemoveArg { tab_id: u64, index: usize },
    WizardUpdateArg { tab_id: u64, index: usize, value: String },
    WizardAddEnv { tab_id: u64 },
    WizardRemoveEnv { tab_id: u64, index: usize },
    WizardUpdateEnvKey { tab_id: u64, index: usize, value: String },
    WizardUpdateEnvValue { tab_id: u64, index: usize, value: String },
    WizardAddExtraArg { tab_id: u64 },
    WizardRemoveExtraArg { tab_id: u64, index: usize },
    WizardUpdateExtraArg { tab_id: u64, index: usize, value: String },
    WizardSelectCommandType { tab_id: u64, command_type: QuickLaunchType },
    SetupCompleted(QuickLaunchSetupOutcome),
    WizardSaveRequested(QuickLaunchWizardSaveRequest),
    PersistCompleted,
    PersistFailed(String),
    Tick,
}

/// What the widget asks of the application.
#[derive(Debug)]
pub enum QuickLaunchEffect {
    /// Open an editor for a new command.
    OpenWizardCreateTab { parent_path: NodePath },
    /// Open an editor for an existing command.
    OpenWizardEditTab { path: NodePath, command: Box<QuickLaunch> },
    /// Open a terminal with a prepared command.
    OpenCommandTerminalTab { title: String, settings: Settings, command: Box<QuickLaunch> },
    /// Open a tab that shows an error.
    OpenErrorTab { title: String, message: String },
    /// Close a tab.
    CloseTabRequested { tab_id: u64 },
}

/// The mathematical value of what the widget asks of the application.
#[verifier::ext_equal]
pub enum EffectModel {
    OpenWizardCreateTab(Seq<Seq<char>>),
    OpenWizardEditTab(Seq<Seq<char>>, LaunchModel),
    OpenCommandTerminalTab(Seq<char>, SettingsModel, LaunchModel),
    OpenErrorTab(Seq<char>, Seq<char>),
    CloseTabRequested(u64),
}

impl View for QuickLaunchEffect {
    type V = EffectModel;

    open spec fn view(&self) -> EffectModel {
        match self {
            QuickLaunchEffect::OpenWizardCreateTab { parent_path } =>
                EffectModel::OpenWizardCreateTab(texts(parent_path@)),
            QuickLaunchEffect::OpenWizardEditTab { path, command } =>
                EffectModel::OpenWizardEditTab(texts(path@), (**command)@),
            QuickLaunchEffect::OpenCommandTerminalTab { title, settings, command } =>
                EffectModel::OpenCommandTerminalTab(title@, settings@, (**command)@),
            QuickLaunchEffect::OpenErrorTab { title, message } => EffectModel::OpenErrorTab(
                title@,
                message@,
            ),
            QuickLaunchEffect::CloseTabRequested { tab_id } => EffectModel::CloseTabRequested(
                *tab_id,
            ),
        }
    }
}

/// The work that follows an event.
#[derive(Debug)]
pub enum QuickLaunchTask {
    /// Nothing.
    Idle,
    /// Ask the application for something.
    Effect(QuickLaunchEffect),
    /// Give the keyboard focus to the input field with the given id.
    Focus { id: u64 },
    /// Store the tree and report whether that worked.
    Persist { data: QuickLaunchFile },
    /// Prepare a launch and report how that ended.
    Launch {
        command: QuickLaunch,
        path: NodePath,
        launch_id: u64,
        settings: Settings,
        cancel: Arc<AtomicBool>,
    },
    /// A launch is to stop: its flag, which was raised.
    Cancel { token: Arc<AtomicBool> },
}

/// The mathematical value of the work that follows an event.
#[verifier::ext_equal]
pub enum TaskModel {
    Idle,
    Effect(EffectModel),
    Focus(u64),
    Persist(FolderModel),
    Launch(LaunchModel, Seq<Seq<char>>, u64, SettingsModel, Arc<AtomicBool>),
    Cancel(Arc<AtomicBool>),
}

impl View for QuickLaunchTask {
    type V = TaskModel;

    open spec fn view(&self) -> TaskModel {
        match self {
            QuickLaunchTask::Idle => TaskModel::Idle,
            QuickLaunchTask::Effect(effect) => TaskModel::Effect(effect@),
            QuickLaunchTask::Focus { id } => TaskModel::Focus(*id),
            QuickLaunchTask::Persist { data } => TaskModel::Persist(data@),
            QuickLaunchTask::Launch { command, path, launch_id, settings, cancel } =>
                TaskModel::Launch(command@, texts(path@), *launch_id, settings@, *cancel),
            QuickLaunchTask::Cancel { token } => TaskModel::Cancel(*token),
        }
    }
}

impl TaskModel {
    /// The cancel token that a launch hands over.
    pub open spec fn token(self) -> Arc<AtomicBool> {
        self->Launch_4
    }
}

/// What surrounds the widget.
#[derive(Debug)]
pub struct QuickLaunchCtx<'a> {
    /// Settings of the terminals in which commands are launched.
    pub terminal_settings: &'a Settings,
    /// Where the cursor is in the sidebar.
    pub sidebar_cursor: Point,
    /// Whether the sidebar is being resized.
    pub sidebar_is_resizing: bool,
    /// An id that no input field has yet.
    pub fresh_widget_id: u64,
}

} // verus!
