//! Values of the terminal workspace.

use iced_widget::pane_grid::{Axis, Pane, ResizeEvent};
use vstd::prelude::*;

use crate::geometry::Point;
use crate::session_options::Settings;

verus! {

/// What a terminal tab is for.
#[derive(Debug, Clone, Copy, PartialEq, Eq, Structural)]
pub enum TerminalKind {
    Shell,
    Command,
}

/// A terminal of a tab: the widget that shows it, and its title.
#[derive(Debug)]
pub struct TerminalEntry {
    pub widget_id: u64,
    pub title: String,
}

/// The mathematical value of a terminal of a tab.
#[verifier::ext_equal]
pub struct EntryModel {
    pub widget_id: u64,
    pub title: Seq<char>,
}

impl View for TerminalEntry {
    type V = EntryModel;

    open spec fn view(&self) -> EntryModel {
        EntryModel { widget_id: self.widget_id, title: self.title@ }
    }
}

impl Clone for TerminalEntry {
    fn clone(&self) -> (r: Self)
        ensures
            r@ == self@,
    {
        TerminalEntry { widget_id: self.widget_id, title: self.title.clone() }
    }
}

/// A selected block of a terminal.
#[derive(Debug)]
pub struct BlockSelection {
    terminal_id: u64,
    block_id: String,
}

/// The mathematical value of a selected block.
#[verifier::ext_equal]
pub struct SelectionModel {
    pub terminal_id: u64,
    pub block_id: Seq<char>,
}

impl View for BlockSelection {
    type V = SelectionModel;

    closed spec fn view(&self) -> SelectionModel {
        SelectionModel { terminal_id: self.terminal_id, block_id: self.block_id@ }
    }
}

impl BlockSelection {
    pub fn new(terminal_id: u64, block_id: String) -> (r: Self)
        ensures
            r@ == (SelectionModel { terminal_id, block_id: block_id@ }),
    {
        BlockSelection { terminal_id, block_id }
    }

    pub fn terminal_id(&self) -> (id: u64)
        ensures
            id == self@.terminal_id,
    {
        self.terminal_id
    }

    pub fn block_id(&self) -> (id: &str)
        ensures
            id@ == self@.block_id,
    {
        self.block_id.as_str()
    }
}

/// A command to the blocks of a terminal.
#[derive(Debug)]
pub enum BlockCommand {
    SelectHovered,
    ClearSelection,
    Select(String),
    CopySelection,
    CopyContent(String),
    CopyPrompt(String),
    CopyCommand(String),
    PasteClipboard,
}

/// The mathematical value of a command to the blocks of a terminal.
#[verifier::ext_equal]
pub enum BlockCommandModel {
    SelectHovered,
    ClearSelection,
    Select(Seq<char>),
    CopySelection,
    CopyContent(Seq<char>),
    CopyPrompt(Seq<char>),
    CopyCommand(Seq<char>),
    PasteClipboard,
}

impl View for BlockCommand {
    type V = BlockCommandModel;

    open spec fn view(&self) -> BlockCommandModel {
        match self {
            BlockCommand::SelectHovered => BlockCommandModel::SelectHovered,
            BlockCommand::ClearSelection => BlockCommandModel::ClearSelection,
            BlockCommand::Select(id) => BlockCommandModel::Select(id@),
            BlockCommand::CopySelection => BlockCommandModel::CopySelection,
            BlockCommand::CopyContent(id) => BlockCommandModel::CopyContent(id@),
            BlockCommand::CopyPrompt(id) => BlockCommandModel::CopyPrompt(id@),
            BlockCommand::CopyCommand(id) => BlockCommandModel::CopyCommand(id@),
            BlockCommand::PasteClipboard => BlockCommandModel::PasteClipboard,
        }
    }
}

/// What happens in a terminal.
#[derive(Debug)]
pub enum TerminalEvent {
    Shutdown { id: u64 },
    TitleChanged { id: u64, title: String },
    ResetTitle { id: u64 },
    BlockSelected { id: u64, block_id: String },
    BlockSelectionCleared { id: u64 },
    /// Anything that concerns only the terminal itself.
    Other { id: u64 },
}

impl TerminalEvent {
    /// The terminal in which it happens.
    pub open spec fn spec_terminal_id(self) -> u64 {
        match self {
            TerminalEvent::Shutdown { id } => id,
            TerminalEvent::TitleChanged { id, .. } => id,
            TerminalEvent::ResetTitle { id } => id,
            TerminalEvent::BlockSelected { id, .. } => id,
            TerminalEvent::BlockSelectionCleared { id } => id,
            TerminalEvent::Other { id } => id,
        }
    }

    /// The terminal in which it happens.
    pub fn terminal_id(&self) -> (id: u64)
        ensures
            id == self.spec_terminal_id(),
    {
        match self {
            TerminalEvent::Shutdown { id } => *id,
            TerminalEvent::TitleChanged { id, .. } => *id,
            TerminalEvent::ResetTitle { id } => *id,
            TerminalEvent::BlockSelected { id, .. } => *id,
            TerminalEvent::BlockSelectionCleared { id } => *id,
            TerminalEvent::Other { id } => *id,
        }
    }
}

/// What happens to the workspace.
pub enum TerminalWorkspaceIntent {
    OpenTab {
        tab_id: u64,
        default_title: String,
        settings: Box<Settings>,
        kind: TerminalKind,
        sync_explorer: bool,
    },
    TabClosed { tab_id: u64 },
    Widget(TerminalEvent),
    PaneClicked { tab_id: u64, pane: Pane },
    PaneResized { tab_id: u64, event: ResizeEvent },
    PaneGridCursorMoved { tab_id: u64, position: Point },
    /// A menu is asked for on a terminal, which shows its alternate screen or
    /// not.
    OpenContextMenu { tab_id: u64, pane: Pane, terminal_id: u64, alt_screen: bool },
    CloseContextMenu { tab_id: u64 },
    ContextMenuInput { tab_id: u64 },
    SplitPane { tab_id: u64, pane: Pane, axis: Axis },
    ClosePane { tab_id: u64, pane: Pane },
    CopySelection { tab_id: u64, terminal_id: u64 },
    PasteIntoPrompt { tab_id: u64, terminal_id: u64 },
    CopySelectedBlockContent { tab_id: u64, terminal_id: u64 },
    CopySelectedBlockPrompt { tab_id: u64, terminal_id: u64 },
    CopySelectedBlockCommand { tab_id: u64, terminal_id: u64 },
    /// All terminals take the look with the given name.
    ApplyTheme { appearance: u64 },
    CloseAllContextMenus,
    FocusActive,
    SyncSelection { tab_id: u64 },
    SyncPaneGridSize,
}

/// What the workspace asks of the application.
#[derive(Debug)]
pub enum TerminalWorkspaceEffect {
    TabClosed { tab_id: u64 },
    TitleChanged { tab_id: u64, title: String },
    SyncExplorer,
    CommandTabOpenFailed { tab_id: u64, title: String, message: String },
}

/// The mathematical value of what the workspace asks of the application.
#[verifier::ext_equal]
pub enum WorkspaceEffectModel {
    TabClosed(u64),
    TitleChanged(u64, Seq<char>),
    SyncExplorer,
    CommandTabOpenFailed(u64, Seq<char>, Seq<char>),
}

impl View for TerminalWorkspaceEffect {
    type V = WorkspaceEffectModel;

    open spec fn view(&self) -> WorkspaceEffectModel {
        match self {
            TerminalWorkspaceEffect::TabClosed { tab_id } => WorkspaceEffectModel::TabClosed(
                *tab_id,
            ),
            TerminalWorkspaceEffect::TitleChanged { tab_id, title } =>
                WorkspaceEffectModel::TitleChanged(*tab_id, title@),
            TerminalWorkspaceEffect::SyncExplorer => WorkspaceEffectModel::SyncExplorer,
            TerminalWorkspaceEffect::CommandTabOpenFailed { tab_id, title, message } =>
                WorkspaceEffectModel::CommandTabOpenFailed(*tab_id, title@, message@),
        }
    }
}

/// One piece of work that follows an event.
#[derive(Debug)]
pub enum WorkspaceTask {
    /// Give the keyboard focus to a terminal widget.
    FocusTerminal { widget_id: u64 },
    /// Give the keyboard focus to another element.
    FocusElement { id: u64 },
    /// Send a command to the blocks of a terminal widget.
    Block { widget_id: u64, command: BlockCommand },
    /// Hand the event to the terminal in which it happened.
    Forward { terminal_id: u64 },
    /// Let a terminal take the look of its tab.
    Restyle { terminal_id: u64 },
    /// Ask the application for something.
    Effect(TerminalWorkspaceEffect),
}

/// The mathematical value of a piece of work.
#[verifier::ext_equal]
pub enum WorkspaceTaskModel {
    FocusTerminal(u64),
    FocusElement(u64),
    Block(u64, BlockCommandModel),
    Forward(u64),
    Restyle(u64),
    Effect(WorkspaceEffectModel),
}

impl View for WorkspaceTask {
    type V = WorkspaceTaskModel;

    open spec fn view(&self) -> WorkspaceTaskModel {
        match self {
            WorkspaceTask::FocusTerminal { widget_id } => WorkspaceTaskModel::FocusTerminal(
                *widget_id,
            ),
            WorkspaceTask::FocusElement { id } => WorkspaceTaskModel::FocusElement(*id),
            WorkspaceTask::Block { widget_id, command } => WorkspaceTaskModel::Block(
                *widget_id,
                command@,
            ),
            WorkspaceTask::Forward { terminal_id } => WorkspaceTaskModel::Forward(*terminal_id),
            WorkspaceTask::Restyle { terminal_id } => WorkspaceTaskModel::Restyle(*terminal_id),
            WorkspaceTask::Effect(effect) => WorkspaceTaskModel::Effect(effect@),
        }
    }
}

/// The mathematical value of a list of work.
pub open spec fn task_models(tasks: Seq<WorkspaceTask>) -> Seq<WorkspaceTaskModel> {
    tasks.map_values(|t: WorkspaceTask| t@)
}

/// Append a piece of work.
pub fn push_task(tasks: &mut Vec<WorkspaceTask>, task: WorkspaceTask)
    ensures
        task_models(final(tasks)@) == task_models(old(tasks)@).push(task@),
{
    tasks.push(task);
    assert(task_models(tasks@) =~= task_models(old(tasks)@).push(task@));
}

/// Append a list of work.
pub fn append_tasks(tasks: &mut Vec<WorkspaceTask>, more: Vec<WorkspaceTask>)
    ensures
        task_models(final(tasks)@) == task_models(old(tasks)@) + task_models(more@),
{
    let mut more = more;
    let ghost added = more@;
    tasks.append(&mut more);
    assert(task_models(tasks@) =~= task_models(old(tasks)@) + task_models(added));
}

} // verus!
