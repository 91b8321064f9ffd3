//! How events of the widgets reach the parts of the application that they are
//! for.

use vstd::prelude::*;
use vstd::string::StringExecFns;

use crate::paths::Platform;
use crate::quick_launch::event::{QuickLaunchEffect, QuickLaunchIntent};
use crate::quick_launch::types::{NodePath, QuickLaunch, QuickLaunchType};
use crate::session_options::Settings;
use crate::terminal_workspace::types::TerminalWorkspaceIntent;
use crate::text::joined;

verus! {

/// What an editor tab opens with.
#[derive(Debug)]
pub enum WizardTabInit {
    Create { parent_path: NodePath, command_type: QuickLaunchType },
    Edit { path: NodePath, command: Box<QuickLaunch> },
}

/// What is asked of the tab bar.
#[derive(Debug)]
pub enum TabsIntent {
    OpenTerminalTab { title: String },
    OpenSettingsTab,
    OpenWizardTab { title: String, init: WizardTabInit },
    OpenCommandTab { title: String, settings: Box<Settings> },
    OpenErrorTab { title: String, message: String },
    CloseTab { tab_id: u64 },
}

/// What the sidebar asks of the application.
#[derive(Debug, Clone, Copy, PartialEq, Eq, Structural)]
pub enum SidebarEffect {
    SyncTerminalGridSizes,
    OpenSettingsTab,
    OpenTerminalTab,
    QuickLaunchHeaderCreateCommand,
    QuickLaunchHeaderCreateFolder,
    QuickLaunchResetInteractionState,
}

/// What happens to the application itself.
#[derive(Debug, Clone, Copy, PartialEq, Eq, Structural)]
pub enum AppSignal {
    /// The toolkit is ready.
    Ready,
    SyncTerminalGridSizes,
    Keyboard,
    WindowResized,
    /// Anything else about the window.
    WindowOther,
}

/// What is handed to a part of the application.
pub enum AppTask {
    Tabs(TabsIntent),
    QuickLaunch(QuickLaunchIntent),
    TerminalWorkspace(TerminalWorkspaceIntent),
    /// Open the menu for new entries in the sidebar.
    SidebarAddMenuOpen,
    SyncTerminalGridSizes,
}

/// The tab that opens for a new terminal. Local sessions are not supported on
/// Windows, so an editor for an SSH command opens there instead.
pub open spec fn is_terminal_tab(task: AppTask, platform: Platform, shell_name: Seq<char>) -> bool {
    match platform {
        Platform::Unix => task matches AppTask::Tabs(TabsIntent::OpenTerminalTab { title })
            && title@ == shell_name,
        Platform::Windows => task matches AppTask::Tabs(
            TabsIntent::OpenWizardTab { title, init },
        ) && title@ == "New SSH Connection"@ && (init matches WizardTabInit::Create {
            parent_path,
            command_type,
        } && parent_path@.len() == 0 && command_type == QuickLaunchType::Ssh),
    }
}

/// The tab that opens for a new terminal.
pub fn open_terminal_tab_task(platform: Platform, shell_name: &str) -> (task: AppTask)
    ensures
        is_terminal_tab(task, platform, shell_name@),
{
    match platform {
        Platform::Unix => AppTask::Tabs(
            TabsIntent::OpenTerminalTab { title: shell_name.to_string() },
        ),
        Platform::Windows => AppTask::Tabs(
            TabsIntent::OpenWizardTab {
                title: "New SSH Connection".to_string(),
                init: WizardTabInit::Create {
                    parent_path: Vec::new(),
                    command_type: QuickLaunchType::Ssh,
                },
            },
        ),
    }
}

/// What the quick launch widget asks for, as something for the tab bar.
pub open spec fn is_effect_task(task: AppTask, effect: QuickLaunchEffect) -> bool {
    match effect {
        QuickLaunchEffect::OpenWizardCreateTab { parent_path } => task matches AppTask::Tabs(
            TabsIntent::OpenWizardTab { title, init },
        ) && title@ == "Create Quick Launch"@ && init == (WizardTabInit::Create {
            parent_path,
            command_type: QuickLaunchType::Custom,
        }),
        QuickLaunchEffect::OpenWizardEditTab { path, command } => task matches AppTask::Tabs(
            TabsIntent::OpenWizardTab { title, init },
        ) && title@ == "Edit: "@ + (*command)@.title && init == (WizardTabInit::Edit {
            path,
            command,
        }),
        QuickLaunchEffect::OpenCommandTerminalTab { title, settings, .. } => task == AppTask::Tabs(
            TabsIntent::OpenCommandTab { title, settings: Box::new(settings) },
        ),
        QuickLaunchEffect::OpenErrorTab { title, message } => task == AppTask::Tabs(
            TabsIntent::OpenErrorTab { title, message },
        ),
        QuickLaunchEffect::CloseTabRequested { tab_id } => task == AppTask::Tabs(
            TabsIntent::CloseTab { tab_id },
        ),
    }
}

/// Hand what the quick launch widget asks for to the tab bar.
pub fn handle_effect(effect: QuickLaunchEffect) -> (tasks: Vec<AppTask>)
    ensures
        tasks@.len() == 1,
        is_effect_task(tasks@[0], effect),
{
    let intent = match effect {
        QuickLaunchEffect::OpenWizardCreateTab { parent_path } => TabsIntent::OpenWizardTab {
            title: "Create Quick Launch".to_string(),
            init: WizardTabInit::Create { parent_path, command_type: QuickLaunchType::Custom },
        },
        QuickLaunchEffect::OpenWizardEditTab { path, command } => TabsIntent::OpenWizardTab {
            title: joined("Edit: ", command.title()),
            init: WizardTabInit::Edit { path, command },
        },
        QuickLaunchEffect::OpenCommandTerminalTab { title, settings, .. } =>
            TabsIntent::OpenCommandTab { title, settings: Box::new(settings) },
        QuickLaunchEffect::OpenErrorTab { title, message } => TabsIntent::OpenErrorTab {
            title,
            message,
        },
        QuickLaunchEffect::CloseTabRequested { tab_id } => TabsIntent::CloseTab { tab_id },
    };
    let mut tasks: Vec<AppTask> = Vec::new();
    tasks.push(AppTask::Tabs(intent));
    tasks
}

/// The add button stands in the quick launch panel but opens a menu of the
/// sidebar; every other event is for the widget itself.
pub fn redirect_intent(event: &QuickLaunchIntent) -> (task: Option<AppTask>)
    ensures
        task == (if event is HeaderAddButtonPressed {
            Some(AppTask::SidebarAddMenuOpen)
        } else {
            None
        }),
{
    match event {
        QuickLaunchIntent::HeaderAddButtonPressed => Some(AppTask::SidebarAddMenuOpen),
        _ => None,
    }
}

/// Hand on what the sidebar asks for.
pub fn handle_sidebar_effect(effect: SidebarEffect, platform: Platform, shell_name: &str) -> (task:
    AppTask)
    ensures
        match effect {
            SidebarEffect::SyncTerminalGridSizes => task == AppTask::SyncTerminalGridSizes,
            SidebarEffect::OpenSettingsTab => task == AppTask::Tabs(TabsIntent::OpenSettingsTab),
            SidebarEffect::OpenTerminalTab => is_terminal_tab(task, platform, shell_name@),
            SidebarEffect::QuickLaunchHeaderCreateCommand => task == AppTask::QuickLaunch(
                QuickLaunchIntent::HeaderCreateCommand,
            ),
            SidebarEffect::QuickLaunchHeaderCreateFolder => task == AppTask::QuickLaunch(
                QuickLaunchIntent::HeaderCreateFolder,
            ),
            SidebarEffect::QuickLaunchResetInteractionState => task == AppTask::QuickLaunch(
                QuickLaunchIntent::ResetInteractionState,
            ),
        },
{
    match effect {
        SidebarEffect::SyncTerminalGridSizes => AppTask::SyncTerminalGridSizes,
        SidebarEffect::OpenSettingsTab => AppTask::Tabs(TabsIntent::OpenSettingsTab),
        SidebarEffect::OpenTerminalTab => open_terminal_tab_task(platform, shell_name),
        SidebarEffect::QuickLaunchHeaderCreateCommand => AppTask::QuickLaunch(
            QuickLaunchIntent::HeaderCreateCommand,
        ),
        SidebarEffect::QuickLaunchHeaderCreateFolder => AppTask::QuickLaunch(
            QuickLaunchIntent::HeaderCreateFolder,
        ),
        SidebarEffect::QuickLaunchResetInteractionState => AppTask::QuickLaunch(
            QuickLaunchIntent::ResetInteractionState,
        ),
    }
}

/// What happens to the application itself: a terminal opens at the start, and
/// a new window size reaches the grids of the terminals.
pub fn handle_signal(signal: AppSignal, platform: Platform, shell_name: &str) -> (task: Option<
    AppTask,
>)
    ensures
        match signal {
            AppSignal::Ready => task is Some && is_terminal_tab(task->0, platform, shell_name@),
            AppSignal::SyncTerminalGridSizes => task == Some(
                AppTask::TerminalWorkspace(TerminalWorkspaceIntent::SyncPaneGridSize),
            ),
            AppSignal::WindowResized => task == Some(
                AppTask::TerminalWorkspace(TerminalWorkspaceIntent::SyncPaneGridSize),
            ),
            AppSignal::Keyboard => task is None,
            AppSignal::WindowOther => task is None,
        },
{
    match signal {
        AppSignal::Ready => Some(open_terminal_tab_task(platform, shell_name)),
        AppSignal::SyncTerminalGridSizes => Some(
            AppTask::TerminalWorkspace(TerminalWorkspaceIntent::SyncPaneGridSize),
        ),
        AppSignal::WindowResized => Some(
            AppTask::TerminalWorkspace(TerminalWorkspaceIntent::SyncPaneGridSize),
        ),
        AppSignal::Keyboard => None,
        AppSignal::WindowOther => None,
    }
}

} // verus!
