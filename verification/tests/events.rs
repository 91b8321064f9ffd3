use otty::events::{
    handle_effect, handle_sidebar_effect, handle_signal, open_terminal_tab_task, redirect_intent,
    AppSignal, AppTask, SidebarEffect, TabsIntent, WizardTabInit,
};
use otty::paths::Platform;
use otty::quick_launch::event::{QuickLaunchEffect, QuickLaunchIntent};
use otty::quick_launch::types::{CommandSpec, CustomCommand, QuickLaunch, QuickLaunchType};
use otty::session_options::Settings;
use otty::terminal_workspace::types::TerminalWorkspaceIntent;

fn command(title: &str) -> Box<QuickLaunch> {
    Box::new(QuickLaunch {
        title: String::from(title),
        spec: CommandSpec::Custom {
            custom: CustomCommand {
                program: String::from("sh"),
                args: Vec::new(),
                env: Vec::new(),
                working_directory: None,
            },
        },
    })
}

#[test]
fn given_wizard_create_request_when_opened_then_task_is_emitted() {
    let tasks = handle_effect(QuickLaunchEffect::OpenWizardCreateTab {
        parent_path: vec![String::from("Demo")],
    });
    assert_eq!(tasks.len(), 1);
    assert!(matches!(
        &tasks[0],
        AppTask::Tabs(TabsIntent::OpenWizardTab {
            title,
            init: WizardTabInit::Create { parent_path, command_type: QuickLaunchType::Custom },
        }) if title == "Create Quick Launch" && parent_path == &[String::from("Demo")]
    ));
}

#[test]
fn given_error_tab_request_when_opened_then_task_is_emitted() {
    let tasks = handle_effect(QuickLaunchEffect::OpenErrorTab {
        title: String::from("Failed"),
        message: String::from("boom"),
    });
    assert_eq!(tasks.len(), 1);
    assert!(matches!(
        &tasks[0],
        AppTask::Tabs(TabsIntent::OpenErrorTab { title, message })
            if title == "Failed" && message == "boom"
    ));
}

#[test]
fn given_windows_when_open_terminal_tab_then_ssh_wizard_opens() {
    let task = handle_sidebar_effect(SidebarEffect::OpenTerminalTab, Platform::Windows, "cmd");
    assert!(matches!(
        task,
        AppTask::Tabs(TabsIntent::OpenWizardTab {
            title,
            init: WizardTabInit::Create { parent_path, command_type: QuickLaunchType::Ssh },
        }) if title == "New SSH Connection" && parent_path.is_empty()
    ));
}

#[test]
fn the_other_effects_reach_the_tab_bar() {
    let tasks = handle_effect(QuickLaunchEffect::OpenWizardEditTab {
        path: vec![String::from("A")],
        command: command("A"),
    });
    assert!(matches!(
        &tasks[0],
        AppTask::Tabs(TabsIntent::OpenWizardTab { title, init: WizardTabInit::Edit { .. } })
            if title == "Edit: A"
    ));
    let tasks = handle_effect(QuickLaunchEffect::OpenCommandTerminalTab {
        title: String::from("run"),
        settings: Settings { appearance: 9, ..Settings::default() },
        command: command("A"),
    });
    assert!(matches!(
        &tasks[0],
        AppTask::Tabs(TabsIntent::OpenCommandTab { title, settings })
            if title == "run" && settings.appearance == 9
    ));
    let tasks = handle_effect(QuickLaunchEffect::CloseTabRequested { tab_id: 3 });
    assert!(matches!(&tasks[0], AppTask::Tabs(TabsIntent::CloseTab { tab_id: 3 })));
}

#[test]
fn signals_and_the_sidebar_are_routed() {
    assert!(matches!(
        open_terminal_tab_task(Platform::Unix, "zsh"),
        AppTask::Tabs(TabsIntent::OpenTerminalTab { title }) if title == "zsh"
    ));
    assert!(matches!(
        handle_signal(AppSignal::Ready, Platform::Unix, "zsh"),
        Some(AppTask::Tabs(TabsIntent::OpenTerminalTab { .. }))
    ));
    for signal in [AppSignal::SyncTerminalGridSizes, AppSignal::WindowResized] {
        assert!(matches!(
            handle_signal(signal, Platform::Unix, "zsh"),
            Some(AppTask::TerminalWorkspace(TerminalWorkspaceIntent::SyncPaneGridSize))
        ));
    }
    for signal in [AppSignal::Keyboard, AppSignal::WindowOther] {
        assert!(handle_signal(signal, Platform::Unix, "zsh").is_none());
    }
    assert!(matches!(
        handle_sidebar_effect(SidebarEffect::OpenSettingsTab, Platform::Unix, "zsh"),
        AppTask::Tabs(TabsIntent::OpenSettingsTab)
    ));
    assert!(matches!(
        handle_sidebar_effect(SidebarEffect::SyncTerminalGridSizes, Platform::Unix, "zsh"),
        AppTask::SyncTerminalGridSizes
    ));
    assert!(matches!(
        handle_sidebar_effect(SidebarEffect::QuickLaunchHeaderCreateFolder, Platform::Unix, "z"),
        AppTask::QuickLaunch(QuickLaunchIntent::HeaderCreateFolder)
    ));
    assert!(matches!(
        handle_sidebar_effect(SidebarEffect::QuickLaunchHeaderCreateCommand, Platform::Unix, "z"),
        AppTask::QuickLaunch(QuickLaunchIntent::HeaderCreateCommand)
    ));
    assert!(matches!(
        handle_sidebar_effect(SidebarEffect::QuickLaunchResetInteractionState, Platform::Unix, "z"),
        AppTask::QuickLaunch(QuickLaunchIntent::ResetInteractionState)
    ));
    assert!(redirect_intent(&QuickLaunchIntent::Tick).is_none());
    assert!(matches!(
        redirect_intent(&QuickLaunchIntent::HeaderAddButtonPressed),
        Some(AppTask::SidebarAddMenuOpen)
    ));
}
