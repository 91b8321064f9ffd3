//! What is set on a session, the settings or the tabs is what is found there.

use std::sync::atomic::AtomicBool;
use std::sync::Arc;

use serde_json::Value;
use vstd::prelude::*;

use crate::events::{
    handle_effect, handle_sidebar_effect, handle_signal, is_effect_task, open_terminal_tab_task,
    redirect_intent, AppSignal, AppTask, SidebarEffect, TabsIntent, WizardTabInit,
};
use crate::paths::Platform;
use crate::pty::local::LocalSessionBuilder;
use crate::pty::session::{PtySize, Span};
use crate::pty::ssh::SSHAuth;
use crate::quick_launch::event::{QuickLaunchEffect, QuickLaunchIntent};
use crate::session_options::{
    terminal_settings_for_session, LocalSessionOptions, SSHSessionOptions, SessionKind, Settings,
};
use crate::settings::{
    json_list_at, json_of, json_text_at, judge_settings, load_settings,
    save_settings, settings_of, ReadFailure, SettingsData, SettingsError, SettingsLoad,
    SettingsLoadStatus,
};
use crate::terminal_workspace::types::TerminalWorkspaceIntent;
use crate::text::texts;

verus! {

/// What is set on a local session is what it has, in whatever order.
pub proof fn local_options_are_found_again(
    options: LocalSessionOptions,
    program: &str,
    args: Vec<String>,
    key: &str,
    value: &str,
    dir: &str,
    a: LocalSessionOptions,
    b: LocalSessionOptions,
    c: LocalSessionOptions,
    d: LocalSessionOptions,
    got_program: &str,
    got_dir: Option<&str>,
)
    requires
        call_ensures(LocalSessionOptions::with_program, (options, program), a),
        call_ensures(LocalSessionOptions::with_args, (a, args), b),
        call_ensures(LocalSessionOptions::with_env, (b, key, value), c),
        call_ensures(LocalSessionOptions::with_working_directory, (c, dir), d),
        call_ensures(LocalSessionOptions::program, (&d,), got_program),
        call_ensures(LocalSessionOptions::working_directory, (&d,), got_dir),
    ensures
        got_program@ == program@,
        got_dir matches Some(got) && got@ == dir@,
        d@.args == texts(args@),
        d@.envs.len() == options@.envs.len() + 1,
        d@.envs.last() == (key@, value@),
        d@.envs.drop_last() == options@.envs,
{
    assert(d@.envs.drop_last() =~= options@.envs);
}

/// What is set on an SSH session is what it has.
pub proof fn ssh_options_are_found_again(
    options: SSHSessionOptions,
    host: &str,
    user: &str,
    auth: SSHAuth,
    timeout: Span,
    token: Arc<AtomicBool>,
    a: SSHSessionOptions,
    b: SSHSessionOptions,
    c: SSHSessionOptions,
    d: SSHSessionOptions,
    e: SSHSessionOptions,
    got_host: &str,
    got_user: &str,
    got_auth: SSHAuth,
    got_timeout: Option<Span>,
    got_token: Option<Arc<AtomicBool>>,
)
    requires
        call_ensures(SSHSessionOptions::with_host, (options, host), a),
        call_ensures(SSHSessionOptions::with_user, (a, user), b),
        call_ensures(SSHSessionOptions::with_auth, (b, auth), c),
        call_ensures(SSHSessionOptions::with_timeout, (c, timeout), d),
        call_ensures(SSHSessionOptions::with_cancel_token, (d, token), e),
        call_ensures(SSHSessionOptions::host, (&e,), got_host),
        call_ensures(SSHSessionOptions::user, (&e,), got_user),
        call_ensures(SSHSessionOptions::auth, (&e,), got_auth),
        call_ensures(SSHSessionOptions::timeout, (&e,), got_timeout),
        call_ensures(SSHSessionOptions::cancel_token, (&e,), got_token),
    ensures
        got_host@ == host@,
        got_user@ == user@,
        got_auth@ == auth@,
        got_timeout == Some(timeout),
        got_token == Some(token),
{
}

/// What is set on a local session before it is opened is what it is opened with:
/// arguments and variables in their order, the size, and the directory.
pub proof fn local_builder_keeps_its_options(
    builder: LocalSessionBuilder,
    arg: &str,
    key: &str,
    value: &str,
    gone: &str,
    size: PtySize,
    dir: &str,
    a: LocalSessionBuilder,
    b: LocalSessionBuilder,
    c: LocalSessionBuilder,
    d: LocalSessionBuilder,
    e: LocalSessionBuilder,
    f: LocalSessionBuilder,
)
    requires
        call_ensures(LocalSessionBuilder::with_arg, (builder, arg), a),
        call_ensures(LocalSessionBuilder::with_env, (a, key, value), b),
        call_ensures(LocalSessionBuilder::with_env_remove, (b, gone), c),
        call_ensures(LocalSessionBuilder::with_size, (c, size), d),
        call_ensures(LocalSessionBuilder::with_cwd, (d, dir), e),
        call_ensures(LocalSessionBuilder::set_controling_tty_enable, (e,), f),
    ensures
        f@.program == builder@.program,
        f@.args.len() == builder@.args.len() + 1 && f@.args.last() == arg@,
        builder@.args.is_prefix_of(f@.args),
        f@.envs.len() == builder@.envs.len() + 2,
        f@.envs[builder@.envs.len() as int] == (key@, Some(value@)),
        f@.envs[builder@.envs.len() as int + 1].0 == gone@,
        f@.envs[builder@.envs.len() as int + 1].1 is None,
        f@.size == size,
        f@.work_dir == Some(dir@),
        f@.controlling_tty,
{
}

/// A launched command gets the looks of the terminal and the session of its own.
pub proof fn launched_session_replaces_the_usual_one(
    settings: Settings,
    session: SessionKind,
    r: Settings,
)
    requires
        call_ensures(terminal_settings_for_session, (&settings, session), r),
    ensures
        r@.appearance == settings@.appearance,
        r@.session == session@,
{
}

/// A setting that is changed has the new value, and the others keep theirs.
pub proof fn changed_setting_is_found(
    data: &mut SettingsData,
    other: &mut SettingsData,
    shell: String,
    editor: String,
)
    requires
        call_ensures(SettingsData::set_terminal_shell, (data, shell), ()),
        call_ensures(SettingsData::set_terminal_editor, (other, editor), ()),
    ensures
        final(data)@.terminal_shell == shell@,
        final(data)@.terminal_editor == old(data)@.terminal_editor,
        final(data)@.theme_palette == old(data)@.theme_palette,
        final(other)@.terminal_editor == editor@,
        final(other)@.terminal_shell == old(other)@.terminal_shell,
        final(other)@.theme_palette == old(other)@.theme_palette,
{
}

/// A colour that is set stands at its place; all others stay, and a palette that
/// was too short is filled up with empty ones.
pub proof fn changed_colour_is_found(
    data: &mut SettingsData,
    index: usize,
    color: String,
    i: int,
)
    requires
        index < usize::MAX,
        call_ensures(SettingsData::set_theme_palette_entry, (data, index, color), ()),
        0 <= i < final(data)@.theme_palette.len(),
    ensures
        index < final(data)@.theme_palette.len(),
        final(data)@.theme_palette[index as int] == color@,
        i != index && i < old(data)@.theme_palette.len() ==> final(data)@.theme_palette[i] == old(
            data,
        )@.theme_palette[i],
        i != index && i >= old(data)@.theme_palette.len() ==> final(data)@.theme_palette[i].len()
            == 0,
        old(data)@.theme_palette.len() <= final(data)@.theme_palette.len(),
        final(data)@.terminal_shell == old(data)@.terminal_shell,
{
}

/// What the file says is what the settings are; what it does not say is as usual.
pub proof fn file_says_what_the_settings_are(value: Value)
    ensures
        ({
            let data = settings_of(value);
            &&& json_text_at(value, "terminal_shell"@) matches Some(shell) ==> data.terminal_shell
                == shell
            &&& json_text_at(value, "terminal_shell"@) is None ==> data.terminal_shell
                == "/bin/sh"@
            &&& json_text_at(value, "terminal_editor"@) matches Some(editor)
                ==> data.terminal_editor == editor
            &&& json_text_at(value, "terminal_editor"@) is None ==> data.terminal_editor == "vi"@
            &&& json_list_at(value, "theme_palette"@) matches Some(palette) ==> data.theme_palette
                == palette
            &&& json_list_at(value, "theme_palette"@) is None ==> data.theme_palette.len() == 0
        }),
{
}

/// Settings that are written and read again are the same, field by field, and
/// the reading says that it found them.
pub proof fn written_settings_are_read_back(
    settings: SettingsData,
    written: Result<String, SettingsError>,
    read: Result<SettingsLoad, SettingsError>,
)
    requires
        call_ensures(save_settings, (&settings,), written),
        written is Ok,
        call_ensures(
            load_settings,
            (Ok::<String, ReadFailure>(written->Ok_0),),
            read,
        ),
    ensures
        written is Ok,
        read matches Ok(load) && load.status is Loaded && load.data@.terminal_shell
            == settings@.terminal_shell && load.data@.terminal_editor == settings@.terminal_editor
            && load.data@.theme_palette == settings@.theme_palette,
{
}

/// A file that is not there gives the usual settings; one that is no JSON gives
/// them too, with the reason; one that cannot be read is an error.
pub proof fn bad_files_give_the_usual_settings(
    message: String,
    text: String,
    missing: Result<SettingsLoad, SettingsError>,
    unreadable: Result<SettingsLoad, SettingsError>,
    broken: Result<SettingsLoad, SettingsError>,
)
    requires
        call_ensures(
            load_settings,
            (Err::<String, ReadFailure>(ReadFailure::NotFound),),
            missing,
        ),
        call_ensures(
            load_settings,
            (Err::<String, ReadFailure>(ReadFailure::Other(message)),),
            unreadable,
        ),
        call_ensures(load_settings, (Ok::<String, ReadFailure>(text),), broken),
        json_of(text@) is Err,
    ensures
        missing matches Ok(load) && load.status is Missing && is_usual(load),
        unreadable == Err::<SettingsLoad, _>(SettingsError::Io(message)),
        broken matches Ok(load) && is_usual(load) && (
        load.status matches SettingsLoadStatus::Invalid(reason) && reason@
            == json_of(text@)->Err_0),
{
}

/// Whether settings are the usual ones.
pub open spec fn is_usual(load: SettingsLoad) -> bool {
    load.data@.terminal_shell == "/bin/sh"@ && load.data@.terminal_editor == "vi"@
        && load.data@.theme_palette.len() == 0
}

/// What comes of a parse decides what is loaded, whatever the parser said.
pub proof fn parse_decides_what_is_loaded(
    value: Value,
    problem: String,
    good: SettingsLoad,
    bad: SettingsLoad,
)
    requires
        call_ensures(judge_settings, (Ok::<Value, String>(value),), good),
        call_ensures(judge_settings, (Err::<Value, String>(problem),), bad),
    ensures
        good.status is Loaded && good.data@ == settings_of(value),
        bad.status matches SettingsLoadStatus::Invalid(reason) && reason@ == problem@,
        is_usual(bad),
{
}

/// A new terminal opens in a tab with the name of the shell; on Windows an editor
/// for an SSH command opens in its place.
pub proof fn new_terminal_opens_its_tab(platform: Platform, shell_name: &str, task: AppTask)
    requires
        call_ensures(open_terminal_tab_task, (platform, shell_name), task),
    ensures
        platform is Unix ==> (task matches AppTask::Tabs(TabsIntent::OpenTerminalTab { title })
            && title@ == shell_name@),
        platform is Windows ==> (task matches AppTask::Tabs(
            TabsIntent::OpenWizardTab { title, init },
        ) && title@ == "New SSH Connection"@ && (init matches WizardTabInit::Create {
            parent_path,
            command_type,
        } && parent_path@.len() == 0 && command_type is Ssh)),
{
}

/// What the quick launch widget asks for reaches the tab bar as it was asked for:
/// an editor with its folder or its command, a terminal with its settings, an
/// error with its words, and the tab to close.
pub proof fn widget_gets_the_tab_it_asks_for(effect: QuickLaunchEffect, task: AppTask)
    requires
        is_effect_task(task, effect),
    ensures
        match effect {
            QuickLaunchEffect::OpenWizardCreateTab { parent_path: asked } =>
                task matches AppTask::Tabs(TabsIntent::OpenWizardTab { title, init }) && title@
                    == "Create Quick Launch"@ && (init matches WizardTabInit::Create {
                    parent_path,
                    command_type,
                } && parent_path == asked && command_type is Custom),
            QuickLaunchEffect::OpenWizardEditTab { path: asked, command: edited } =>
                task matches AppTask::Tabs(TabsIntent::OpenWizardTab { title, init }) && title@
                    == "Edit: "@ + (*edited)@.title && (init matches WizardTabInit::Edit {
                    path,
                    command,
                } && path == asked && command == edited),
            QuickLaunchEffect::OpenCommandTerminalTab { title: asked, settings: wanted, .. } =>
                task matches AppTask::Tabs(TabsIntent::OpenCommandTab { title, settings }) && title
                    == asked && *settings == wanted,
            QuickLaunchEffect::OpenErrorTab { title: asked, message: words } =>
                task matches AppTask::Tabs(TabsIntent::OpenErrorTab { title, message }) && title
                    == asked && message == words,
            QuickLaunchEffect::CloseTabRequested { tab_id: asked } => task matches AppTask::Tabs(
                TabsIntent::CloseTab { tab_id },
            ) && tab_id == asked,
        },
{
}

/// Each wish of the widget gives one task, which is for it.
pub proof fn every_wish_gives_one_task(effect: QuickLaunchEffect, tasks: Vec<AppTask>)
    requires
        call_ensures(handle_effect, (effect,), tasks),
    ensures
        tasks@.len() == 1,
        tasks@[0] matches AppTask::Tabs(_),
        is_effect_task(tasks@[0], effect),
{
}

/// The add button opens the menu of the sidebar; every other event is for the
/// widget itself.
pub proof fn add_button_opens_the_menu(event: QuickLaunchIntent, task: Option<AppTask>)
    requires
        call_ensures(redirect_intent, (&event,), task),
    ensures
        event is HeaderAddButtonPressed ==> task == Some(AppTask::SidebarAddMenuOpen),
        !(event is HeaderAddButtonPressed) ==> task is None,
{
}

/// What the sidebar asks for goes to the part that it is for.
pub proof fn sidebar_reaches_its_part(
    effect: SidebarEffect,
    platform: Platform,
    shell_name: &str,
    task: AppTask,
)
    requires
        call_ensures(handle_sidebar_effect, (effect, platform, shell_name), task),
    ensures
        effect is OpenSettingsTab ==> task == AppTask::Tabs(TabsIntent::OpenSettingsTab),
        effect is SyncTerminalGridSizes ==> task == AppTask::SyncTerminalGridSizes,
        effect is QuickLaunchHeaderCreateCommand ==> task == AppTask::QuickLaunch(
            QuickLaunchIntent::HeaderCreateCommand,
        ),
        effect is QuickLaunchHeaderCreateFolder ==> task == AppTask::QuickLaunch(
            QuickLaunchIntent::HeaderCreateFolder,
        ),
        effect is QuickLaunchResetInteractionState ==> task == AppTask::QuickLaunch(
            QuickLaunchIntent::ResetInteractionState,
        ),
        effect is OpenTerminalTab && platform is Unix ==> (task matches AppTask::Tabs(
            TabsIntent::OpenTerminalTab { title },
        ) && title@ == shell_name@),
{
}

/// A terminal opens when the application is ready; a new size of the window
/// reaches the grids; keys and other news of the window are for nobody here.
pub proof fn signals_reach_their_part(
    signal: AppSignal,
    platform: Platform,
    shell_name: &str,
    task: Option<AppTask>,
)
    requires
        call_ensures(handle_signal, (signal, platform, shell_name), task),
    ensures
        signal is Ready && platform is Unix ==> (task matches Some(
            AppTask::Tabs(TabsIntent::OpenTerminalTab { title }),
        ) && title@ == shell_name@),
        signal is SyncTerminalGridSizes || signal is WindowResized ==> task == Some(
            AppTask::TerminalWorkspace(TerminalWorkspaceIntent::SyncPaneGridSize),
        ),
        signal is Keyboard || signal is WindowOther ==> task is None,
{
}

} // verus!
