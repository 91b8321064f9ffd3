//! What is read from a value is what it holds.

use iced_widget::pane_grid::Pane;
use vstd::prelude::*;

use crate::geometry::{Point, Size};
use crate::quick_launch::launches::{LaunchInfo, LaunchMap};
use crate::quick_launch::state::{
    ContextMenuState, ContextMenuTarget, DragState, DropTarget, InlineEditState,
    QuickLaunchErrorState, QuickLaunchState,
};
use crate::quick_launch::tree::{
    folder_at, node_at, QuickLaunchFile, QuickLaunchFolder, QuickLaunchNode,
};
use crate::quick_launch::types::{
    env_models, CommandLaunchOptions, CommandSpec, CustomCommand, EnvVar, NodePath,
    QuickLaunch, SshCommand, SshLaunchOptions,
};
use crate::quick_launch::wizard::{DraftModel, WizardEditorState, WizardMode, WizardState};
use crate::session_options::Settings;
use crate::settings::SettingsData;
use crate::terminal_workspace::state::{PaneContextMenuState, TerminalTabState};
use crate::terminal_workspace::types::{BlockSelection, TerminalEvent};
use crate::text::{text_pairs, texts};

verus! {

/// A saved custom command is read as it was saved.
pub proof fn custom_command_is_read(
    custom: CustomCommand,
    program: &str,
    args: &Vec<String>,
    env: &Vec<EnvVar>,
    dir: Option<&str>,
    var: EnvVar,
    key: &str,
    value: &str,
)
    requires
        call_ensures(CustomCommand::program, (&custom,), program),
        call_ensures(CustomCommand::args, (&custom,), args),
        call_ensures(CustomCommand::env, (&custom,), env),
        call_ensures(CustomCommand::working_directory, (&custom,), dir),
        call_ensures(EnvVar::key, (&var,), key),
        call_ensures(EnvVar::value, (&var,), value),
    ensures
        program@ == custom.program@,
        texts(args@) == texts(custom.args@),
        env_models(env@) == env_models(custom.env@),
        dir is Some == custom.working_directory is Some,
        dir matches Some(d) ==> d@ == custom.working_directory->0@,
        key@ == var.key@,
        value@ == var.value@,
{
}

/// A saved SSH command is read as it was saved.
pub proof fn ssh_command_is_read(
    ssh: SshCommand,
    host: &str,
    port: u16,
    user: Option<&str>,
    identity: Option<&str>,
    args: &Vec<String>,
)
    requires
        call_ensures(SshCommand::host, (&ssh,), host),
        call_ensures(SshCommand::port, (&ssh,), port),
        call_ensures(SshCommand::user, (&ssh,), user),
        call_ensures(SshCommand::identity_file, (&ssh,), identity),
        call_ensures(SshCommand::extra_args, (&ssh,), args),
    ensures
        host@ == ssh.host@,
        port == ssh.port,
        user is Some == ssh.user is Some,
        user matches Some(u) ==> u@ == ssh.user->0@,
        identity is Some == ssh.identity_file is Some,
        identity matches Some(i) ==> i@ == ssh.identity_file->0@,
        texts(args@) == texts(ssh.extra_args@),
{
}

/// A saved command is read with its title and what it runs.
pub proof fn command_is_read(command: QuickLaunch, title: &str, spec: &CommandSpec)
    requires
        call_ensures(QuickLaunch::title, (&command,), title),
        call_ensures(QuickLaunch::spec, (&command,), spec),
    ensures
        title@ == command.title@,
        spec@ == command.spec@,
{
}

/// The fields of a draft are read as they were typed.
pub proof fn drafts_are_read(
    custom: CommandLaunchOptions,
    program: &str,
    dir: &str,
    args: &Vec<String>,
    env: &Vec<(String, String)>,
    ssh: SshLaunchOptions,
    host: &str,
    port: &str,
    user: &str,
    identity: &str,
    extra: &Vec<String>,
)
    requires
        call_ensures(CommandLaunchOptions::program, (&custom,), program),
        call_ensures(CommandLaunchOptions::working_directory, (&custom,), dir),
        call_ensures(CommandLaunchOptions::args, (&custom,), args),
        call_ensures(CommandLaunchOptions::env, (&custom,), env),
        call_ensures(SshLaunchOptions::host, (&ssh,), host),
        call_ensures(SshLaunchOptions::port, (&ssh,), port),
        call_ensures(SshLaunchOptions::user, (&ssh,), user),
        call_ensures(SshLaunchOptions::identity_file, (&ssh,), identity),
        call_ensures(SshLaunchOptions::extra_args, (&ssh,), extra),
    ensures
        program@ == custom@.program,
        dir@ == custom@.working_directory,
        texts(args@) == custom@.args,
        text_pairs(env@) == custom@.env,
        host@ == ssh@.host,
        port@ == ssh@.port,
        user@ == ssh@.user,
        identity@ == ssh@.identity_file,
        texts(extra@) == ssh@.extra_args,
{
}

/// An editor is read with its mode, its title, its error and its draft.
pub proof fn editor_is_read(
    editor: WizardEditorState,
    mode: &WizardMode,
    title: &str,
    error: Option<&str>,
    creates: bool,
    custom: Option<&CommandLaunchOptions>,
    ssh: Option<&SshLaunchOptions>,
    editors: WizardState,
    tab_id: u64,
    found: Option<&WizardEditorState>,
)
    requires
        call_ensures(WizardEditorState::mode, (&editor,), mode),
        call_ensures(WizardEditorState::title, (&editor,), title),
        call_ensures(WizardEditorState::error, (&editor,), error),
        call_ensures(WizardEditorState::is_create_mode, (&editor,), creates),
        call_ensures(WizardEditorState::custom, (&editor,), custom),
        call_ensures(WizardEditorState::ssh, (&editor,), ssh),
        call_ensures(WizardState::editor, (&editors, tab_id), found),
    ensures
        mode@ == editor@.mode,
        title@ == editor@.title,
        error is Some == editor@.error is Some,
        error matches Some(e) ==> e@ == editor@.error->0,
        creates == editor@.mode is Create,
        custom is Some == editor@.options is Custom,
        custom matches Some(draft) ==> editor@.options == DraftModel::Custom(draft@),
        ssh is Some == editor@.options is Ssh,
        ssh matches Some(draft) ==> editor@.options == DraftModel::Ssh(draft@),
        found is Some == editors@.contains_key(tab_id),
        found matches Some(e) ==> e@ == editors@[tab_id],
{
}

/// The widget is read with its tree and with what it is busy with.
pub proof fn widget_is_read(
    state: QuickLaunchState,
    data: &QuickLaunchFile,
    dirty: bool,
    storing: bool,
    selected: Option<&NodePath>,
    hovered: Option<&NodePath>,
    pressed: Option<&NodePath>,
    cursor: Point,
    nonce: u64,
    editors: &WizardState,
)
    requires
        call_ensures(QuickLaunchState::data, (&state,), data),
        call_ensures(QuickLaunchState::is_dirty, (&state,), dirty),
        call_ensures(QuickLaunchState::is_persist_in_flight, (&state,), storing),
        call_ensures(QuickLaunchState::selected_path, (&state,), selected),
        call_ensures(QuickLaunchState::hovered_path, (&state,), hovered),
        call_ensures(QuickLaunchState::pressed_path, (&state,), pressed),
        call_ensures(QuickLaunchState::cursor, (&state,), cursor),
        call_ensures(QuickLaunchState::blink_nonce, (&state,), nonce),
        call_ensures(QuickLaunchState::wizard, (&state,), editors),
    ensures
        data@ == state@.data,
        dirty == state@.dirty,
        storing == state@.persist_in_flight,
        selected is Some == state@.selected_path is Some,
        selected matches Some(path) ==> state@.selected_path == Some(texts(path@)),
        hovered is Some == state@.hovered_path is Some,
        hovered matches Some(path) ==> state@.hovered_path == Some(texts(path@)),
        pressed is Some == state@.pressed_path is Some,
        pressed matches Some(path) ==> state@.pressed_path == Some(texts(path@)),
        cursor == state@.cursor,
        nonce == state@.blink_nonce,
        editors@ == state@.wizard,
{
}

/// The widget is read with its menu, its field, its drag and its errors.
pub proof fn interaction_is_read(
    state: QuickLaunchState,
    menu: Option<&ContextMenuState>,
    field: Option<&InlineEditState>,
    drag: Option<&DragState>,
    aim: Option<&DropTarget>,
    tab_id: u64,
    error: Option<&QuickLaunchErrorState>,
)
    requires
        call_ensures(QuickLaunchState::context_menu, (&state,), menu),
        call_ensures(QuickLaunchState::inline_edit, (&state,), field),
        call_ensures(QuickLaunchState::drag, (&state,), drag),
        call_ensures(QuickLaunchState::drop_target, (&state,), aim),
        call_ensures(QuickLaunchState::error_tab, (&state, tab_id), error),
    ensures
        menu is Some == state@.context_menu is Some,
        menu matches Some(m) ==> m@ == state@.context_menu->0,
        field is Some == state@.inline_edit is Some,
        field matches Some(f) ==> f@ == state@.inline_edit->0,
        drag is Some == state@.drag is Some,
        drag matches Some(d) ==> d@ == state@.drag->0,
        aim is Some == state@.drop_target is Some,
        aim matches Some(a) ==> a@ == state@.drop_target->0,
        error is Some == state@.error_tabs.contains_key(tab_id),
        error matches Some(e) ==> e@ == state@.error_tabs[tab_id],
{
}

/// The launches are read by their paths.
pub proof fn launches_are_read(
    state: QuickLaunchState,
    path: NodePath,
    place: &[String],
    launching: bool,
    info: Option<&LaunchInfo>,
    busy: bool,
    launches: &LaunchMap,
)
    requires
        state.wf(),
        call_ensures(QuickLaunchState::is_launching, (&state, &path), launching),
        place@ == path@,
        call_ensures(QuickLaunchState::launch_info, (&state, place), info),
        call_ensures(QuickLaunchState::has_active_launches, (&state,), busy),
        call_ensures(QuickLaunchState::launching, (&state,), launches),
    ensures
        launching == state@.launching.contains_key(texts(path@)),
        info is Some == launching,
        info matches Some(i) ==> *i == state@.launching[texts(path@)],
        launching ==> busy,
        launches@ == state@.launching,
{
    if launching {
        assert(!Map::<Seq<Seq<char>>, LaunchInfo>::empty().contains_key(texts(path@)));
    }
}

/// A menu of the tree is read with what it is on and where; an error tab with its
/// title and its message.
pub proof fn menus_and_errors_are_read(
    menu: ContextMenuState,
    target: ContextMenuTarget,
    cursor: Point,
    error: QuickLaunchErrorState,
    title: &str,
    message: &str,
)
    requires
        call_ensures(ContextMenuState::target, (&menu,), target),
        call_ensures(ContextMenuState::cursor, (&menu,), cursor),
        call_ensures(QuickLaunchErrorState::title, (&error,), title),
        call_ensures(QuickLaunchErrorState::message, (&error,), message),
    ensures
        target@ == menu@.target,
        cursor == menu@.cursor,
        title@ == error@.title,
        message@ == error@.message,
{
}

/// An error tab that is made has the title and the message that it was made with.
pub proof fn error_tab_is_made(title: String, message: String, error: QuickLaunchErrorState)
    requires
        call_ensures(QuickLaunchErrorState::new, (title, message), error),
    ensures
        error@.title == title@,
        error@.message == message@,
{
}

/// Entries of the tree are read by their paths.
pub proof fn entries_are_read(
    file: QuickLaunchFile,
    path: &[String],
    node: Option<&QuickLaunchNode>,
    folder: Option<&QuickLaunchFolder>,
)
    requires
        call_ensures(QuickLaunchFile::node, (&file, path), node),
        call_ensures(QuickLaunchFile::folder, (&file, path), folder),
    ensures
        node is Some == node_at(file@, texts(path@)) is Some,
        node matches Some(n) ==> n@ == node_at(file@, texts(path@))->0,
        folder is Some == folder_at(file@, texts(path@)) is Some,
        folder matches Some(f) ==> f@ == folder_at(file@, texts(path@))->0,
{
}

/// A menu of a terminal is read as it was made.
pub proof fn terminal_menu_is_read(
    pane: Pane,
    cursor: Point,
    bounds: Size,
    terminal_id: u64,
    focus_target: u64,
    menu: PaneContextMenuState,
    got_pane: Pane,
    got_cursor: Point,
    got_bounds: Size,
    got_terminal: u64,
    got_target: u64,
)
    requires
        call_ensures(
            PaneContextMenuState::new,
            (pane, cursor, bounds, terminal_id, focus_target),
            menu,
        ),
        call_ensures(PaneContextMenuState::pane, (&menu,), got_pane),
        call_ensures(PaneContextMenuState::cursor, (&menu,), got_cursor),
        call_ensures(PaneContextMenuState::grid_size, (&menu,), got_bounds),
        call_ensures(PaneContextMenuState::terminal_id, (&menu,), got_terminal),
        call_ensures(PaneContextMenuState::focus_target, (&menu,), got_target),
    ensures
        got_pane == pane,
        got_cursor == cursor,
        got_bounds == bounds,
        got_terminal == terminal_id,
        got_target == focus_target,
{
}

/// A selection of a block is read as it was made.
pub proof fn selection_is_read(
    terminal_id: u64,
    block_id: String,
    selection: BlockSelection,
    got_terminal: u64,
    got_block: &str,
)
    requires
        call_ensures(BlockSelection::new, (terminal_id, block_id), selection),
        call_ensures(BlockSelection::terminal_id, (&selection,), got_terminal),
        call_ensures(BlockSelection::block_id, (&selection,), got_block),
    ensures
        got_terminal == terminal_id,
        got_block@ == block_id@,
{
}

/// A tab is read with its number, its title, its settings and its state.
pub proof fn tab_is_read(
    tab: TerminalTabState,
    tab_id: u64,
    title: &str,
    settings: &Settings,
    focus: Option<Pane>,
    menu: Option<&PaneContextMenuState>,
    selection: Option<&BlockSelection>,
    cursor: Option<Point>,
    size: Size,
)
    requires
        call_ensures(TerminalTabState::tab_id, (&tab,), tab_id),
        call_ensures(TerminalTabState::title, (&tab,), title),
        call_ensures(TerminalTabState::terminal_settings, (&tab,), settings),
        call_ensures(TerminalTabState::focus, (&tab,), focus),
        call_ensures(TerminalTabState::context_menu, (&tab,), menu),
        call_ensures(TerminalTabState::selected_block, (&tab,), selection),
        call_ensures(TerminalTabState::grid_cursor, (&tab,), cursor),
        call_ensures(TerminalTabState::grid_size, (&tab,), size),
    ensures
        tab_id == tab@.tab_id,
        title@ == tab@.title,
        settings@ == tab@.settings,
        focus == tab@.focus,
        menu is Some == tab@.context_menu is Some,
        menu matches Some(m) ==> m@ == tab@.context_menu->0,
        selection is Some == tab@.selected_block is Some,
        selection matches Some(s) ==> s@ == tab@.selected_block->0,
        cursor == tab@.grid_cursor,
        size == tab@.grid_size,
{
}

/// What happens in a terminal names that terminal.
pub proof fn events_name_their_terminal(event: TerminalEvent, named: u64)
    requires
        call_ensures(TerminalEvent::terminal_id, (&event,), named),
    ensures
        match event {
            TerminalEvent::Shutdown { id } => named == id,
            TerminalEvent::TitleChanged { id, .. } => named == id,
            TerminalEvent::ResetTitle { id } => named == id,
            TerminalEvent::BlockSelected { id, .. } => named == id,
            TerminalEvent::BlockSelectionCleared { id } => named == id,
            TerminalEvent::Other { id } => named == id,
        },
{
}

/// The settings are read with their shell, their editor and their palette.
pub proof fn settings_are_read(
    settings: SettingsData,
    shell: &str,
    editor: &str,
    palette: &Vec<String>,
)
    requires
        call_ensures(SettingsData::terminal_shell, (&settings,), shell),
        call_ensures(SettingsData::terminal_editor, (&settings,), editor),
        call_ensures(SettingsData::theme_palette, (&settings,), palette),
    ensures
        shell@ == settings@.terminal_shell,
        editor@ == settings@.terminal_editor,
        texts(palette@) == settings@.theme_palette,
{
}

} // verus!
