//! What whoever holds the tree, the launches or a command gets for their calls.

use std::sync::atomic::AtomicBool;
use std::sync::Arc;

use vstd::prelude::*;

use crate::pty::ssh::SSHSessionBuilder;
use crate::quick_launch::edit_laws::saved_edit_is_stored;
use crate::quick_launch::errors::{QuickLaunchError, QuickLaunchWizardError};
use crate::quick_launch::event::{
    EffectModel, QuickLaunchCtx, QuickLaunchIntent, QuickLaunchTask, TaskModel,
};
use crate::quick_launch::frame_laws::lookup_goes_through_the_folder;
use crate::quick_launch::launches::{
    indicator_on, should_highlight_launch_indicator, LaunchInfo, LaunchMap,
};
use crate::quick_launch::reducer::reduce;
use crate::quick_launch::services::{
    build_command, command_of, program_places, validation_places, LaunchHost, ValidationPlaces,
};
use crate::quick_launch::setup::probe_builder;
use crate::quick_launch::state::QuickLaunchState;
use crate::quick_launch::transitions::reduced;
use crate::quick_launch::tree::{
    child_position_is_first, child_position_unique, folder_at, has_title, node_at, FolderModel,
    NodeModel, QuickLaunchFile, QuickLaunchFolder, QuickLaunchNode,
};
use crate::quick_launch::types::{LaunchModel, NodePath, QuickLaunch, SpecModel};
use crate::quick_launch::wizard::{ModeModel, WizardEditorState};
use crate::session_options::SSHSessionOptions;
use crate::text::{is_blank, text_opt, texts, trim_text};

verus! {

/// What an event does to the widget is what the laws on events say.
pub proof fn events_do_what_they_say(
    state: &mut QuickLaunchState,
    event: QuickLaunchIntent,
    ctx: QuickLaunchCtx,
    task: QuickLaunchTask,
)
    requires
        old(state).wf(),
        event is NodeReleased ==> old(state)@.next_launch_id < u64::MAX,
        call_ensures(reduce, (state, event, &ctx), task),
    ensures
        final(state).wf(),
        exists|token: Arc<AtomicBool>|
            (final(state)@, task@) == #[trigger] reduced(old(state)@, event, ctx, token),
{
    assert((final(state)@, task@) == reduced(old(state)@, event, ctx, task@.token()));
}

/// The command that is saved from the editor of an existing one is found in the
/// tree, with all that it runs.
pub proof fn saved_editor_is_in_the_tree(
    state: &mut QuickLaunchState,
    tab_id: u64,
    path: Seq<Seq<char>>,
    command: LaunchModel,
    ctx: QuickLaunchCtx,
    task: QuickLaunchTask,
)
    requires
        old(state).wf(),
        call_ensures(reduce, (state, QuickLaunchIntent::WizardSave { tab_id }, &ctx), task),
        old(state)@.wizard.contains_key(tab_id),
        old(state)@.wizard[tab_id].mode == ModeModel::Edit(path),
        command_of(old(state)@.wizard[tab_id]) matches Ok(saved) && saved == command,
        task@ == TaskModel::Effect(EffectModel::CloseTabRequested(tab_id)),
    ensures
        node_at(final(state)@.data, path.drop_last().push(command.title)) == Some(
            NodeModel::Command(command),
        ),
        final(state)@.dirty,
{
    saved_edit_is_stored(old(state)@, tab_id, path, command, ctx, task@.token());
}

/// A widget that opens on a tree shows that tree, and nothing has happened to it
/// yet.
pub proof fn widget_opens_on_its_tree(data: QuickLaunchFile, state: QuickLaunchState)
    requires
        call_ensures(QuickLaunchState::with_data, (data,), state),
    ensures
        state.wf(),
        state@.data == data@,
        !state@.dirty && !state@.persist_in_flight,
        state@.selected_path is None && state@.context_menu is None && state@.inline_edit is None
            && state@.drag is None,
        state@.wizard.dom() == Set::<u64>::empty(),
        state@.error_tabs.dom() == Set::<u64>::empty(),
        state@.canceled_launches.len() == 0,
        state@.next_launch_id == 1,
{
    assert(state@.wizard.dom() =~= Set::<u64>::empty());
    assert(state@.error_tabs.dom() =~= Set::<u64>::empty());
}

/// A launch that is registered is found under its path, and no other changes;
/// one that is taken out is handed out and gone.
pub proof fn launches_are_found_by_their_path(
    launches: &mut LaunchMap,
    path: NodePath,
    info: LaunchInfo,
    others: &mut LaunchMap,
    gone: &[String],
    taken: Option<LaunchInfo>,
    key: Seq<Seq<char>>,
)
    requires
        old(launches).wf(),
        old(others).wf(),
        call_ensures(LaunchMap::insert, (launches, path, info), ()),
        call_ensures(LaunchMap::remove, (others, gone), taken),
    ensures
        final(launches)@.contains_key(texts(path@)) && final(launches)@[texts(path@)] == info,
        key != texts(path@) ==> final(launches)@.contains_key(key) == old(launches)@.contains_key(
            key,
        ),
        key != texts(path@) && old(launches)@.contains_key(key) ==> final(launches)@[key] == old(
            launches,
        )@[key],
        !final(others)@.contains_key(texts(gone@)),
        taken is Some == old(others)@.contains_key(texts(gone@)),
        taken matches Some(found) ==> found == old(others)@[texts(gone@)],
        key != texts(gone@) ==> final(others)@.contains_key(key) == old(others)@.contains_key(key),
{
}

/// A launch begins with the next id, its flag and no age; one that is asked to
/// stop has its id noted, and its flag is the one that is handed out.
pub proof fn launches_begin_and_stop(
    state: &mut QuickLaunchState,
    path: NodePath,
    cancel: Arc<AtomicBool>,
    id: u64,
    other: &mut QuickLaunchState,
    stopped: &[String],
    token: Option<Arc<AtomicBool>>,
)
    requires
        old(state).wf(),
        old(state)@.next_launch_id < u64::MAX,
        old(other).wf(),
        call_ensures(QuickLaunchState::begin_launch, (state, path, cancel), id),
        call_ensures(QuickLaunchState::cancel_launch, (other, stopped), token),
    ensures
        id == old(state)@.next_launch_id,
        final(state)@.next_launch_id == id + 1,
        final(state)@.launching.contains_key(texts(path@)),
        final(state)@.launching[texts(path@)].id == id,
        final(state)@.launching[texts(path@)].cancel == cancel,
        final(state)@.launching[texts(path@)].launch_ticks == 0,
        final(state)@.data == old(state)@.data,
        old(other)@.launching.contains_key(texts(stopped@)) ==> token == Some(
            old(other)@.launching[texts(stopped@)].cancel,
        ) && final(other)@.canceled_launches == old(other)@.canceled_launches.push(
            old(other)@.launching[texts(stopped@)].id,
        ),
        !old(other)@.launching.contains_key(texts(stopped@)) ==> token is None && final(other)@
            == old(other)@,
        final(other)@.launching == old(other)@.launching,
{
}

/// The indicator of a launch is off for its first five ticks, and then on and off
/// in turns of half a second; a tick is a fifth of a second.
pub proof fn indicator_blinks(launch_ticks: u64, blink_nonce: u64, on: bool)
    requires
        call_ensures(should_highlight_launch_indicator, (launch_ticks, blink_nonce), on),
    ensures
        launch_ticks < 5 ==> !on,
        launch_ticks >= 5 ==> on == ((blink_nonce * 2 / 5) % 2 == 0),
        on == indicator_on(launch_ticks, blink_nonce),
{
    assert(blink_nonce * 200 / 500 == blink_nonce * 2 / 5);
}

/// A title that an entry can get is the typed one, trimmed; it is refused where
/// nothing is left of it, or where another entry has it.
pub proof fn titles_are_trimmed_and_unique(
    folder: QuickLaunchFolder,
    value: &str,
    current: Option<&str>,
    r: Result<String, QuickLaunchError>,
)
    requires
        call_ensures(QuickLaunchFolder::normalize_title, (&folder, value, current), r),
    ensures
        is_blank(value@) ==> r == Err::<String, _>(QuickLaunchError::TitleEmpty),
        !is_blank(value@) && !has_title(folder@.children, trim_text(value@)) ==> r is Ok
            && r->Ok_0@ == trim_text(value@),
        !is_blank(value@) && has_title(folder@.children, trim_text(value@)) && current is None
            ==> r == Err::<String, _>(QuickLaunchError::TitleDuplicate),
        !is_blank(value@) && (current matches Some(own) && own@ == trim_text(value@)) ==> r is Ok
            && r->Ok_0@ == trim_text(value@),
{
}

/// A child that is added comes last and is found by its title where that was
/// free; one that is taken out is the first of its title, and is handed out.
pub proof fn children_are_added_and_taken_out(
    folder: &mut QuickLaunchFolder,
    node: QuickLaunchNode,
    other: &mut QuickLaunchFolder,
    title: &str,
    removed: Option<QuickLaunchNode>,
)
    requires
        call_ensures(QuickLaunchFolder::push_child, (folder, node), ()),
        call_ensures(QuickLaunchFolder::remove_child, (other, title), removed),
    ensures
        final(folder)@.children == old(folder)@.children.push(node@),
        final(folder)@.title == old(folder)@.title,
        final(folder)@.expanded == old(folder)@.expanded,
        removed is Some == has_title(old(other)@.children, title@),
        removed matches Some(taken) ==> taken@.title() == title@ && final(other)@.children.len()
            == old(other)@.children.len() - 1,
        removed is None ==> final(other)@ == old(other)@,
        final(other)@.title == old(other)@.title,
{
    child_position_is_first(old(other)@.children, title@);
}

/// An entry is found in its folder by its title, and only there.
pub proof fn entries_are_found_by_their_titles(
    root: FolderModel,
    folder: Seq<Seq<char>>,
    i: int,
)
    requires
        folder_at(root, folder) is Some,
        0 <= i < folder_at(root, folder)->0.children.len(),
        forall|j: int|
            0 <= j < i ==> (#[trigger] folder_at(root, folder)->0.children[j]).title() != folder_at(
                root,
                folder,
            )->0.children[i].title(),
    ensures
        ({
            let node = folder_at(root, folder)->0.children[i];
            &&& node_at(root, folder.push(node.title())) == Some(node)
            &&& node matches NodeModel::Folder(inner) ==> folder_at(
                root,
                folder.push(node.title()),
            ) == Some(inner)
            &&& node is Command ==> folder_at(root, folder.push(node.title())) is None
        }),
{
    let children = folder_at(root, folder)->0.children;
    let node = children[i];
    child_position_unique(children, node.title(), i);
    assert(folder.push(node.title()).drop_last() =~= folder);
    let one = seq![node.title()];
    assert(folder + one =~= folder.push(node.title()));
    lookup_goes_through_the_folder(root, folder, one);
    assert(one.skip(1) =~= Seq::empty());
    reveal_with_fuel(folder_at, 2);
}

/// Before a launch the SSH session is tried out with the same host, user, key,
/// limit of time and flag that it will be opened with.
pub proof fn probe_is_the_session_itself(options: SSHSessionOptions, builder: SSHSessionBuilder)
    requires
        call_ensures(probe_builder, (&options,), builder),
    ensures
        builder@.host == options@.host,
        builder@.user == options@.user,
        builder@.auth == options@.auth,
        builder@.timeout == options@.timeout,
        builder@.cancel == options@.cancel_token,
{
}

/// What is looked at before a launch: for a custom command the places of its
/// program and its working directory, for an SSH command its identity file.
pub proof fn launch_looks_at_what_it_needs(
    command: QuickLaunch,
    host: LaunchHost,
    places: ValidationPlaces,
)
    requires
        call_ensures(validation_places, (&command, &host), places),
    ensures
        command@.spec matches SpecModel::Custom(custom) ==> texts(places.programs@)
            == program_places(host@, trim_text(custom.program)) && (custom.working_directory is None
            ==> places.extra is None) && (custom.working_directory matches Some(dir) ==> text_opt(
            places.extra,
        ) == Some(crate::paths::tilde_expanded(dir, host@.home))),
        command@.spec matches SpecModel::Ssh(ssh) ==> places.programs@.len() == 0 && (
        ssh.identity_file is None ==> places.extra is None) && (
        ssh.identity_file matches Some(file) ==> (is_blank(file) ==> places.extra is None) && (
        !is_blank(file) ==> text_opt(places.extra) == Some(
            crate::paths::tilde_expanded(trim_text(file), host@.home),
        ))),
{
    assert(texts(places.programs@).len() == places.programs@.len());
}

/// A command is built from the fields of its editor, or refused for what is wrong
/// with them.
pub proof fn built_command_is_that_of_the_fields(
    editor: WizardEditorState,
    r: Result<QuickLaunch, QuickLaunchWizardError>,
)
    requires
        call_ensures(build_command, (&editor,), r),
    ensures
        r is Ok == command_of(editor@) is Ok,
        r matches Ok(command) ==> command@ == command_of(editor@)->Ok_0,
        r matches Err(error) ==> error == command_of(editor@)->Err_0,
        is_blank(editor@.title) ==> r == Err::<QuickLaunch, _>(
            QuickLaunchWizardError::TitleRequired,
        ),
        r matches Ok(command) ==> command@.title == trim_text(editor@.title),
{
}

} // verus!
