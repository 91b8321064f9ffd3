//! What comes of launches, of the fields of an editor and of the tabs that the
//! widget opens.

use std::sync::atomic::AtomicBool;
use std::sync::Arc;

use vstd::prelude::*;

use crate::quick_launch::errors::{
    error_text, wizard_error_text, QuickLaunchError, QuickLaunchWizardError,
};
use crate::quick_launch::event::{EffectModel, QuickLaunchCtx, QuickLaunchIntent, TaskModel};
use crate::quick_launch::launches::LaunchInfo;
use crate::quick_launch::services::command_of;
use crate::quick_launch::setup::{PreparedQuickLaunch, QuickLaunchSetupOutcome};
use crate::quick_launch::state::{without_first, StateModel};
use crate::quick_launch::transitions::reduced;
use crate::quick_launch::types::{
    CustomDraft, NodePath, QuickLaunch, QuickLaunchType, SpecModel, SshDraft,
};
use crate::quick_launch::wizard::{DraftModel, EditorModel, ModeModel};
use crate::text::{decimal_text, texts};

verus! {

/// Whether the report on a launch is about one that still matters: it was not
/// canceled, and no other launch has taken its place.
pub open spec fn still_matters(state: StateModel, path: Seq<Seq<char>>, launch_id: u64) -> bool {
    &&& !state.canceled_launches.contains(launch_id)
    &&& state.launching.contains_key(path) ==> state.launching[path].id == launch_id
}

/// A launch that is ready opens a terminal with its title, its settings and its
/// command, and is no longer under way; one that no longer matters opens nothing.
pub proof fn ready_launch_opens_its_terminal(
    state: StateModel,
    launch: Box<PreparedQuickLaunch>,
    ctx: QuickLaunchCtx,
    token: Arc<AtomicBool>,
)
    ensures
        ({
            let (after, task) = reduced(
                state,
                QuickLaunchIntent::SetupCompleted(QuickLaunchSetupOutcome::Prepared(launch)),
                ctx,
                token,
            );
            let path = texts(launch.path@);
            &&& still_matters(state, path, launch.launch_id) ==> task == TaskModel::Effect(
                EffectModel::OpenCommandTerminalTab(
                    launch.title@,
                    launch.settings@,
                    (*launch.command)@,
                ),
            )
            &&& still_matters(state, path, launch.launch_id) ==> !after.launching.contains_key(path)
            &&& !still_matters(state, path, launch.launch_id) ==> task is Idle
            &&& after.data == state.data
        }),
{
}

/// A launch that failed opens a tab with the command's title and the reason, and
/// is no longer under way; one that no longer matters opens nothing.
pub proof fn failed_launch_says_why(
    state: StateModel,
    path: NodePath,
    launch_id: u64,
    command: Box<QuickLaunch>,
    error: QuickLaunchError,
    ctx: QuickLaunchCtx,
    token: Arc<AtomicBool>,
)
    ensures
        ({
            let (after, task) = reduced(
                state,
                QuickLaunchIntent::SetupCompleted(
                    QuickLaunchSetupOutcome::Failed { path, launch_id, command, error },
                ),
                ctx,
                token,
            );
            let at = texts(path@);
            let matters = still_matters(state, at, launch_id);
            &&& !matters ==> task is Idle
            &&& matters ==> !after.launching.contains_key(at)
            &&& matters ==> (task matches TaskModel::Effect(
                EffectModel::OpenErrorTab(title, message),
            ) && title == "Failed to launch \""@ + (*command)@.title + "\""@ && match error {
                QuickLaunchError::Validation { message: reason } => message == reason@,
                QuickLaunchError::TitleEmpty => message == "Title cannot be empty."@,
                QuickLaunchError::TitleDuplicate => message
                    == "Title already exists in this folder."@,
            })
        }),
{
}

/// The report that a launch was canceled opens nothing and ends the launch.
pub proof fn canceled_launch_is_over(
    state: StateModel,
    path: NodePath,
    launch_id: u64,
    key: Seq<Seq<char>>,
    ctx: QuickLaunchCtx,
    token: Arc<AtomicBool>,
)
    requires
        state.canceled_launches.contains(launch_id),
        state.launching.contains_key(key),
    ensures
        ({
            let (after, task) = reduced(
                state,
                QuickLaunchIntent::SetupCompleted(
                    QuickLaunchSetupOutcome::Canceled { path, launch_id },
                ),
                ctx,
                token,
            );
            &&& task is Idle
            &&& after.launching.contains_key(key) == (state.launching[key].id != launch_id)
            &&& state.launching[key].id != launch_id ==> after.launching[key]
                == state.launching[key]
            &&& after.canceled_launches.len() == state.canceled_launches.len() - 1
        }),
{
    lemma_one_less(state.canceled_launches, launch_id);
}

proof fn lemma_one_less(list: Seq<u64>, value: u64)
    requires
        list.contains(value),
    ensures
        without_first(list, value).len() == list.len() - 1,
    decreases list.len(),
{
    if list[0] != value {
        let i = choose|i: int| 0 <= i < list.len() && list[i] == value;
        assert(list.skip(1)[i - 1] == value);
        lemma_one_less(list.skip(1), value);
    }
}

/// The end of one launch leaves the others under way.
pub proof fn other_launches_go_on(
    state: StateModel,
    outcome: QuickLaunchSetupOutcome,
    key: Seq<Seq<char>>,
    ctx: QuickLaunchCtx,
    token: Arc<AtomicBool>,
)
    requires
        state.launching.contains_key(key),
        state.launching[key].id != match outcome {
            QuickLaunchSetupOutcome::Prepared(launch) => launch.launch_id,
            QuickLaunchSetupOutcome::Failed { launch_id, .. } => launch_id,
            QuickLaunchSetupOutcome::Canceled { launch_id, .. } => launch_id,
        },
    ensures
        ({
            let after = reduced(
                state,
                QuickLaunchIntent::SetupCompleted(outcome),
                ctx,
                token,
            ).0;
            after.launching.contains_key(key) && after.launching[key] == state.launching[key]
        }),
{
}

/// With every tick a launch under way is a tick older, and keeps its id and its
/// flag. Its indicator is off in the first second, and then on and off in turns
/// of half a second.
pub proof fn launches_grow_older(
    state: StateModel,
    path: Seq<Seq<char>>,
    ctx: QuickLaunchCtx,
    token: Arc<AtomicBool>,
)
    requires
        state.launching.contains_key(path),
        state.launching[path].launch_ticks < u64::MAX,
        state.blink_nonce < u64::MAX,
    ensures
        ({
            let after = reduced(state, QuickLaunchIntent::Tick, ctx, token).0;
            let info = after.launching[path];
            &&& after.launching.dom() == state.launching.dom()
            &&& info.id == state.launching[path].id
            &&& info.cancel == state.launching[path].cancel
            &&& info.launch_ticks == state.launching[path].launch_ticks + 1
            &&& after.blink_nonce == state.blink_nonce + 1
            &&& info.is_indicator_highlighted == (info.launch_ticks >= 5 && (after.blink_nonce * 200
                / 500) % 2 == 0)
            &&& after.data == state.data
        }),
{
    let after = reduced(state, QuickLaunchIntent::Tick, ctx, token).0;
    assert(state.launching != Map::<Seq<Seq<char>>, LaunchInfo>::empty()) by {
        assert(!Map::<Seq<Seq<char>>, LaunchInfo>::empty().contains_key(path));
    }
    assert(after.launching.dom() =~= state.launching.dom());
}

/// Without a launch under way a tick changes nothing but that a changed tree is
/// handed out.
pub proof fn idle_tick_changes_nothing(
    state: StateModel,
    ctx: QuickLaunchCtx,
    token: Arc<AtomicBool>,
)
    requires
        state.launching == Map::<Seq<Seq<char>>, LaunchInfo>::empty(),
    ensures
        ({
            let (after, task) = reduced(state, QuickLaunchIntent::Tick, ctx, token);
            if state.dirty && !state.persist_in_flight {
                &&& task == TaskModel::Persist(state.data)
                &&& after == (StateModel { persist_in_flight: true, ..state })
            } else {
                task is Idle && after == state
            }
        }),
{
}

/// An error tab shows what it was opened with, and closing a tab takes away its
/// error and its editor; those of other tabs stay.
pub proof fn tabs_keep_what_they_were_opened_with(
    state: StateModel,
    tab_id: u64,
    title: String,
    message: String,
    other: u64,
    ctx: QuickLaunchCtx,
    token: Arc<AtomicBool>,
)
    requires
        other != tab_id,
    ensures
        ({
            let (shown, first) = reduced(
                state,
                QuickLaunchIntent::OpenErrorTab { tab_id, title, message },
                ctx,
                token,
            );
            let (closed, second) = reduced(
                shown,
                QuickLaunchIntent::TabClosed { tab_id },
                ctx,
                token,
            );
            &&& first is Idle && second is Idle
            &&& shown.error_tabs.contains_key(tab_id) && shown.error_tabs[tab_id].title == title@
                && shown.error_tabs[tab_id].message == message@
            &&& shown.error_tabs.remove(tab_id) == state.error_tabs.remove(tab_id)
            &&& shown.wizard == state.wizard
            &&& closed.error_tabs == state.error_tabs.remove(tab_id)
            &&& closed.wizard == state.wizard.remove(tab_id)
            &&& closed.data == state.data
        }),
{
    let shown = reduced(
        state,
        QuickLaunchIntent::OpenErrorTab { tab_id, title, message },
        ctx,
        token,
    ).0;
    let closed = reduced(shown, QuickLaunchIntent::TabClosed { tab_id }, ctx, token).0;
    assert(shown.error_tabs.remove(tab_id) =~= state.error_tabs.remove(tab_id));
    assert(closed.error_tabs =~= state.error_tabs.remove(tab_id));
}

/// An editor for a new command is empty but for the usual port; one for an
/// existing command shows all of it.
pub proof fn editor_opens_on_its_command(
    state: StateModel,
    tab_id: u64,
    path: NodePath,
    command: Box<QuickLaunch>,
    command_type: QuickLaunchType,
    ctx: QuickLaunchCtx,
    token: Arc<AtomicBool>,
)
    ensures
        ({
            let fresh = reduced(
                state,
                QuickLaunchIntent::WizardInitializeCreate {
                    tab_id,
                    parent_path: path,
                    command_type,
                },
                ctx,
                token,
            ).0;
            let shown = reduced(
                state,
                QuickLaunchIntent::WizardInitializeEdit { tab_id, path, command },
                ctx,
                token,
            ).0;
            &&& fresh.wizard.contains_key(tab_id) && shown.wizard.contains_key(tab_id)
            &&& fresh.wizard.remove(tab_id) == state.wizard.remove(tab_id)
            &&& shown.wizard.remove(tab_id) == state.wizard.remove(tab_id)
            &&& fresh.wizard[tab_id].mode == ModeModel::Create(texts(path@))
            &&& fresh.wizard[tab_id].title.len() == 0
            &&& fresh.wizard[tab_id].error is None
            &&& command_type is Custom ==> (
            fresh.wizard[tab_id].options matches DraftModel::Custom(draft) && draft.program.len()
                == 0 && draft.working_directory.len() == 0 && draft.args.len() == 0
                && draft.env.len() == 0)
            &&& command_type is Ssh ==> (fresh.wizard[tab_id].options matches DraftModel::Ssh(draft)
                && draft.host.len() == 0 && draft.user.len() == 0 && draft.identity_file.len() == 0
                && draft.extra_args.len() == 0 && draft.port == decimal_text(22))
            &&& shown.wizard[tab_id].mode == ModeModel::Edit(texts(path@))
            &&& shown.wizard[tab_id].title == (*command)@.title
            &&& shown.wizard[tab_id].error is None
            &&& match (*command)@.spec {
                SpecModel::Custom(custom) => shown.wizard[tab_id].options matches DraftModel::Custom(
                    draft,
                ) && draft.program == custom.program && draft.args == custom.args && (
                custom.working_directory matches Some(dir) ==> draft.working_directory == dir) && (
                custom.working_directory is None ==> draft.working_directory.len() == 0)
                    && draft.env.len() == custom.env.len() && forall|i: int|
                    0 <= i < custom.env.len() ==> #[trigger] draft.env[i] == (
                        custom.env[i].key,
                        custom.env[i].value,
                    ),
                SpecModel::Ssh(ssh) => shown.wizard[tab_id].options matches DraftModel::Ssh(draft)
                    && draft.host == ssh.host && draft.port == decimal_text(ssh.port as nat) && (
                ssh.user matches Some(user) ==> draft.user == user) && (ssh.user is None
                    ==> draft.user.len() == 0) && (ssh.identity_file matches Some(file)
                    ==> draft.identity_file == file) && (ssh.identity_file is None
                    ==> draft.identity_file.len() == 0) && draft.extra_args == ssh.extra_args,
            }
        }),
{
    let fresh = reduced(
        state,
        QuickLaunchIntent::WizardInitializeCreate { tab_id, parent_path: path, command_type },
        ctx,
        token,
    ).0;
    let shown = reduced(
        state,
        QuickLaunchIntent::WizardInitializeEdit { tab_id, path, command },
        ctx,
        token,
    ).0;
    assert(fresh.wizard.remove(tab_id) =~= state.wizard.remove(tab_id));
    assert(shown.wizard.remove(tab_id) =~= state.wizard.remove(tab_id));
}

/// The editor of a tab after an event.
pub open spec fn editor_after(
    state: StateModel,
    event: QuickLaunchIntent,
    tab_id: u64,
    ctx: QuickLaunchCtx,
    token: Arc<AtomicBool>,
) -> EditorModel {
    reduced(state, event, ctx, token).0.wizard[tab_id]
}

/// Whether an editor is another one but for its draft, and shows no error.
pub open spec fn only_draft_changed(before: EditorModel, after: EditorModel) -> bool {
    after.mode == before.mode && after.title == before.title && after.error is None
}

/// Each field of the editor of a custom command takes what is typed into it, and
/// the others stay.
pub proof fn custom_fields_take_what_is_typed(
    state: StateModel,
    tab_id: u64,
    draft: CustomDraft,
    value: String,
    ctx: QuickLaunchCtx,
    token: Arc<AtomicBool>,
)
    requires
        state.wizard.contains_key(tab_id),
        state.wizard[tab_id].options == DraftModel::Custom(draft),
    ensures
        ({
            let before = state.wizard[tab_id];
            let title = editor_after(
                state,
                QuickLaunchIntent::WizardUpdateTitle { tab_id, value },
                tab_id,
                ctx,
                token,
            );
            let program = editor_after(
                state,
                QuickLaunchIntent::WizardUpdateProgram { tab_id, value },
                tab_id,
                ctx,
                token,
            );
            let dir = editor_after(
                state,
                QuickLaunchIntent::WizardUpdateWorkingDirectory { tab_id, value },
                tab_id,
                ctx,
                token,
            );
            &&& title.title == value@ && title.options == before.options && title.mode
                == before.mode && title.error is None
            &&& only_draft_changed(before, program) && program.options == DraftModel::Custom(
                CustomDraft { program: value@, ..draft },
            )
            &&& only_draft_changed(before, dir) && dir.options == DraftModel::Custom(
                CustomDraft { working_directory: value@, ..draft },
            )
        }),
{
}

/// Each field of the editor of an SSH command takes what is typed into it, and
/// the others stay.
pub proof fn ssh_fields_take_what_is_typed(
    state: StateModel,
    tab_id: u64,
    draft: SshDraft,
    value: String,
    ctx: QuickLaunchCtx,
    token: Arc<AtomicBool>,
)
    requires
        state.wizard.contains_key(tab_id),
        state.wizard[tab_id].options == DraftModel::Ssh(draft),
    ensures
        ({
            let before = state.wizard[tab_id];
            let host = editor_after(
                state,
                QuickLaunchIntent::WizardUpdateHost { tab_id, value },
                tab_id,
                ctx,
                token,
            );
            let user = editor_after(
                state,
                QuickLaunchIntent::WizardUpdateUser { tab_id, value },
                tab_id,
                ctx,
                token,
            );
            let port = editor_after(
                state,
                QuickLaunchIntent::WizardUpdatePort { tab_id, value },
                tab_id,
                ctx,
                token,
            );
            let file = editor_after(
                state,
                QuickLaunchIntent::WizardUpdateIdentityFile { tab_id, value },
                tab_id,
                ctx,
                token,
            );
            &&& only_draft_changed(before, host) && host.options == DraftModel::Ssh(
                SshDraft { host: value@, ..draft },
            )
            &&& only_draft_changed(before, user) && user.options == DraftModel::Ssh(
                SshDraft { user: value@, ..draft },
            )
            &&& only_draft_changed(before, port) && port.options == DraftModel::Ssh(
                SshDraft { port: value@, ..draft },
            )
            &&& only_draft_changed(before, file) && file.options == DraftModel::Ssh(
                SshDraft { identity_file: value@, ..draft },
            )
        }),
{
}

/// The lists of an editor grow at the end by an empty item, lose the item that is
/// taken out, and have the item replaced that is typed into; the other items
/// stay.
pub proof fn argument_lists_are_edited(
    state: StateModel,
    tab_id: u64,
    draft: CustomDraft,
    index: usize,
    value: String,
    ctx: QuickLaunchCtx,
    token: Arc<AtomicBool>,
)
    requires
        state.wizard.contains_key(tab_id),
        state.wizard[tab_id].options == DraftModel::Custom(draft),
    ensures
        ({
            let before = state.wizard[tab_id];
            let added = editor_after(
                state,
                QuickLaunchIntent::WizardAddArg { tab_id },
                tab_id,
                ctx,
                token,
            );
            let removed = editor_after(
                state,
                QuickLaunchIntent::WizardRemoveArg { tab_id, index },
                tab_id,
                ctx,
                token,
            );
            let typed = editor_after(
                state,
                QuickLaunchIntent::WizardUpdateArg { tab_id, index, value },
                tab_id,
                ctx,
                token,
            );
            let there = index < draft.args.len();
            &&& only_draft_changed(before, added) && only_draft_changed(before, removed)
                && only_draft_changed(before, typed)
            &&& added.options == DraftModel::Custom(
                CustomDraft { args: draft.args.push(Seq::empty()), ..draft },
            )
            &&& there ==> removed.options == DraftModel::Custom(
                CustomDraft { args: draft.args.remove(index as int), ..draft },
            ) && typed.options == DraftModel::Custom(
                CustomDraft { args: draft.args.update(index as int, value@), ..draft },
            )
            &&& !there ==> removed.options == before.options && typed.options == before.options
        }),
{
}

/// The variables of an editor are edited in the same way, name and value each on
/// their own.
pub proof fn variables_are_edited(
    state: StateModel,
    tab_id: u64,
    draft: CustomDraft,
    index: usize,
    value: String,
    ctx: QuickLaunchCtx,
    token: Arc<AtomicBool>,
)
    requires
        state.wizard.contains_key(tab_id),
        state.wizard[tab_id].options == DraftModel::Custom(draft),
    ensures
        ({
            let before = state.wizard[tab_id];
            let added = editor_after(
                state,
                QuickLaunchIntent::WizardAddEnv { tab_id },
                tab_id,
                ctx,
                token,
            );
            let removed = editor_after(
                state,
                QuickLaunchIntent::WizardRemoveEnv { tab_id, index },
                tab_id,
                ctx,
                token,
            );
            let named = editor_after(
                state,
                QuickLaunchIntent::WizardUpdateEnvKey { tab_id, index, value },
                tab_id,
                ctx,
                token,
            );
            let typed = editor_after(
                state,
                QuickLaunchIntent::WizardUpdateEnvValue { tab_id, index, value },
                tab_id,
                ctx,
                token,
            );
            let there = index < draft.env.len();
            let i = index as int;
            &&& only_draft_changed(before, added) && only_draft_changed(before, removed)
                && only_draft_changed(before, named) && only_draft_changed(before, typed)
            &&& added.options == DraftModel::Custom(
                CustomDraft { env: draft.env.push((Seq::empty(), Seq::empty())), ..draft },
            )
            &&& there ==> removed.options == DraftModel::Custom(
                CustomDraft { env: draft.env.remove(i), ..draft },
            ) && named.options == DraftModel::Custom(
                CustomDraft { env: draft.env.update(i, (value@, draft.env[i].1)), ..draft },
            ) && typed.options == DraftModel::Custom(
                CustomDraft { env: draft.env.update(i, (draft.env[i].0, value@)), ..draft },
            )
            &&& !there ==> removed.options == before.options && named.options == before.options
                && typed.options == before.options
        }),
{
}

/// The further arguments of an SSH command are edited in the same way.
pub proof fn further_arguments_are_edited(
    state: StateModel,
    tab_id: u64,
    draft: SshDraft,
    index: usize,
    value: String,
    ctx: QuickLaunchCtx,
    token: Arc<AtomicBool>,
)
    requires
        state.wizard.contains_key(tab_id),
        state.wizard[tab_id].options == DraftModel::Ssh(draft),
    ensures
        ({
            let before = state.wizard[tab_id];
            let added = editor_after(
                state,
                QuickLaunchIntent::WizardAddExtraArg { tab_id },
                tab_id,
                ctx,
                token,
            );
            let removed = editor_after(
                state,
                QuickLaunchIntent::WizardRemoveExtraArg { tab_id, index },
                tab_id,
                ctx,
                token,
            );
            let typed = editor_after(
                state,
                QuickLaunchIntent::WizardUpdateExtraArg { tab_id, index, value },
                tab_id,
                ctx,
                token,
            );
            let there = index < draft.extra_args.len();
            let i = index as int;
            &&& only_draft_changed(before, added) && only_draft_changed(before, removed)
                && only_draft_changed(before, typed)
            &&& added.options == DraftModel::Ssh(
                SshDraft { extra_args: draft.extra_args.push(Seq::empty()), ..draft },
            )
            &&& there ==> removed.options == DraftModel::Ssh(
                SshDraft { extra_args: draft.extra_args.remove(i), ..draft },
            ) && typed.options == DraftModel::Ssh(
                SshDraft { extra_args: draft.extra_args.update(i, value@), ..draft },
            )
            &&& !there ==> removed.options == before.options && typed.options == before.options
        }),
{
}

/// A field that the kind of command does not have takes nothing: the draft of the
/// editor stays as it is.
pub proof fn fields_of_the_other_kind_are_passed_over(
    state: StateModel,
    tab_id: u64,
    value: String,
    ctx: QuickLaunchCtx,
    token: Arc<AtomicBool>,
)
    requires
        state.wizard.contains_key(tab_id),
    ensures
        ({
            let before = state.wizard[tab_id].options;
            let program = editor_after(
                state,
                QuickLaunchIntent::WizardUpdateProgram { tab_id, value },
                tab_id,
                ctx,
                token,
            ).options;
            let dir = editor_after(
                state,
                QuickLaunchIntent::WizardUpdateWorkingDirectory { tab_id, value },
                tab_id,
                ctx,
                token,
            ).options;
            let arg = editor_after(
                state,
                QuickLaunchIntent::WizardAddArg { tab_id },
                tab_id,
                ctx,
                token,
            ).options;
            let host = editor_after(
                state,
                QuickLaunchIntent::WizardUpdateHost { tab_id, value },
                tab_id,
                ctx,
                token,
            ).options;
            let user = editor_after(
                state,
                QuickLaunchIntent::WizardUpdateUser { tab_id, value },
                tab_id,
                ctx,
                token,
            ).options;
            let port = editor_after(
                state,
                QuickLaunchIntent::WizardUpdatePort { tab_id, value },
                tab_id,
                ctx,
                token,
            ).options;
            let further = editor_after(
                state,
                QuickLaunchIntent::WizardAddExtraArg { tab_id },
                tab_id,
                ctx,
                token,
            ).options;
            &&& before is Ssh ==> program == before && dir == before && arg == before
            &&& before is Custom ==> host == before && user == before && port == before && further
                == before
        }),
{
}

/// A new command can be made one of the other kind, and then starts empty; an
/// existing one keeps its kind.
pub proof fn kind_of_a_new_command_can_change(
    state: StateModel,
    tab_id: u64,
    command_type: QuickLaunchType,
    ctx: QuickLaunchCtx,
    token: Arc<AtomicBool>,
)
    requires
        state.wizard.contains_key(tab_id),
    ensures
        ({
            let before = state.wizard[tab_id];
            let after = editor_after(
                state,
                QuickLaunchIntent::WizardSelectCommandType { tab_id, command_type },
                tab_id,
                ctx,
                token,
            );
            let same = (command_type is Custom) == (before.options is Custom);
            &&& before.mode is Edit || same ==> after == before
            &&& before.mode is Create && !same ==> {
                &&& after.mode == before.mode && after.title == before.title
                &&& command_type is Custom ==> (after.options matches DraftModel::Custom(draft)
                    && draft.program.len() == 0 && draft.args.len() == 0)
                &&& command_type is Ssh ==> (after.options matches DraftModel::Ssh(draft)
                    && draft.host.len() == 0 && draft.port == decimal_text(22))
            }
        }),
{
}

/// What an editor is told is wrong stands in it; its fields stay as they are. A
/// draft that cannot be saved says so itself.
pub proof fn editor_shows_its_error(
    state: StateModel,
    tab_id: u64,
    message: String,
    ctx: QuickLaunchCtx,
    token: Arc<AtomicBool>,
)
    requires
        state.wizard.contains_key(tab_id),
    ensures
        ({
            let before = state.wizard[tab_id];
            let told = editor_after(
                state,
                QuickLaunchIntent::WizardSetError { tab_id, message },
                tab_id,
                ctx,
                token,
            );
            let (saved, task) = reduced(
                state,
                QuickLaunchIntent::WizardSave { tab_id },
                ctx,
                token,
            );
            &&& told == (EditorModel { error: Some(message@), ..before })
            &&& command_of(before) matches Err(problem) ==> task is Idle && saved.data == state.data
                && saved.wizard[tab_id] == (EditorModel {
                error: Some(wizard_error_text(problem)),
                ..before
            })
        }),
{
}

/// The words for what is wrong with a draft.
pub proof fn editor_errors_in_words()
    ensures
        wizard_error_text(QuickLaunchWizardError::TitleRequired)
            == "Title is required."@,
        wizard_error_text(QuickLaunchWizardError::ProgramRequired)
            == "Program is required."@,
        wizard_error_text(QuickLaunchWizardError::HostRequired)
            == "Host is required."@,
        wizard_error_text(QuickLaunchWizardError::InvalidPort)
            == "Port is invalid."@,
        error_text(QuickLaunchError::TitleEmpty) == "Title cannot be empty."@,
        error_text(QuickLaunchError::TitleDuplicate) == "Title already exists in this folder."@,
{
}

/// An event for the editor of one tab leaves the editors of all others alone, and
/// the tree too.
pub proof fn other_editors_stay(
    state: StateModel,
    event: QuickLaunchIntent,
    tab_id: u64,
    other: u64,
    ctx: QuickLaunchCtx,
    token: Arc<AtomicBool>,
)
    requires
        other != tab_id,
        match event {
            QuickLaunchIntent::WizardUpdateTitle { tab_id: t, .. } => t == tab_id,
            QuickLaunchIntent::WizardUpdateProgram { tab_id: t, .. } => t == tab_id,
            QuickLaunchIntent::WizardUpdateHost { tab_id: t, .. } => t == tab_id,
            QuickLaunchIntent::WizardUpdateUser { tab_id: t, .. } => t == tab_id,
            QuickLaunchIntent::WizardUpdatePort { tab_id: t, .. } => t == tab_id,
            QuickLaunchIntent::WizardUpdateIdentityFile { tab_id: t, .. } => t == tab_id,
            QuickLaunchIntent::WizardUpdateWorkingDirectory { tab_id: t, .. } => t == tab_id,
            QuickLaunchIntent::WizardAddArg { tab_id: t } => t == tab_id,
            QuickLaunchIntent::WizardRemoveArg { tab_id: t, .. } => t == tab_id,
            QuickLaunchIntent::WizardUpdateArg { tab_id: t, .. } => t == tab_id,
            QuickLaunchIntent::WizardAddEnv { tab_id: t } => t == tab_id,
            QuickLaunchIntent::WizardRemoveEnv { tab_id: t, .. } => t == tab_id,
            QuickLaunchIntent::WizardUpdateEnvKey { tab_id: t, .. } => t == tab_id,
            QuickLaunchIntent::WizardUpdateEnvValue { tab_id: t, .. } => t == tab_id,
            QuickLaunchIntent::WizardAddExtraArg { tab_id: t } => t == tab_id,
            QuickLaunchIntent::WizardRemoveExtraArg { tab_id: t, .. } => t == tab_id,
            QuickLaunchIntent::WizardUpdateExtraArg { tab_id: t, .. } => t == tab_id,
            QuickLaunchIntent::WizardSelectCommandType { tab_id: t, .. } => t == tab_id,
            QuickLaunchIntent::WizardSetError { tab_id: t, .. } => t == tab_id,
            QuickLaunchIntent::WizardSave { tab_id: t } => t == tab_id,
            QuickLaunchIntent::WizardCancel { tab_id: t } => t == tab_id,
            _ => false,
        },
    ensures
        ({
            let after = reduced(state, event, ctx, token).0;
            &&& after.wizard.contains_key(other) == state.wizard.contains_key(other)
            &&& state.wizard.contains_key(other) ==> after.wizard[other] == state.wizard[other]
            &&& after.wizard.contains_key(tab_id) == state.wizard.contains_key(tab_id)
            &&& !(event is WizardSave) ==> after.data == state.data && after.dirty == state.dirty
        }),
{
}

/// Leaving an editor asks for its tab to be closed and changes nothing.
pub proof fn canceled_editor_closes_its_tab(
    state: StateModel,
    tab_id: u64,
    ctx: QuickLaunchCtx,
    token: Arc<AtomicBool>,
)
    ensures
        reduced(state, QuickLaunchIntent::WizardCancel { tab_id }, ctx, token) == (
            state,
            TaskModel::Effect(EffectModel::CloseTabRequested(tab_id)),
        ),
{
}

/// What is typed into the field of an entry stands in it, and clears its error;
/// leaving the field changes nothing of the tree.
pub proof fn field_takes_what_is_typed(
    state: StateModel,
    value: String,
    ctx: QuickLaunchCtx,
    token: Arc<AtomicBool>,
)
    ensures
        ({
            let typed = reduced(
                state,
                QuickLaunchIntent::InlineEditChanged(value),
                ctx,
                token,
            ).0;
            let left = reduced(state, QuickLaunchIntent::CancelInlineEdit, ctx, token).0;
            &&& state.inline_edit is None ==> typed.inline_edit is None
            &&& state.inline_edit matches Some(field) ==> (typed.inline_edit matches Some(after)
                && after.value == value@ && after.error is None && after.kind == field.kind
                && after.id == field.id)
            &&& left == (StateModel { inline_edit: None, ..state })
            &&& typed.data == state.data
        }),
{
}

/// A press on the background puts away the menu, the field and the selection; a
/// reset puts away hovering, pressing and dragging; dismissing a menu only the
/// menu.
pub proof fn interaction_is_put_away(
    state: StateModel,
    ctx: QuickLaunchCtx,
    token: Arc<AtomicBool>,
)
    ensures
        reduced(state, QuickLaunchIntent::BackgroundPressed, ctx, token) == (
            StateModel { context_menu: None, inline_edit: None, selected_path: None, ..state },
            TaskModel::Idle,
        ),
        reduced(state, QuickLaunchIntent::ResetInteractionState, ctx, token) == (
            StateModel {
                hovered_path: None,
                pressed_path: None,
                drag: None,
                drop_target: None,
                ..state
            },
            TaskModel::Idle,
        ),
        reduced(state, QuickLaunchIntent::ContextMenuDismiss, ctx, token) == (
            StateModel { context_menu: None, ..state },
            TaskModel::Idle,
        ),
{
}

} // verus!
