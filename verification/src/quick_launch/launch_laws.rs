//! What a saved command is launched as, and what has to be right with it.

use std::sync::atomic::AtomicBool;
use std::sync::Arc;

use vstd::prelude::*;

use crate::paths::{path_join, Platform};
use crate::pty::ssh::AuthModel;
use crate::quick_launch::errors::{QuickLaunchError, QuickLaunchWizardError};
use crate::quick_launch::services::{
    candidates_in, command_of, command_problem, ends_with_ignoring_case, extensions_of, facts_at,
    first_program, found_program, has_known_extension, is_program, last_part, lower_char,
    lower_text, named_env, nonempty_parts, program_places, search_candidates, validate_command,
    FileMode, HostModel, LaunchHost, PathFacts, ValidationFacts,
};
use crate::quick_launch::setup::{
    command_session, custom_session, default_identity_paths, is_first_file, ssh_options_of, ssh_session, QuickLaunchSetupOutcome, SetupEvent, SetupNext,
    SetupRun, SetupStage, SshDefaults, SshDefaultsModel,
};
use crate::quick_launch::types::{
    CustomCommand, CustomModel, EnvModel, LaunchModel, QuickLaunch, SpecModel, SshCommand, SshModel,
};
use crate::quick_launch::wizard::{DraftModel, EditorModel};
use crate::session_options::{
    LocalSessionOptions, SSHSessionOptions, SessionKind, SessionModel,
};
use crate::text::{decimal_text, is_blank, texts, trim_text, u16_of_text};

verus! {

/// A command's own user wins over the environment: it is asked only where the
/// command has none, `USER` before `USERNAME`; without either the name is empty.
pub proof fn own_user_wins(ssh: SshModel, cancel: Arc<AtomicBool>, defaults: SshDefaultsModel)
    ensures
        ({
            let user = ssh_options_of(ssh, cancel, defaults).user;
            let own = ssh.user is Some && !is_blank(ssh.user->0);
            &&& own ==> user == ssh.user->0
            &&& !own ==> (defaults.user matches Some(name) ==> user == name)
            &&& !own && defaults.user is None ==> (defaults.username matches Some(name) ==> user
                == name)
            &&& !own && defaults.user is None && defaults.username is None ==> user.len() == 0
        }),
{
}

/// A command's own identity file wins over the default one; a command without
/// either logs in with an empty password. No passphrase is ever made up.
pub proof fn own_identity_wins(ssh: SshModel, cancel: Arc<AtomicBool>, defaults: SshDefaultsModel)
    ensures
        ({
            let auth = ssh_options_of(ssh, cancel, defaults).auth;
            let own = ssh.identity_file is Some && !is_blank(ssh.identity_file->0);
            &&& own ==> auth == AuthModel::KeyFile(ssh.identity_file->0, None)
            &&& !own ==> (defaults.identity_file matches Some(path) ==> auth
                == AuthModel::KeyFile(path, None))
            &&& !own && defaults.identity_file is None ==> (auth matches AuthModel::Password(word)
                && word.len() == 0)
        }),
{
}

/// An SSH session goes to the host and the port of the command, gives up after
/// a quarter of a minute, and can be canceled by the flag of its launch.
pub proof fn ssh_session_goes_to_the_host(
    ssh: SshModel,
    cancel: Arc<AtomicBool>,
    defaults: SshDefaultsModel,
)
    ensures
        ({
            let options = ssh_options_of(ssh, cancel, defaults);
            let n = ssh.host.len() as int;
            &&& options.host.take(n) == ssh.host
            &&& options.host[n] == ':'
            &&& options.host.skip(n + 1) == decimal_text(ssh.port as nat)
            &&& options.timeout matches Some(time) && time.nanos == 15_000_000_000
            &&& options.cancel_token == Some(cancel)
        }),
{
    reveal_strlit(":");
    let options = ssh_options_of(ssh, cancel, defaults);
    let n = ssh.host.len() as int;
    assert(options.host.take(n) =~= ssh.host);
    assert(options.host.skip(n + 1) =~= decimal_text(ssh.port as nat));
}

/// The session of a saved SSH command logs in as the user, with the key and at
/// the place that were saved with it.
pub proof fn saved_ssh_command_is_what_is_opened(
    ssh: SshCommand,
    cancel: Arc<AtomicBool>,
    defaults: SshDefaults,
    options: SSHSessionOptions,
)
    requires
        call_ensures(ssh_session, (&ssh, &cancel, &defaults), options),
    ensures
        ssh@.user is Some && !is_blank(ssh@.user->0) ==> options@.user == ssh@.user->0,
        ssh@.identity_file is Some && !is_blank(ssh@.identity_file->0) ==> options@.auth
            == AuthModel::KeyFile(ssh@.identity_file->0, None),
        options@.host == ssh@.host + seq![':'] + decimal_text(ssh@.port as nat),
        options@.cancel_token == Some(cancel),
{
    reveal_strlit(":");
    assert(":"@ =~= seq![':']);
}

/// A custom command runs its program with its arguments, its variables in their
/// order and its working directory, and nothing of the environment comes in.
pub proof fn custom_command_is_what_is_run(custom: CustomCommand, options: LocalSessionOptions)
    requires
        call_ensures(custom_session, (&custom,), options),
    ensures
        options@.program == custom@.program,
        options@.args == custom@.args,
        options@.working_directory == custom@.working_directory,
        options@.envs.len() == custom@.env.len(),
        forall|i: int|
            0 <= i < custom@.env.len() ==> (#[trigger] options@.envs[i]).0 == custom@.env[i].key
                && options@.envs[i].1 == custom@.env[i].value,
{
}

/// A custom command opens a local session, an SSH command an SSH one.
pub proof fn kind_of_command_decides_the_session(
    command: QuickLaunch,
    cancel: Arc<AtomicBool>,
    defaults: SshDefaults,
    session: SessionKind,
)
    requires
        call_ensures(command_session, (&command, &cancel, &defaults), session),
    ensures
        command@.spec matches SpecModel::Custom(custom) ==> (session@ matches SessionModel::Local(
            options,
        ) && options.program == custom.program && options.args == custom.args),
        command@.spec matches SpecModel::Ssh(ssh) ==> (session@ matches SessionModel::Ssh(options)
            && options == ssh_options_of(ssh, cancel, defaults@)),
{
}

/// The first of the usual identity files that is there is taken: that of RSA
/// before ECDSA, that before Ed25519, and DSA last.
pub proof fn usual_identity_files(platform: Platform, ssh_dir: Seq<char>)
    ensures
        ({
            let paths = default_identity_paths(platform, ssh_dir);
            &&& paths.len() == 4
            &&& paths[0] == path_join(platform, ssh_dir, "id_rsa"@)
            &&& paths[1] == path_join(platform, ssh_dir, "id_ecdsa"@)
            &&& paths[2] == path_join(platform, ssh_dir, "id_ed25519"@)
            &&& paths[3] == path_join(platform, ssh_dir, "id_dsa"@)
        }),
{
}

/// Where several identity files are there, the one that is taken comes before
/// all others.
pub proof fn first_identity_file_is_taken(is_file: Seq<bool>, taken: int, other: int)
    requires
        is_first_file(is_file, taken),
        0 <= other < is_file.len(),
        is_file[other],
    ensures
        is_file[taken],
        taken <= other,
{
}

/// How a preparation goes on: a launch that was canceled ends canceled at any
/// question; else the command is validated, an SSH command is tried out, and the
/// launch is handed over after one last question.
pub proof fn preparation_takes_its_steps(run: SetupRun, event: SetupEvent, next: SetupNext)
    requires
        call_ensures(SetupRun::step, (run, event), next),
    ensures
        (event == SetupEvent::Asked(true) && (run.stage is AskFirst || run.stage is AskAgain
            || run.stage is AskLast)) ==> (next matches SetupNext::Finished(
            QuickLaunchSetupOutcome::Canceled { path, launch_id },
        ) && path == run.path && launch_id == run.launch_id),
        (event == SetupEvent::Asked(false) && run.stage is AskFirst) ==> next
            == SetupNext::Continue(SetupRun { stage: SetupStage::Validate, ..run }),
        (run.stage is Validate && event matches SetupEvent::Validated(Ok(_))) ==> next
            == SetupNext::Continue(SetupRun { stage: SetupStage::AskAgain, ..run }),
        (event == SetupEvent::Asked(false) && run.stage is AskAgain && run.command@.spec is Ssh)
            ==> next == SetupNext::Continue(SetupRun { stage: SetupStage::Probe, ..run }),
        (event == SetupEvent::Asked(false) && run.stage is AskAgain && run.command@.spec is Custom)
            ==> next == SetupNext::Continue(SetupRun { stage: SetupStage::AskLast, ..run }),
        (run.stage is Probe && event matches SetupEvent::Probed(Ok(_))) ==> next
            == SetupNext::Continue(SetupRun { stage: SetupStage::AskLast, ..run }),
{
}

/// A command that is not valid, or whose host cannot be reached, ends as a
/// failure of this launch, with the reason.
pub proof fn failed_preparation_says_why(run: SetupRun, event: SetupEvent, next: SetupNext)
    requires
        call_ensures(SetupRun::step, (run, event), next),
    ensures
        (run.stage is Validate && event matches SetupEvent::Validated(Err(problem))) ==> (
        next matches SetupNext::Finished(
            QuickLaunchSetupOutcome::Failed { path, launch_id, command, error },
        ) && texts(path@) == texts(run.path@) && launch_id == run.launch_id && (*command)@
            == run.command@ && error == event->Validated_0->Err_0),
        (run.stage is Probe && event matches SetupEvent::Probed(Err(reason))) ==> (
        next matches SetupNext::Finished(
            QuickLaunchSetupOutcome::Failed { path, launch_id, command, error },
        ) && texts(path@) == texts(run.path@) && launch_id == run.launch_id && (*command)@
            == run.command@ && (error matches QuickLaunchError::Validation { message } && message@
            == "SSH connection failed: "@ + event->Probed_0->Err_0@)),
{
}

/// A launch that is handed over carries its own path, id, title and command, and
/// the terminal's settings with the session of the command in them.
pub proof fn handed_over_launch_is_the_one_prepared(
    run: SetupRun,
    next: SetupNext,
)
    requires
        run.stage is AskLast,
        call_ensures(SetupRun::step, (run, SetupEvent::Asked(false)), next),
    ensures
        next matches SetupNext::Finished(QuickLaunchSetupOutcome::Prepared(launch)) && {
            &&& launch.path == run.path
            &&& launch.launch_id == run.launch_id
            &&& launch.title@ == run.command@.title
            &&& (*launch.command)@ == run.command@
            &&& launch.settings@.appearance == run.settings@.appearance
            &&& run.command@.spec matches SpecModel::Custom(custom) ==> (
            launch.settings@.session matches SessionModel::Local(options) && options.program
                == custom.program && options.args == custom.args && options.working_directory
                == custom.working_directory && options.envs.len() == custom.env.len())
            &&& run.command@.spec matches SpecModel::Ssh(ssh) ==> (
            launch.settings@.session matches SessionModel::Ssh(options) && options
                == ssh_options_of(ssh, run.cancel, run.defaults@))
        },
{
}

/// What the validation asks of a command of its own: there has to be a program,
/// and a working directory that is one.
pub proof fn valid_custom_command(
    command: QuickLaunch,
    host: LaunchHost,
    facts: ValidationFacts,
    r: Result<(), QuickLaunchError>,
    custom: CustomModel,
)
    requires
        call_ensures(validate_command, (&command, &host, &facts), r),
        command@.spec == SpecModel::Custom(custom),
    ensures
        is_blank(custom.program) ==> r is Err,
        r is Ok ==> !is_blank(custom.program),
        r is Ok ==> exists|i: int|
            0 <= i < facts.programs@.len() && runs(#[trigger] facts.programs@[i]),
        r is Ok && custom.working_directory is Some ==> facts.extra.exists && facts.extra.is_dir,
        r matches Err(error) ==> error is Validation,
{
    if r is Ok {
        let program = trim_text(custom.program);
        let places = program_places(host@, program);
        if crate::quick_launch::services::is_explicit(program) {
            lemma_runs(facts_at(facts.programs@, 0));
            assert(runs(facts.programs@[0]));
        } else {
            lemma_first_program_is_one(facts.programs@, 0, places.len() as int);
            let i = first_program(facts.programs@, 0, places.len() as int)->0;
            assert(runs(facts.programs@[i]));
        }
    }
}

/// Whether a path is a file that somebody may run.
pub open spec fn runs(facts: PathFacts) -> bool {
    facts.is_file && match facts.mode {
        FileMode::Bits(bits) => bits & 0o100 != 0 || bits & 0o010 != 0 || bits & 0o001 != 0,
        FileMode::Unreadable => false,
        FileMode::Unused => true,
    }
}

proof fn lemma_runs(facts: PathFacts)
    ensures
        is_program(facts) == runs(facts),
{
    match facts.mode {
        FileMode::Bits(bits) => {
            assert((bits & 0o111 != 0) == (bits & 0o100 != 0 || bits & 0o010 != 0 || bits & 0o001
                != 0)) by (bit_vector);
        },
        _ => {},
    }
}

proof fn lemma_first_program_is_one(facts: Seq<PathFacts>, from: int, count: int)
    requires
        0 <= from,
    ensures
        match first_program(facts, from, count) {
            Some(i) => from <= i < count && i < facts.len() && runs(facts[i]) && forall|j: int|
                from <= j < i && j < facts.len() ==> !runs(#[trigger] facts[j]),
            None => forall|j: int| from <= j < count && j < facts.len() ==> !runs(
                #[trigger] facts[j],
            ),
        },
    decreases count - from,
{
    if from < count {
        lemma_runs(facts_at(facts, from));
        if !is_program(facts_at(facts, from)) {
            lemma_first_program_is_one(facts, from + 1, count);
        }
    }
}

/// A program is found at the first place that holds one. An explicit path is the
/// only place; a bare name has those of the search path. Nothing is found only
/// where no place holds a program.
pub proof fn program_is_found_at_the_first_place(
    host: HostModel,
    program: Seq<char>,
    facts: Seq<PathFacts>,
)
    requires
        !program.contains('/') && !program.contains('\\') && !(program.len() > 0 && program[0]
            == '~'),
    ensures
        match found_program(host, program, facts) {
            Ok(path) => exists|i: int|
                0 <= i < facts.len() && i < program_places(host, program).len() && runs(
                    #[trigger] facts[i],
                ) && path == program_places(host, program)[i] && forall|j: int|
                    0 <= j < i ==> !runs(#[trigger] facts[j]),
            Err(problem) => problem == "Program not found in PATH: "@ + program && forall|j: int|
                0 <= j < facts.len() && j < program_places(host, program).len() ==> !runs(
                    #[trigger] facts[j],
                ),
        },
{
    let places = program_places(host, program);
    lemma_first_program_is_one(facts, 0, places.len() as int);
    match first_program(facts, 0, places.len() as int) {
        Some(i) => {
            assert(runs(facts[i]));
        },
        None => {},
    }
}

/// An explicit path is looked at where it points, with the home directory for a
/// leading tilde, and nowhere else; the problem names what is wrong with it.
pub proof fn explicit_path_is_the_only_place(
    host: HostModel,
    program: Seq<char>,
    facts: PathFacts,
)
    requires
        program.contains('/') || program.contains('\\') || (program.len() > 0 && program[0] == '~'),
    ensures
        ({
            let places = program_places(host, program);
            let found = found_program(host, program, seq![facts]);
            &&& places.len() == 1
            &&& places[0] == crate::paths::tilde_expanded(program, host.home)
            &&& facts.exists && !facts.is_dir && runs(facts) ==> found == Ok::<_, Seq<char>>(
                places[0],
            )
            &&& !facts.exists ==> found == Err::<Seq<char>, _>("Program not found: "@ + places[0])
            &&& facts.exists && facts.is_dir ==> found == Err::<Seq<char>, _>(
                "Program is a directory: "@ + places[0],
            )
            &&& facts.exists && !facts.is_dir && !runs(facts) ==> found == Err::<Seq<char>, _>(
                "Program is not executable: "@ + places[0],
            )
        }),
{
    lemma_runs(facts);
    assert(facts_at(seq![facts], 0) == facts);
}

/// A bare name is looked for directory by directory, in the order of the search
/// path.
pub proof fn search_goes_through_the_directories(
    host: HostModel,
    first: Seq<Seq<char>>,
    second: Seq<Seq<char>>,
    program: Seq<char>,
)
    ensures
        search_candidates(host, first + second, program) == search_candidates(host, first, program)
            + search_candidates(host, second, program),
        search_candidates(host, Seq::empty(), program).len() == 0,
    decreases second.len(),
{
    if second.len() == 0 {
        assert(first + second =~= first);
        assert(search_candidates(host, first, program) + Seq::<Seq<char>>::empty()
            =~= search_candidates(host, first, program));
    } else {
        search_goes_through_the_directories(host, first, second.drop_last(), program);
        assert((first + second).drop_last() =~= first + second.drop_last());
        assert(search_candidates(host, first + second, program) =~= search_candidates(
            host,
            first,
            program,
        ) + search_candidates(host, second, program));
    }
}

/// In a directory the name itself comes first, and then the name with each
/// extension in turn; a name that ends in one of them, in whatever case, is not
/// given another.
pub proof fn names_tried_in_a_directory(
    host: HostModel,
    dir: Seq<char>,
    program: Seq<char>,
)
    ensures
        ({
            let tried = search_candidates(host, seq![dir], program);
            let exts = host.extensions;
            &&& tried.len() > 0
            &&& tried[0] == path_join(host.platform, dir, program)
            &&& (exists|i: int| 0 <= i < exts.len() && ends_alike(program, #[trigger] exts[i]))
                ==> tried.len() == 1
            &&& (forall|i: int| 0 <= i < exts.len() ==> !ends_alike(program, #[trigger] exts[i]))
                ==> tried.len() == 1 + exts.len() && forall|i: int|
                0 <= i < exts.len() ==> tried[i + 1] == path_join(
                    host.platform,
                    dir,
                    program + #[trigger] exts[i],
                )
        }),
{
    let one = seq![dir];
    assert(one.drop_last() =~= Seq::empty());
    assert(one.last() == dir);
    let all = candidates_in(host.platform, dir, program, host.extensions);
    assert(search_candidates(host, Seq::<Seq<char>>::empty(), program) =~= Seq::empty());
    assert(search_candidates(host, one, program) =~= all);
    let exts = host.extensions;
    assert forall|i: int| 0 <= i < exts.len() implies ends_alike(program, #[trigger] exts[i])
        == ends_with_ignoring_case(program, exts[i]) by {
        lemma_ends_alike(program, exts[i]);
    }
    if has_known_extension(program, exts) {
        let i = choose|i: int|
            0 <= i < exts.len() && ends_with_ignoring_case(program, #[trigger] exts[i]);
        assert(ends_alike(program, exts[i]));
    }
}

/// Whether two letters are the same, where upper and lower case are alike.
pub open spec fn alike(a: char, b: char) -> bool {
    ||| a == b
    ||| 'A' <= a && a <= 'Z' && b as u32 == a as u32 + 32
    ||| 'A' <= b && b <= 'Z' && a as u32 == b as u32 + 32
}

/// Whether a text ends in another, where upper and lower case are alike.
pub open spec fn ends_alike(text: Seq<char>, end: Seq<char>) -> bool {
    end.len() <= text.len() && forall|i: int|
        0 <= i < end.len() ==> alike(text[text.len() - end.len() + i], #[trigger] end[i])
}

proof fn lemma_alike(a: char, b: char)
    ensures
        alike(a, b) == (lower_char(a) == lower_char(b)),
{
}

proof fn lemma_ends_alike(text: Seq<char>, end: Seq<char>)
    ensures
        ends_alike(text, end) == ends_with_ignoring_case(text, end),
{
    let a = lower_text(text);
    let b = lower_text(end);
    if end.len() <= text.len() {
        let tail = a.subrange(a.len() - b.len(), a.len() as int);
        assert forall|i: int| 0 <= i < end.len() implies alike(
            text[text.len() - end.len() + i],
            #[trigger] end[i],
        ) == (tail[i] == b[i]) by {
            lemma_alike(text[text.len() - end.len() + i], end[i]);
        }
        if ends_alike(text, end) {
            assert(b =~= tail);
        }
        if ends_with_ignoring_case(text, end) {
            assert(b == tail);
            assert forall|i: int| 0 <= i < end.len() implies alike(
                text[text.len() - end.len() + i],
                #[trigger] end[i],
            ) by {
                assert(tail[i] == b[i]);
            }
        }
    }
}

/// What the validation asks of an SSH command: a host, a port, and an identity
/// file that is one where it names any.
pub proof fn valid_ssh_command(
    command: QuickLaunch,
    host: LaunchHost,
    facts: ValidationFacts,
    r: Result<(), QuickLaunchError>,
    ssh: SshModel,
)
    requires
        call_ensures(validate_command, (&command, &host, &facts), r),
        command@.spec == SpecModel::Ssh(ssh),
    ensures
        r is Ok <==> !is_blank(ssh.host) && ssh.port != 0 && (ssh.identity_file is None || is_blank(
            ssh.identity_file->0,
        ) || facts.extra.exists && facts.extra.is_file),
        is_blank(ssh.host) ==> (r matches Err(QuickLaunchError::Validation { message }) && message@
            == "SSH host is empty."@),
        !is_blank(ssh.host) && ssh.port == 0 ==> (r matches Err(
            QuickLaunchError::Validation { message },
        ) && message@ == "SSH port must be greater than 0."@),
{
}

/// Each problem of a command has its own words, and names the path that it is
/// about.
pub proof fn problems_are_named(
    command: LaunchModel,
    host: HostModel,
    programs: Seq<PathFacts>,
    extra: PathFacts,
)
    ensures
        ({
            let problem = command_problem(command, host, programs, extra);
            &&& command.spec matches SpecModel::Custom(custom) ==> {
                let program = trim_text(custom.program);
                &&& is_blank(custom.program) ==> problem == Some("Program path is empty."@)
                &&& !is_blank(custom.program) ==> match found_program(host, program, programs) {
                    Err(text) => problem == Some(text),
                    Ok(_) => match custom.working_directory {
                        None => problem is None,
                        Some(dir) => {
                            let place = crate::paths::tilde_expanded(dir, host.home);
                            &&& extra.exists && extra.is_dir ==> problem is None
                            &&& !extra.exists ==> problem == Some(
                                "Working directory not found: "@ + place,
                            )
                            &&& extra.exists && !extra.is_dir ==> problem == Some(
                                "Working directory is not a directory: "@ + place,
                            )
                        },
                    },
                }
            }
            &&& command.spec matches SpecModel::Ssh(ssh) ==> (!is_blank(ssh.host) && ssh.port != 0
                ==> match ssh.identity_file {
                None => problem is None,
                Some(file) => {
                    let place = crate::paths::tilde_expanded(trim_text(file), host.home);
                    &&& is_blank(file) ==> problem is None
                    &&& !is_blank(file) && !extra.exists ==> problem == Some(
                        "Identity file not found: "@ + place,
                    )
                    &&& !is_blank(file) && extra.exists && !extra.is_file ==> problem == Some(
                        "Identity file is not a file: "@ + place,
                    )
                    &&& !is_blank(file) && extra.exists && extra.is_file ==> problem is None
                },
            })
        }),
{
}

/// The extensions that the environment lists are those between its semicolons:
/// two lists with a semicolon between them give those of the one and then those
/// of the other, and a text without any is one extension.
pub proof fn listed_extensions_are_cut_at_semicolons(first: Seq<char>, second: Seq<char>)
    ensures
        nonempty_parts(first.push(';') + second) == nonempty_parts(first) + nonempty_parts(second),
        second.len() > 0 && !second.contains(';') ==> nonempty_parts(second) == seq![second],
        nonempty_parts(Seq::<char>::empty()).len() == 0,
        extensions_of(Platform::Windows, Some(first)) == nonempty_parts(first),
        extensions_of(Platform::Unix, Some(first)).len() == 0,
        extensions_of(Platform::Unix, None).len() == 0,
        extensions_of(Platform::Windows, None) == seq![".COM"@, ".EXE"@, ".BAT"@, ".CMD"@],
    decreases second.len(),
{
    let all = first.push(';') + second;
    if second.len() == 0 {
        assert(all =~= first.push(';'));
        assert(all.drop_last() =~= first);
        assert(nonempty_parts(first) + nonempty_parts(second) =~= nonempty_parts(first));
    } else if second.last() == ';' {
        assert(all.drop_last() =~= first.push(';') + second.drop_last());
        listed_extensions_are_cut_at_semicolons(first, second.drop_last());
        assert(second.contains(second.last()));
    } else {
        lemma_last_part_of_end(first.push(';'), second);
        crate::quick_launch::services::last_part_is_the_end(second);
        let part = last_part(second);
        let rest = second.take(second.len() - part.len());
        assert(part.len() > 0);
        assert(all.take(all.len() - part.len()) =~= first.push(';') + rest);
        listed_extensions_are_cut_at_semicolons(first, rest);
        assert(nonempty_parts(all) =~= nonempty_parts(first) + nonempty_parts(second));
        if !second.contains(';') {
            lemma_last_part_is_all(second);
            assert(rest =~= Seq::empty());
            assert(nonempty_parts(second) =~= seq![second]);
        }
    }
}

proof fn lemma_last_part_of_end(start: Seq<char>, end: Seq<char>)
    requires
        start.len() > 0,
        start.last() == ';',
    ensures
        last_part(start + end) == last_part(end),
    decreases end.len(),
{
    if end.len() == 0 {
        assert(start + end =~= start);
    } else {
        assert((start + end).drop_last() =~= start + end.drop_last());
        lemma_last_part_of_end(start, end.drop_last());
    }
}

proof fn lemma_last_part_is_all(s: Seq<char>)
    requires
        !s.contains(';'),
    ensures
        last_part(s) == s,
    decreases s.len(),
{
    if s.len() > 0 {
        assert(s.contains(s.last()));
        assert(!s.drop_last().contains(';')) by {
            if s.drop_last().contains(';') {
                let i = choose|i: int| 0 <= i < s.len() - 1 && s.drop_last()[i] == ';';
                assert(s[i] == ';');
            }
        }
        lemma_last_part_is_all(s.drop_last());
        assert(s.drop_last().push(s.last()) =~= s);
    } else {
        assert(last_part(s) =~= s);
    }
}

/// What an editor saves is what stands in its fields, without white space around
/// it; fields that are blank count as empty. It saves nothing without a title, a
/// custom command without a program, or an SSH command without a host or with a
/// port that is none.
pub proof fn editor_saves_its_fields(editor: EditorModel)
    ensures
        is_blank(editor.title) ==> command_of(editor) == Err::<LaunchModel, _>(
            QuickLaunchWizardError::TitleRequired,
        ),
        !is_blank(editor.title) ==> match editor.options {
            DraftModel::Custom(draft) => if is_blank(draft.program) {
                command_of(editor) == Err::<LaunchModel, _>(
                    QuickLaunchWizardError::ProgramRequired,
                )
            } else {
                command_of(editor) matches Ok(command) && command.title == trim_text(editor.title)
                    && (command.spec matches SpecModel::Custom(custom) && {
                    &&& custom.program == trim_text(draft.program)
                    &&& custom.args == draft.args
                    &&& is_blank(draft.working_directory) ==> custom.working_directory is None
                    &&& !is_blank(draft.working_directory) ==> custom.working_directory == Some(
                        trim_text(draft.working_directory),
                    )
                })
            },
            DraftModel::Ssh(draft) => if is_blank(draft.host) {
                command_of(editor) == Err::<LaunchModel, _>(QuickLaunchWizardError::HostRequired)
            } else if !is_blank(draft.port) && u16_of_text(trim_text(draft.port)) is None {
                command_of(editor) == Err::<LaunchModel, _>(QuickLaunchWizardError::InvalidPort)
            } else {
                command_of(editor) matches Ok(command) && command.title == trim_text(editor.title)
                    && (command.spec matches SpecModel::Ssh(ssh) && {
                    &&& ssh.host == trim_text(draft.host)
                    &&& is_blank(draft.port) ==> ssh.port == 22
                    &&& !is_blank(draft.port) ==> Some(ssh.port) == u16_of_text(
                        trim_text(draft.port),
                    )
                    &&& is_blank(draft.user) ==> ssh.user is None
                    &&& !is_blank(draft.user) ==> ssh.user == Some(trim_text(draft.user))
                    &&& is_blank(draft.identity_file) ==> ssh.identity_file is None
                    &&& !is_blank(draft.identity_file) ==> ssh.identity_file == Some(
                        trim_text(draft.identity_file),
                    )
                    &&& ssh.extra_args == draft.extra_args
                })
            },
        },
{
}

/// The variables of a draft are saved in their order, names without white space
/// around them and values as they are; those without a name are left out.
pub proof fn named_variables_are_saved(
    first: Seq<(Seq<char>, Seq<char>)>,
    key: Seq<char>,
    value: Seq<char>,
)
    ensures
        is_blank(key) ==> named_env(first.push((key, value))) == named_env(first),
        !is_blank(key) ==> named_env(first.push((key, value))) == named_env(first).push(
            EnvModel { key: trim_text(key), value },
        ),
        named_env(Seq::empty()).len() == 0,
{
    assert(first.push((key, value)).drop_last() =~= first);
}

/// A variable of a draft is saved with the command.
pub proof fn editor_saves_its_variables(editor: EditorModel)
    requires
        command_of(editor) is Ok,
        editor.options is Custom,
    ensures
        command_of(editor)->Ok_0.spec matches SpecModel::Custom(custom) && custom.env == named_env(
            editor.options->Custom_0.env,
        ),
{
}

} // verus!
