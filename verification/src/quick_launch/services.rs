//! From a saved command to a running one: what the editor's draft stands for,
//! where its program is looked up, and how a launch is prepared.


use vstd::prelude::*;
use vstd::string::{StrSliceExecFns, StringExecFns};

use crate::paths::{expand_tilde, join_path, path_join, tilde_expanded, Platform};
use crate::quick_launch::errors::{QuickLaunchError, QuickLaunchWizardError};
use crate::quick_launch::types::{
    borrowed, copy_strings, env_models, CommandSpec, CustomCommand, CustomModel, EnvModel, EnvVar,
    LaunchModel, QuickLaunch, QuickLaunchType, SpecModel, SshCommand, SshModel, SSH_DEFAULT_PORT,
};
use crate::quick_launch::wizard::{
    edit_editor, text_or_empty, DraftModel, EditorModel, WizardEditorState,
};
use crate::text::{
    chars_of, decimal_text_is_trimmed, decimal_text_reads_back, is_blank, joined, parse_u16,
    push_text, str_opt, text_opt, text_pairs, texts, trim_idempotent, trim_text, u16_of_text,
};

verus! {

/// The trimmed text, where anything is left of it.
pub open spec fn optional_text(value: Seq<char>) -> Option<Seq<char>> {
    if is_blank(value) {
        None
    } else {
        Some(trim_text(value))
    }
}

/// The variables of a draft that have a name, the names trimmed.
pub open spec fn named_env(env: Seq<(Seq<char>, Seq<char>)>) -> Seq<EnvModel>
    decreases env.len(),
{
    if env.len() == 0 {
        Seq::empty()
    } else {
        let rest = named_env(env.drop_last());
        let (key, value) = env.last();
        if is_blank(key) {
            rest
        } else {
            rest.push(EnvModel { key: trim_text(key), value })
        }
    }
}

/// The port of an SSH draft: the default one where the field is blank.
pub open spec fn port_of(port: Seq<char>) -> Option<u16> {
    if is_blank(port) {
        Some(SSH_DEFAULT_PORT)
    } else {
        u16_of_text(trim_text(port))
    }
}

/// The command that an editor stands for, or what is wrong with its draft.
pub open spec fn command_of(editor: EditorModel) -> Result<LaunchModel, QuickLaunchWizardError> {
    if is_blank(editor.title) {
        Err(QuickLaunchWizardError::TitleRequired)
    } else {
        match editor.options {
            DraftModel::Custom(draft) => if is_blank(draft.program) {
                Err(QuickLaunchWizardError::ProgramRequired)
            } else {
                Ok(
                    LaunchModel {
                        title: trim_text(editor.title),
                        spec: SpecModel::Custom(
                            CustomModel {
                                program: trim_text(draft.program),
                                args: draft.args,
                                env: named_env(draft.env),
                                working_directory: optional_text(draft.working_directory),
                            },
                        ),
                    },
                )
            },
            DraftModel::Ssh(draft) => if is_blank(draft.host) {
                Err(QuickLaunchWizardError::HostRequired)
            } else {
                match port_of(draft.port) {
                    None => Err(QuickLaunchWizardError::InvalidPort),
                    Some(port) => Ok(
                        LaunchModel {
                            title: trim_text(editor.title),
                            spec: SpecModel::Ssh(
                                SshModel {
                                    host: trim_text(draft.host),
                                    port,
                                    user: optional_text(draft.user),
                                    identity_file: optional_text(draft.identity_file),
                                    extra_args: draft.extra_args,
                                },
                            ),
                        },
                    ),
                }
            },
        }
    }
}

fn optional_string(value: &str) -> (r: Option<String>)
    ensures
        text_opt(r) == optional_text(value@),
{
    let trimmed = value.trim();
    if trimmed.unicode_len() == 0 {
        None
    } else {
        Some(trimmed.to_string())
    }
}

fn keep_named_env(env: &Vec<(String, String)>) -> (kept: Vec<EnvVar>)
    ensures
        env_models(kept@) == named_env(text_pairs(env@)),
{
    let mut kept: Vec<EnvVar> = Vec::new();
    let ghost all = text_pairs(env@);
    let mut i: usize = 0;
    assert(env_models(kept@) =~= Seq::empty());
    while i < env.len()
        invariant
            i <= env@.len(),
            all == text_pairs(env@),
            env_models(kept@) == named_env(all.take(i as int)),
        decreases env@.len() - i,
    {
        assert(all.take(i + 1).drop_last() == all.take(i as int));
        assert(all.take(i + 1).last() == (env@[i as int].0@, env@[i as int].1@));
        let key = env[i].0.trim();
        if key.unicode_len() != 0 {
            let var = EnvVar { key: key.to_string(), value: env[i].1.clone() };
            let ghost before = kept@;
            kept.push(var);
            assert(env_models(kept@) =~= env_models(before).push(var@));
        }
        i += 1;
    }
    assert(all.take(env@.len() as int) == all);
    kept
}

/// Build the command that the editor's draft stands for.
pub fn build_command(editor: &WizardEditorState) -> (r: Result<QuickLaunch, QuickLaunchWizardError>)
    ensures
        match command_of(editor@) {
            Ok(command) => r is Ok && r->Ok_0@ == command,
            Err(error) => r is Err && r->Err_0 == error,
        },
{
    let title = editor.title().trim();
    if title.unicode_len() == 0 {
        return Err(QuickLaunchWizardError::TitleRequired);
    }
    let spec = match editor.command_type() {
        QuickLaunchType::Custom => {
            let custom = match editor.custom() {
                Some(custom) => custom,
                None => return Err(QuickLaunchWizardError::MissingCustomDraft),
            };
            let program = custom.program().trim();
            if program.unicode_len() == 0 {
                return Err(QuickLaunchWizardError::ProgramRequired);
            }
            CommandSpec::Custom {
                custom: CustomCommand {
                    program: program.to_string(),
                    args: copy_strings(custom.args()),
                    env: keep_named_env(custom.env()),
                    working_directory: optional_string(custom.working_directory()),
                },
            }
        },
        QuickLaunchType::Ssh => {
            let ssh = match editor.ssh() {
                Some(ssh) => ssh,
                None => return Err(QuickLaunchWizardError::MissingSshDraft),
            };
            let host = ssh.host().trim();
            if host.unicode_len() == 0 {
                return Err(QuickLaunchWizardError::HostRequired);
            }
            let port_text = ssh.port().trim();
            let port: u16 = if port_text.unicode_len() == 0 {
                SSH_DEFAULT_PORT
            } else {
                match parse_u16(port_text) {
                    Some(port) => port,
                    None => return Err(QuickLaunchWizardError::InvalidPort),
                }
            };
            CommandSpec::Ssh {
                ssh: SshCommand {
                    host: host.to_string(),
                    port,
                    user: optional_string(ssh.user()),
                    identity_file: optional_string(ssh.identity_file()),
                    extra_args: copy_strings(ssh.extra_args()),
                },
            }
        },
    };
    Ok(QuickLaunch { title: title.to_string(), spec })
}

/// Whether a text is trimmed and not empty.
pub open spec fn is_tidy(text: Seq<char>) -> bool {
    text.len() > 0 && trim_text(text) == text
}

/// Whether an optional text is absent or tidy.
pub open spec fn is_tidy_opt(text: Option<Seq<char>>) -> bool {
    text matches Some(text) ==> is_tidy(text)
}

/// Whether a command is one that the editor could have saved.
pub open spec fn is_tidy_command(command: LaunchModel) -> bool {
    &&& is_tidy(command.title)
    &&& match command.spec {
        SpecModel::Custom(custom) => {
            &&& is_tidy(custom.program)
            &&& is_tidy_opt(custom.working_directory)
            &&& forall|i: int| 0 <= i < custom.env.len() ==> is_tidy((#[trigger] custom.env[i]).key)
        },
        SpecModel::Ssh(ssh) => {
            &&& is_tidy(ssh.host)
            &&& is_tidy_opt(ssh.user)
            &&& is_tidy_opt(ssh.identity_file)
        },
    }
}

proof fn lemma_trim_empty()
    ensures
        is_blank(Seq::<char>::empty()),
{
}

proof fn lemma_optional_text(value: Option<Seq<char>>)
    requires
        is_tidy_opt(value),
    ensures
        optional_text(text_or_empty(value)) == value,
{
    lemma_trim_empty();
}

proof fn lemma_named_env(env: Seq<EnvModel>, n: int)
    requires
        0 <= n <= env.len(),
        forall|i: int| 0 <= i < env.len() ==> is_tidy((#[trigger] env[i]).key),
    ensures
        named_env(Seq::new(env.len(), |i: int| (env[i].key, env[i].value)).take(n)) == env.take(n),
    decreases n,
{
    let pairs = Seq::new(env.len(), |i: int| (env[i].key, env[i].value));
    if n == 0 {
        assert(env.take(0) =~= Seq::empty());
    } else {
        lemma_named_env(env, n - 1);
        assert(pairs.take(n).drop_last() == pairs.take(n - 1));
        assert(pairs.take(n).last() == (env[n - 1].key, env[n - 1].value));
        assert(env.take(n) =~= env.take(n - 1).push(env[n - 1]));
    }
}

/// Saving what an editor shows of a tidy command gives back that command.
pub proof fn edit_round_trip(path: Seq<Seq<char>>, command: LaunchModel)
    requires
        is_tidy_command(command),
    ensures
        command_of(edit_editor(path, command)) == Ok::<_, QuickLaunchWizardError>(command),
{
    match command.spec {
        SpecModel::Custom(custom) => {
            let pairs = Seq::new(
                custom.env.len(),
                |i: int| (custom.env[i].key, custom.env[i].value),
            );
            lemma_optional_text(custom.working_directory);
            lemma_named_env(custom.env, custom.env.len() as int);
            assert(pairs.take(custom.env.len() as int) == pairs);
            assert(custom.env.take(custom.env.len() as int) == custom.env);
        },
        SpecModel::Ssh(ssh) => {
            lemma_optional_text(ssh.user);
            lemma_optional_text(ssh.identity_file);
            decimal_text_is_trimmed(ssh.port as nat);
            decimal_text_reads_back(ssh.port);
        },
    }
}

proof fn lemma_optional_text_tidy(value: Seq<char>)
    ensures
        is_tidy_opt(optional_text(value)),
{
    trim_idempotent(value);
}

proof fn lemma_named_env_tidy(env: Seq<(Seq<char>, Seq<char>)>)
    ensures
        forall|i: int|
            0 <= i < named_env(env).len() ==> is_tidy((#[trigger] named_env(env)[i]).key),
    decreases env.len(),
{
    if env.len() > 0 {
        lemma_named_env_tidy(env.drop_last());
        trim_idempotent(env.last().0);
        let rest = named_env(env.drop_last());
        assert forall|i: int| 0 <= i < named_env(env).len() implies is_tidy(
            (#[trigger] named_env(env)[i]).key,
        ) by {
            if i < rest.len() {
                assert(is_tidy(rest[i].key));
                assert(named_env(env)[i] == rest[i]);
            }
        }
    }
}

/// What the editor saves is tidy.
pub proof fn saved_command_is_tidy(editor: EditorModel)
    requires
        command_of(editor) is Ok,
    ensures
        is_tidy_command(command_of(editor)->Ok_0),
{
    trim_idempotent(editor.title);
    match editor.options {
        DraftModel::Custom(draft) => {
            trim_idempotent(draft.program);
            lemma_optional_text_tidy(draft.working_directory);
            lemma_named_env_tidy(draft.env);
        },
        DraftModel::Ssh(draft) => {
            trim_idempotent(draft.host);
            lemma_optional_text_tidy(draft.user);
            lemma_optional_text_tidy(draft.identity_file);
        },
    }
}

/// Opening a saved command in the editor and saving it again changes nothing.
pub proof fn save_again_changes_nothing(editor: EditorModel, path: Seq<Seq<char>>)
    requires
        command_of(editor) is Ok,
    ensures
        command_of(edit_editor(path, command_of(editor)->Ok_0)) == command_of(editor),
{
    saved_command_is_tidy(editor);
    edit_round_trip(path, command_of(editor)->Ok_0);
}

/// `c` with an ASCII upper case letter made lower case.
pub open spec fn lower_char(c: char) -> char {
    if 'A' <= c && c <= 'Z' {
        ((c as u8) + 32) as u8 as char
    } else {
        c
    }
}

/// `s` with its ASCII upper case letters made lower case.
pub open spec fn lower_text(s: Seq<char>) -> Seq<char> {
    s.map_values(|c: char| lower_char(c))
}

/// Whether `s` ends in `suffix`, upper and lower case ASCII letters alike.
pub open spec fn ends_with_ignoring_case(s: Seq<char>, suffix: Seq<char>) -> bool {
    lower_text(suffix).is_suffix_of(lower_text(s))
}

fn lower(c: char) -> (r: char)
    ensures
        r == lower_char(c),
{
    if 'A' <= c && c <= 'Z' {
        ((c as u8) + 32) as char
    } else {
        c
    }
}

fn ends_with_lowercase(s: &Vec<char>, suffix: &Vec<char>) -> (r: bool)
    ensures
        r == ends_with_ignoring_case(s@, suffix@),
{
    if suffix.len() > s.len() {
        return false;
    }
    let start: usize = s.len() - suffix.len();
    let ghost tail = lower_text(s@).subrange(start as int, s@.len() as int);
    let mut i: usize = 0;
    while i < suffix.len()
        invariant
            i <= suffix@.len(),
            start + suffix@.len() == s@.len(),
            s@.len() <= usize::MAX,
            tail == lower_text(s@).subrange(start as int, s@.len() as int),
            forall|j: int| 0 <= j < i ==> lower_text(suffix@)[j] == #[trigger] tail[j],
        decreases suffix@.len() - i,
    {
        assert(tail[i as int] == lower_char(s@[start + i]));
        if lower(suffix[i]) != lower(s[start + i]) {
            assert(lower_text(suffix@)[i as int] != tail[i as int]);
            return false;
        }
        i += 1;
    }
    assert(lower_text(suffix@) =~= tail);
    true
}

/// Whether a program name already ends in one of the extensions.
pub open spec fn has_known_extension(program: Seq<char>, exts: Seq<Seq<char>>) -> bool {
    exists|i: int| 0 <= i < exts.len() && ends_with_ignoring_case(program, #[trigger] exts[i])
}

/// The paths under which a bare program name is looked for in one directory:
/// the name itself and then, where it ends in none of the extensions, the name
/// with each of them.
pub open spec fn candidates_in(
    platform: Platform,
    dir: Seq<char>,
    program: Seq<char>,
    exts: Seq<Seq<char>>,
) -> Seq<Seq<char>> {
    let direct = seq![path_join(platform, dir, program)];
    if has_known_extension(program, exts) {
        direct
    } else {
        direct + exts.map_values(|ext: Seq<char>| path_join(platform, dir, program + ext))
    }
}

/// Candidate paths for a bare program name within one directory of the search
/// path.
pub fn program_candidates(
    platform: Platform,
    dir: &str,
    program: &str,
    exts: &Vec<String>,
) -> (candidates: Vec<String>)
    ensures
        texts(candidates@) == candidates_in(platform, dir@, program@, texts(exts@)),
{
    let mut candidates: Vec<String> = Vec::new();
    push_text(&mut candidates, join_path(platform, dir, program));
    let ghost direct = seq![path_join(platform, dir@, program@)];
    assert(texts(candidates@) =~= direct);
    let name = chars_of(program);
    let mut i: usize = 0;
    while i < exts.len()
        invariant
            i <= exts@.len(),
            name@ == program@,
            direct == seq![path_join(platform, dir@, program@)],
            texts(candidates@) == direct,
            forall|j: int|
                0 <= j < i ==> !ends_with_ignoring_case(program@, #[trigger] texts(exts@)[j]),
        decreases exts@.len() - i,
    {
        assert(texts(exts@)[i as int] == exts@[i as int]@);
        if ends_with_lowercase(&name, &chars_of(exts[i].as_str())) {
            return candidates;
        }
        i += 1;
    }
    let ghost with_exts = texts(exts@).map_values(
        |ext: Seq<char>| path_join(platform, dir@, program@ + ext),
    );
    let mut i: usize = 0;
    while i < exts.len()
        invariant
            i <= exts@.len(),
            with_exts == texts(exts@).map_values(
                |ext: Seq<char>| path_join(platform, dir@, program@ + ext),
            ),
            texts(candidates@) == direct + with_exts.take(i as int),
        decreases exts@.len() - i,
    {
        assert(texts(exts@)[i as int] == exts@[i as int]@);
        let named = joined(program, exts[i].as_str());
        push_text(&mut candidates, join_path(platform, dir, named.as_str()));
        i += 1;
        assert(with_exts[i - 1] == path_join(platform, dir@, program@ + exts@[i - 1]@));
        assert(direct + with_exts.take(i as int) =~= (direct + with_exts.take(i - 1)).push(
            with_exts[i - 1],
        ));
    }
    assert(with_exts.take(exts@.len() as int) =~= with_exts);
    candidates
}

/// The parts of `s` between semicolons that are not empty.
pub open spec fn nonempty_parts(s: Seq<char>) -> Seq<Seq<char>>
    decreases s.len(),
{
    if s.len() == 0 {
        Seq::empty()
    } else if s.last() == ';' {
        nonempty_parts(s.drop_last())
    } else {
        let part = last_part(s);
        proof {
            last_part_is_the_end(s);
        }
        nonempty_parts(s.take(s.len() - part.len())).push(part)
    }
}

/// What stands in `s` after its last semicolon.
pub open spec fn last_part(s: Seq<char>) -> Seq<char>
    decreases s.len(),
{
    if s.len() == 0 || s.last() == ';' {
        Seq::empty()
    } else {
        last_part(s.drop_last()).push(s.last())
    }
}

/// What stands after the last semicolon is the end of the text.
pub proof fn last_part_is_the_end(s: Seq<char>)
    ensures
        last_part(s).len() <= s.len(),
        last_part(s) == s.skip(s.len() - last_part(s).len()),
    decreases s.len(),
{
    if s.len() > 0 && s.last() != ';' {
        last_part_is_the_end(s.drop_last());
        let part = last_part(s);
        assert(part =~= s.skip(s.len() - part.len()));
    } else {
        assert(s.skip(s.len() as int) =~= Seq::empty());
    }
}

proof fn lemma_parts_step(s: Seq<char>, c: char)
    ensures
        c == ';' ==> nonempty_parts(s.push(c)) == nonempty_parts(s) && last_part(s.push(c)).len()
            == 0,
        c != ';' ==> last_part(s.push(c)) == last_part(s).push(c),
        s.len() > 0 && s.last() != ';' ==> last_part(s).len() > 0,
        s.len() == 0 || s.last() == ';' ==> last_part(s).len() == 0,
{
    assert(s.push(c).drop_last() == s);
}

/// The extensions that make a file a program on Windows where the environment
/// names none.
pub open spec fn default_pathext() -> Seq<Seq<char>> {
    seq![".COM"@, ".EXE"@, ".BAT"@, ".CMD"@]
}

/// The extensions that are tried in the search for a program: on Windows those
/// that the environment lists, on unix none.
pub open spec fn extensions_of(platform: Platform, pathext: Option<Seq<char>>) -> Seq<Seq<char>> {
    match platform {
        Platform::Unix => Seq::empty(),
        Platform::Windows => match pathext {
            Some(list) => nonempty_parts(list),
            None => default_pathext(),
        },
    }
}

/// Executable extensions consulted during the search for a program.
pub fn executable_extensions(platform: Platform, pathext: Option<&str>) -> (exts: Vec<String>)
    ensures
        texts(exts@) == extensions_of(platform, str_opt(pathext)),
{
    let mut exts: Vec<String> = Vec::new();
    assert(texts(exts@) =~= Seq::empty());
    match platform {
        Platform::Unix => exts,
        Platform::Windows => match pathext {
            Some(list) => split_nonempty(list),
            None => {
                push_text(&mut exts, ".COM".to_string());
                push_text(&mut exts, ".EXE".to_string());
                push_text(&mut exts, ".BAT".to_string());
                push_text(&mut exts, ".CMD".to_string());
                assert(texts(exts@) =~= default_pathext());
                exts
            },
        },
    }
}

/// What stands before the last part, cut into its parts.
spec fn parts_before(s: Seq<char>) -> Seq<Seq<char>> {
    nonempty_parts(s.take(s.len() - last_part(s).len()))
}

fn split_nonempty(list: &str) -> (parts: Vec<String>)
    ensures
        texts(parts@) == nonempty_parts(list@),
{
    let chars = chars_of(list);
    let mut parts: Vec<String> = Vec::new();
    let mut part = String::new();
    let mut i: usize = 0;
    assert(list@.take(0) =~= Seq::empty());
    assert(texts(parts@) =~= Seq::empty());
    assert(part@ =~= Seq::empty());
    assert(Seq::<char>::empty().take(0) =~= Seq::empty());
    while i < chars.len()
        invariant
            chars@ == list@,
            i <= chars@.len(),
            part@ == last_part(list@.take(i as int)),
            texts(parts@) == parts_before(list@.take(i as int)),
        decreases chars@.len() - i,
    {
        let ghost s = list@.take(i as int);
        let ghost c = list@[i as int];
        proof {
            assert(list@.take(i + 1) == s.push(c));
            last_part_is_the_end(s);
            lemma_parts_step(s, c);
        }
        if chars[i] == ';' {
            if part.as_str().unicode_len() != 0 {
                push_text(&mut parts, part);
            } else {
                assert(s.take(s.len() as int) == s);
            }
            part = String::new();
            proof {
                assert(part@ =~= Seq::empty());
                assert(last_part(s.push(c)) =~= Seq::empty());
                assert(s.push(c).take(s.push(c).len() as int) == s.push(c));
            }
        } else {
            part.push(chars[i]);
            proof {
                let p = last_part(s);
                assert(s.push(c).take(s.len() - p.len()) == s.take(s.len() - p.len()));
            }
        }
        i += 1;
    }
    proof {
        assert(list@.take(list@.len() as int) == list@);
        last_part_is_the_end(list@);
        lemma_parts_step(list@, ';');
    }
    if part.as_str().unicode_len() != 0 {
        push_text(&mut parts, part);
    } else {
        assert(list@.take(list@.len() as int) == list@);
    }
    parts
}

/// What the filesystem says of the permissions of a file.
#[derive(Debug, Clone, Copy, PartialEq, Eq, Structural)]
pub enum FileMode {
    /// The permission bits.
    Bits(u32),
    /// The permission bits could not be read.
    Unreadable,
    /// The platform has no permission bits.
    Unused,
}

/// What the filesystem says of a path.
#[derive(Debug, Clone, Copy, PartialEq, Eq, Structural)]
pub struct PathFacts {
    pub exists: bool,
    pub is_dir: bool,
    pub is_file: bool,
    pub mode: FileMode,
}

/// A path at which there is nothing.
pub open spec fn nothing_there() -> PathFacts {
    PathFacts { exists: false, is_dir: false, is_file: false, mode: FileMode::Unused }
}

/// Whether the path is a program: a file that someone may execute.
pub open spec fn is_program(facts: PathFacts) -> bool {
    facts.is_file && match facts.mode {
        FileMode::Bits(bits) => bits & 0o111 != 0,
        FileMode::Unreadable => false,
        FileMode::Unused => true,
    }
}

/// Whether the path is a program: a file that someone may execute.
pub fn is_executable_path(facts: &PathFacts) -> (r: bool)
    ensures
        r == is_program(*facts),
{
    if !facts.is_file {
        return false;
    }
    match facts.mode {
        FileMode::Bits(bits) => bits & 0o111 != 0,
        FileMode::Unreadable => false,
        FileMode::Unused => true,
    }
}

/// What the search for a program goes by.
#[derive(Debug)]
pub struct LaunchHost {
    pub platform: Platform,
    pub home: Option<String>,
    pub search_path: Vec<String>,
    pub extensions: Vec<String>,
}

/// The mathematical value of what the search for a program goes by.
#[verifier::ext_equal]
pub struct HostModel {
    pub platform: Platform,
    pub home: Option<Seq<char>>,
    pub search_path: Seq<Seq<char>>,
    pub extensions: Seq<Seq<char>>,
}

impl View for LaunchHost {
    type V = HostModel;

    open spec fn view(&self) -> HostModel {
        HostModel {
            platform: self.platform,
            home: text_opt(self.home),
            search_path: texts(self.search_path@),
            extensions: texts(self.extensions@),
        }
    }
}

/// Whether a program is given by a path and not by a bare name.
pub open spec fn is_explicit(program: Seq<char>) -> bool {
    ||| program.contains('/')
    ||| program.contains('\\')
    ||| program.len() > 0 && program[0] == '~'
}

/// The paths under which a bare name is looked for, directory by directory.
pub open spec fn search_candidates(host: HostModel, dirs: Seq<Seq<char>>, program: Seq<char>) -> Seq<
    Seq<char>,
>
    decreases dirs.len(),
{
    if dirs.len() == 0 {
        Seq::empty()
    } else {
        search_candidates(host, dirs.drop_last(), program) + candidates_in(
            host.platform,
            dirs.last(),
            program,
            host.extensions,
        )
    }
}

/// The paths at which a program may be, in the order in which they are tried.
pub open spec fn program_places(host: HostModel, program: Seq<char>) -> Seq<Seq<char>> {
    if is_explicit(program) {
        seq![tilde_expanded(program, host.home)]
    } else {
        search_candidates(host, host.search_path, program)
    }
}

fn explicit(program: &str) -> (r: bool)
    ensures
        r == is_explicit(program@),
{
    let chars = chars_of(program);
    if chars.len() > 0 && chars[0] == '~' {
        return true;
    }
    let mut i: usize = 0;
    while i < chars.len()
        invariant
            chars@ == program@,
            i <= chars@.len(),
            forall|j: int| 0 <= j < i ==> chars@[j] != '/' && chars@[j] != '\\',
        decreases chars@.len() - i,
    {
        if chars[i] == '/' || chars[i] == '\\' {
            assert(program@[i as int] == chars@[i as int]);
            return true;
        }
        i += 1;
    }
    false
}

/// The paths at which the program may be, in the order in which they are
/// tried.
pub fn places_of_program(host: &LaunchHost, program: &str) -> (places: Vec<String>)
    ensures
        texts(places@) == program_places(host@, program@),
{
    let mut places: Vec<String> = Vec::new();
    assert(texts(places@) =~= Seq::empty());
    if explicit(program) {
        let home = borrowed(&host.home);
        push_text(&mut places, expand_tilde(program, home));
        assert(texts(places@) =~= program_places(host@, program@));
        return places;
    }
    let ghost dirs = texts(host.search_path@);
    let mut i: usize = 0;
    assert(dirs.take(0) =~= Seq::empty());
    while i < host.search_path.len()
        invariant
            i <= host.search_path@.len(),
            dirs == texts(host.search_path@),
            texts(places@) == search_candidates(host@, dirs.take(i as int), program@),
        decreases host.search_path@.len() - i,
    {
        let mut found = program_candidates(
            host.platform,
            host.search_path[i].as_str(),
            program,
            &host.extensions,
        );
        let ghost before = places@;
        let ghost added = found@;
        places.append(&mut found);
        proof {
            assert(texts(places@) =~= texts(before) + texts(added));
            assert(dirs.take(i + 1).drop_last() == dirs.take(i as int));
            assert(dirs.take(i + 1).last() == host.search_path@[i as int]@);
        }
        i += 1;
    }
    assert(dirs.take(dirs.len() as int) == dirs);
    places
}

/// The path at which a launch needs something besides its program: the working
/// directory of a custom command, the identity file of an SSH one.
pub open spec fn extra_place(command: LaunchModel, home: Option<Seq<char>>) -> Option<Seq<char>> {
    match command.spec {
        SpecModel::Custom(custom) => match custom.working_directory {
            Some(dir) => Some(tilde_expanded(dir, home)),
            None => None,
        },
        SpecModel::Ssh(ssh) => match ssh.identity_file {
            Some(identity) => if is_blank(identity) {
                None
            } else {
                Some(tilde_expanded(trim_text(identity), home))
            },
            None => None,
        },
    }
}

/// The paths that have to be looked at before a command is validated.
#[derive(Debug)]
pub struct ValidationPlaces {
    /// Where the program may be.
    pub programs: Vec<String>,
    /// Where the working directory or the identity file should be.
    pub extra: Option<String>,
}

/// The paths that have to be looked at before a command is validated.
pub fn validation_places(command: &QuickLaunch, host: &LaunchHost) -> (places: ValidationPlaces)
    ensures
        texts(places.programs@) == (match command@.spec {
            SpecModel::Custom(custom) => program_places(host@, trim_text(custom.program)),
            SpecModel::Ssh(_) => Seq::empty(),
        }),
        text_opt(places.extra) == extra_place(command@, host@.home),
{
    let home = borrowed(&host.home);
    match &command.spec {
        CommandSpec::Custom { custom } => {
            let extra = match custom.working_directory() {
                Some(dir) => Some(expand_tilde(dir, home)),
                None => None,
            };
            let programs = places_of_program(host, custom.program().trim());
            ValidationPlaces { programs, extra }
        },
        CommandSpec::Ssh { ssh } => {
            let extra = match ssh.identity_file() {
                Some(identity) => {
                    let identity = identity.trim();
                    if identity.unicode_len() == 0 {
                        None
                    } else {
                        Some(expand_tilde(identity, home))
                    }
                },
                None => None,
            };
            let programs: Vec<String> = Vec::new();
            assert(texts(programs@) =~= Seq::empty());
            ValidationPlaces { programs, extra }
        },
    }
}

/// What the filesystem says of the paths of a validation.
#[derive(Debug)]
pub struct ValidationFacts {
    /// One entry for each path at which the program may be.
    pub programs: Vec<PathFacts>,
    /// The working directory or the identity file.
    pub extra: PathFacts,
}

/// What is known of the place of the given number; nothing is at a place of
/// which nothing is known.
pub open spec fn facts_at(facts: Seq<PathFacts>, i: int) -> PathFacts {
    if 0 <= i < facts.len() {
        facts[i]
    } else {
        nothing_there()
    }
}

/// The number of the first place at or after `from` that holds a program.
pub open spec fn first_program(facts: Seq<PathFacts>, from: int, count: int) -> Option<int>
    decreases count - from,
{
    if from >= count {
        None
    } else if is_program(facts_at(facts, from)) {
        Some(from)
    } else {
        first_program(facts, from + 1, count)
    }
}

/// What is wrong with the one path of an explicitly given program.
pub open spec fn program_path_problem(facts: PathFacts, label: Seq<char>) -> Option<Seq<char>> {
    if !facts.exists {
        Some("Program not found: "@ + label)
    } else if facts.is_dir {
        Some("Program is a directory: "@ + label)
    } else if !is_program(facts) {
        Some("Program is not executable: "@ + label)
    } else {
        None
    }
}

/// Where the program is, or what is wrong with it.
pub open spec fn found_program(
    host: HostModel,
    program: Seq<char>,
    facts: Seq<PathFacts>,
) -> Result<Seq<char>, Seq<char>> {
    let places = program_places(host, program);
    if is_explicit(program) {
        match program_path_problem(facts_at(facts, 0), places[0]) {
            Some(problem) => Err(problem),
            None => Ok(places[0]),
        }
    } else {
        match first_program(facts, 0, places.len() as int) {
            Some(i) => Ok(places[i]),
            None => Err("Program not found in PATH: "@ + program),
        }
    }
}

/// Whether a validation failed with the given message.
pub open spec fn fails_with<T>(r: Result<T, QuickLaunchError>, message: Seq<char>) -> bool {
    r is Err && r->Err_0 is Validation && r->Err_0->message@ == message
}

fn facts_or_nothing(facts: &Vec<PathFacts>, i: usize) -> (r: PathFacts)
    ensures
        r == facts_at(facts@, i as int),
{
    if i < facts.len() {
        facts[i]
    } else {
        PathFacts { exists: false, is_dir: false, is_file: false, mode: FileMode::Unused }
    }
}

fn invalid(prefix: &str, label: &str) -> (error: QuickLaunchError)
    ensures
        error is Validation,
        error->message@ == prefix@ + label@,
{
    QuickLaunchError::Validation { message: joined(prefix, label) }
}

/// Check the one path of an explicitly given program.
pub fn validate_program_path(facts: &PathFacts, label: &str) -> (r: Result<(), QuickLaunchError>)
    ensures
        match program_path_problem(*facts, label@) {
            Some(problem) => fails_with(r, problem),
            None => r is Ok,
        },
{
    if !facts.exists {
        return Err(invalid("Program not found: ", label));
    }
    if facts.is_dir {
        return Err(invalid("Program is a directory: ", label));
    }
    if !is_executable_path(facts) {
        return Err(invalid("Program is not executable: ", label));
    }
    Ok(())
}

proof fn lemma_first_program(facts: Seq<PathFacts>, from: int, i: int, count: int)
    requires
        0 <= from <= i <= count,
        forall|j: int| from <= j < i ==> !is_program(#[trigger] facts_at(facts, j)),
    ensures
        first_program(facts, from, count) == first_program(facts, i, count),
    decreases i - from,
{
    if from < i {
        assert(!is_program(facts_at(facts, from)));
        lemma_first_program(facts, from + 1, i, count);
    }
}

/// Find the program: an explicit path has to be one, a bare name is looked for
/// in the search path.
pub fn find_program_path(host: &LaunchHost, program: &str, facts: &Vec<PathFacts>) -> (r: Result<
    String,
    QuickLaunchError,
>)
    ensures
        match found_program(host@, trim_text(program@), facts@) {
            Ok(path) => r is Ok && r->Ok_0@ == path,
            Err(problem) => fails_with(r, problem),
        },
{
    let name = program.trim();
    let mut places = places_of_program(host, name);
    if explicit(name) {
        let path = places.remove(0);
        return match validate_program_path(&facts_or_nothing(facts, 0), path.as_str()) {
            Ok(()) => Ok(path),
            Err(error) => Err(error),
        };
    }
    let ghost all = texts(places@);
    let mut i: usize = 0;
    while i < places.len()
        invariant
            i <= places@.len(),
            all == texts(places@),
            name@ == trim_text(program@),
            all == program_places(host@, name@),
            !is_explicit(name@),
            forall|j: int| 0 <= j < i ==> !is_program(#[trigger] facts_at(facts@, j)),
        decreases places@.len() - i,
    {
        if is_executable_path(&facts_or_nothing(facts, i)) {
            proof {
                lemma_first_program(facts@, 0, i as int, all.len() as int);
            }
            return Ok(places[i].clone());
        }
        i += 1;
    }
    proof {
        lemma_first_program(facts@, 0, all.len() as int, all.len() as int);
    }
    Err(invalid("Program not found in PATH: ", name))
}

/// What is wrong with a command, given what the filesystem says.
pub open spec fn command_problem(
    command: LaunchModel,
    host: HostModel,
    programs: Seq<PathFacts>,
    extra: PathFacts,
) -> Option<Seq<char>> {
    match command.spec {
        SpecModel::Custom(custom) => if is_blank(custom.program) {
            Some("Program path is empty."@)
        } else {
            match found_program(host, trim_text(custom.program), programs) {
                Err(problem) => Some(problem),
                Ok(_) => match extra_place(command, host.home) {
                    None => None,
                    Some(dir) => if !extra.exists {
                        Some("Working directory not found: "@ + dir)
                    } else if !extra.is_dir {
                        Some("Working directory is not a directory: "@ + dir)
                    } else {
                        None
                    },
                },
            }
        },
        SpecModel::Ssh(ssh) => if is_blank(ssh.host) {
            Some("SSH host is empty."@)
        } else if ssh.port == 0 {
            Some("SSH port must be greater than 0."@)
        } else {
            match extra_place(command, host.home) {
                None => None,
                Some(path) => if !extra.exists {
                    Some("Identity file not found: "@ + path)
                } else if !extra.is_file {
                    Some("Identity file is not a file: "@ + path)
                } else {
                    None
                },
            }
        },
    }
}

fn validate_custom_runtime(
    custom: &CustomCommand,
    extra: &Option<String>,
    host: &LaunchHost,
    facts: &ValidationFacts,
) -> (r: Result<(), QuickLaunchError>)
    ensures
        match found_program(host@, trim_text(custom@.program), facts.programs@) {
            Err(problem) => fails_with(r, problem),
            Ok(_) => match *extra {
                None => r is Ok,
                Some(dir) => if !facts.extra.exists {
                    fails_with(r, "Working directory not found: "@ + dir@)
                } else if !facts.extra.is_dir {
                    fails_with(r, "Working directory is not a directory: "@ + dir@)
                } else {
                    r is Ok
                },
            },
        },
{
    proof {
        trim_idempotent(custom@.program);
    }
    match find_program_path(host, custom.program().trim(), &facts.programs) {
        Ok(_) => {},
        Err(error) => return Err(error),
    }
    if let Some(dir) = extra {
        if !facts.extra.exists {
            return Err(invalid("Working directory not found: ", dir.as_str()));
        }
        if !facts.extra.is_dir {
            return Err(invalid("Working directory is not a directory: ", dir.as_str()));
        }
    }
    Ok(())
}

fn validate_ssh_runtime(extra: &Option<String>, facts: &ValidationFacts) -> (r: Result<
    (),
    QuickLaunchError,
>)
    ensures
        match *extra {
            None => r is Ok,
            Some(path) => if !facts.extra.exists {
                fails_with(r, "Identity file not found: "@ + path@)
            } else if !facts.extra.is_file {
                fails_with(r, "Identity file is not a file: "@ + path@)
            } else {
                r is Ok
            },
        },
{
    if let Some(path) = extra {
        if !facts.extra.exists {
            return Err(invalid("Identity file not found: ", path.as_str()));
        }
        if !facts.extra.is_file {
            return Err(invalid("Identity file is not a file: ", path.as_str()));
        }
    }
    Ok(())
}

fn plain_problem(message: &str) -> (error: QuickLaunchError)
    ensures
        error is Validation,
        error->message@ == message@,
{
    QuickLaunchError::Validation { message: message.to_string() }
}

/// Validate a command before it is run, given what the filesystem says of the
/// paths that `validation_places` names.
pub fn validate_command(command: &QuickLaunch, host: &LaunchHost, facts: &ValidationFacts) -> (r:
    Result<(), QuickLaunchError>)
    ensures
        match command_problem(command@, host@, facts.programs@, facts.extra) {
            Some(problem) => fails_with(r, problem),
            None => r is Ok,
        },
{
    let extra = validation_places(command, host).extra;
    match &command.spec {
        CommandSpec::Custom { custom } => {
            if custom.program().trim().unicode_len() == 0 {
                return Err(plain_problem("Program path is empty."));
            }
            validate_custom_runtime(custom, &extra, host, facts)
        },
        CommandSpec::Ssh { ssh } => {
            if ssh.host().trim().unicode_len() == 0 {
                return Err(plain_problem("SSH host is empty."));
            }
            if ssh.port() == 0 {
                return Err(plain_problem("SSH port must be greater than 0."));
            }
            validate_ssh_runtime(&extra, facts)
        },
    }
}

} // verus!
