use std::path::Path;
use std::sync::atomic::AtomicBool;
use std::sync::Arc;

use otty::paths::Platform;
use otty::pty::session::Span;
use otty::pty::ssh::SSHAuth;
use otty::quick_launch::errors::{QuickLaunchError, QuickLaunchWizardError};
use otty::quick_launch::services::{
    build_command, executable_extensions, find_program_path, program_candidates,
    validate_command, validation_places, FileMode, LaunchHost, PathFacts, ValidationFacts,
};
use otty::quick_launch::setup::{
    command_session, default_identity_file_in, default_identity_places,
    prepare_quick_launch_setup, probe_builder, ssh_session, QuickLaunchSetupOutcome, SetupEvent,
    SetupNext, SetupStage, SshDefaults,
};
use otty::quick_launch::state::QuickLaunchState;
use otty::quick_launch::types::{
    CommandSpec, CustomCommand, EnvVar, QuickLaunch, QuickLaunchType, SshCommand,
    SSH_DEFAULT_PORT,
};
use otty::quick_launch::wizard::{WizardEditorState, WizardState};
use otty::session_options::{SessionKind, Settings};

fn facts_of(path: &str) -> PathFacts {
    let path = Path::new(path);
    PathFacts {
        exists: path.exists(),
        is_dir: path.is_dir(),
        is_file: path.is_file(),
        mode: FileMode::Unused,
    }
}

fn host() -> LaunchHost {
    LaunchHost {
        platform: Platform::Unix,
        home: Some(String::from("/root")),
        search_path: vec![String::from("/usr/bin"), String::from("/bin")],
        extensions: Vec::new(),
    }
}

fn validate_here(command: &QuickLaunch) -> Result<(), QuickLaunchError> {
    let host = host();
    let places = validation_places(command, &host);
    let facts = ValidationFacts {
        programs: places.programs.iter().map(|p| facts_of(p)).collect(),
        extra: facts_of(places.extra.as_deref().unwrap_or("")),
    };
    validate_command(command, &host, &facts)
}

fn custom(program: &str) -> QuickLaunch {
    QuickLaunch {
        title: String::from("Custom"),
        spec: CommandSpec::Custom {
            custom: CustomCommand {
                program: String::from(program),
                args: Vec::new(),
                env: Vec::new(),
                working_directory: None,
            },
        },
    }
}

fn ssh_command(host: &str, port: u16) -> SshCommand {
    SshCommand {
        host: String::from(host),
        port,
        user: None,
        identity_file: None,
        extra_args: Vec::new(),
    }
}

fn message_of(result: Result<(), QuickLaunchError>) -> String {
    match result {
        Err(error) => error.text(),
        Ok(()) => panic!("expected an error"),
    }
}

fn no_defaults() -> SshDefaults {
    SshDefaults { user: None, username: None, identity_file: None }
}

#[test]
fn given_empty_program_when_validating_then_error_returned() {
    let cmd = QuickLaunch {
        title: String::from("Bad"),
        spec: CommandSpec::Custom {
            custom: CustomCommand {
                program: String::new(),
                args: Vec::new(),
                env: Vec::new(),
                working_directory: None,
            },
        },
    };
    assert!(validate_here(&cmd).is_err());
    assert_eq!(message_of(validate_here(&cmd)), "Program path is empty.");
}

#[test]
fn given_valid_custom_command_when_validating_then_ok() {
    let cmd = QuickLaunch {
        title: String::from("Good"),
        spec: CommandSpec::Custom {
            custom: CustomCommand {
                program: String::from("bash"),
                args: Vec::new(),
                env: Vec::new(),
                working_directory: None,
            },
        },
    };
    assert!(validate_here(&cmd).is_ok());
}

#[test]
fn given_empty_ssh_host_when_validating_then_error_returned() {
    let cmd = QuickLaunch {
        title: String::from("SSH"),
        spec: CommandSpec::Ssh {
            ssh: SshCommand {
                host: String::new(),
                port: 22,
                user: None,
                identity_file: None,
                extra_args: Vec::new(),
            },
        },
    };
    assert!(validate_here(&cmd).is_err());
}

#[test]
fn given_missing_program_when_validating_then_error_returned() {
    let cmd = QuickLaunch {
        title: String::from("Missing"),
        spec: CommandSpec::Custom {
            custom: CustomCommand {
                program: String::from("otty-v3-test-bin-does-not-exist"),
                args: Vec::new(),
                env: Vec::new(),
                working_directory: None,
            },
        },
    };

    assert!(validate_here(&cmd).is_err());
    assert_eq!(
        message_of(validate_here(&cmd)),
        "Program not found in PATH: otty-v3-test-bin-does-not-exist"
    );
}

#[test]
fn given_custom_command_when_prepared_then_settings_use_saved_program() {
    let command = QuickLaunch {
        title: String::from("Run htop"),
        spec: CommandSpec::Custom {
            custom: CustomCommand {
                program: String::from("htop"),
                args: vec![String::from("--sort-key"), String::from("PERCENT_CPU")],
                env: Vec::new(),
                working_directory: None,
            },
        },
    };

    let cancel = Arc::new(AtomicBool::new(false));
    let session = command_session(&command, &cancel, &no_defaults());
    let SessionKind::Local(options) = session else {
        panic!("expected local session");
    };
    assert_eq!(options.program(), "htop");
    assert_eq!(
        options.args(),
        &[String::from("--sort-key"), String::from("PERCENT_CPU")]
    );
}

#[test]
fn given_empty_title_when_building_command_then_returns_title_required() {
    let editor = WizardEditorState::new(vec![], QuickLaunchType::Custom);
    let result = build_command(&editor);
    assert!(matches!(result, Err(QuickLaunchWizardError::TitleRequired)));
}

#[test]
fn given_custom_editor_when_building_command_then_returns_custom_launch() {
    let mut editor = WizardEditorState::new(vec![], QuickLaunchType::Custom);
    editor.set_title(String::from("Build"));
    editor.set_program(String::from("cargo"));
    editor.add_arg();
    editor.update_arg(0, String::from("check"));
    editor.add_env();
    editor.update_env_key(0, String::from("RUST_LOG"));
    editor.update_env_value(0, String::from("debug"));
    editor.set_working_directory(String::from("/tmp/project"));

    let quick_launch = build_command(&editor).expect("build should succeed");
    assert_eq!(quick_launch.title(), "Build");
    let CommandSpec::Custom { custom } = &quick_launch.spec else {
        panic!("expected custom command");
    };
    assert_eq!(custom.program(), "cargo");
    assert_eq!(custom.args(), &[String::from("check")]);
    assert_eq!(custom.env().len(), 1);
    assert_eq!(custom.env()[0].key(), "RUST_LOG");
    assert_eq!(custom.env()[0].value(), "debug");
    assert_eq!(custom.working_directory(), Some("/tmp/project"));
}

fn joined(dir: &Path, name: &str) -> String {
    dir.join(name).display().to_string()
}

#[test]
fn given_no_exts_when_program_candidates_then_yields_direct_path_only() {
    let dir = Path::new("/usr/bin");
    let candidates = program_candidates(Platform::Unix, "/usr/bin", "bash", &Vec::new());

    assert_eq!(candidates, vec![joined(dir, "bash")]);
}

#[test]
fn given_exts_and_bare_program_when_program_candidates_then_appends_exts() {
    let dir = Path::new("C:/Windows/System32");
    let exts = vec![String::from(".EXE"), String::from(".BAT")];
    let candidates = program_candidates(Platform::Unix, "C:/Windows/System32", "cmd", &exts);

    assert_eq!(
        candidates,
        vec![joined(dir, "cmd"), joined(dir, "cmd.EXE"), joined(dir, "cmd.BAT"),]
    );
}

#[test]
fn given_program_with_known_ext_when_program_candidates_then_no_double_ext() {
    let dir = Path::new("C:/tools");
    let exts = vec![String::from(".exe"), String::from(".bat")];
    let candidates = program_candidates(Platform::Unix, "C:/tools", "pwsh.EXE", &exts);

    assert_eq!(candidates, vec![joined(dir, "pwsh.EXE")]);
}

#[test]
fn given_program_with_unknown_ext_when_program_candidates_then_appends_exts() {
    let dir = Path::new("C:/tools");
    let exts = vec![String::from(".COM"), String::from(".EXE")];
    let candidates = program_candidates(Platform::Unix, "C:/tools", "script.sh", &exts);

    assert_eq!(
        candidates,
        vec![
            joined(dir, "script.sh"),
            joined(dir, "script.sh.COM"),
            joined(dir, "script.sh.EXE"),
        ]
    );
}

#[test]
fn candidates_on_windows_use_its_separator() {
    let exts = vec![String::from(".EXE")];
    assert_eq!(
        program_candidates(Platform::Windows, "C:\\tools", "pwsh", &exts),
        vec![String::from("C:\\tools\\pwsh"), String::from("C:\\tools\\pwsh.EXE")]
    );
}

#[test]
fn given_multiple_default_identities_when_probing_then_openssh_order_wins() {
    let probed =
        default_identity_file_in(Platform::Unix, "/home/u/.ssh", &vec![true, false, true, false]);
    assert_eq!(probed, Some(String::from("/home/u/.ssh/id_rsa")));
}

#[test]
fn given_only_ed25519_when_probing_then_it_is_returned() {
    let probed =
        default_identity_file_in(Platform::Unix, "/home/u/.ssh", &vec![false, false, true, false]);
    assert_eq!(probed, Some(String::from("/home/u/.ssh/id_ed25519")));
}

#[test]
fn given_empty_ssh_dir_when_probing_then_none_returned() {
    let probed = default_identity_file_in(
        Platform::Unix,
        "/home/u/.ssh",
        &vec![false, false, false, false],
    );
    assert_eq!(probed, None);
}

#[test]
fn given_identity_as_directory_when_probing_then_it_is_skipped() {
    let places = default_identity_places(Platform::Unix, "/keys/");
    assert_eq!(
        places,
        vec![
            String::from("/keys/id_rsa"),
            String::from("/keys/id_ecdsa"),
            String::from("/keys/id_ed25519"),
            String::from("/keys/id_dsa"),
        ]
    );
    // A directory is no file.
    let probed =
        default_identity_file_in(Platform::Unix, "/keys/", &vec![false, true, false, false]);
    assert_eq!(probed, Some(String::from("/keys/id_ecdsa")));
}

#[test]
fn given_invalid_ssh_port_when_building_command_then_returns_error() {
    let mut editor = WizardEditorState::new(vec![], QuickLaunchType::Custom);
    editor.set_title(String::from("SSH"));
    editor.set_command_type(QuickLaunchType::Ssh);
    editor.set_host(String::from("example.com"));
    editor.set_port(String::from("not-a-port"));

    let result = build_command(&editor);
    assert!(matches!(result, Err(QuickLaunchWizardError::InvalidPort)));
}

#[test]
fn given_default_state_when_created_then_not_dirty() {
    let state = QuickLaunchState::default();
    assert!(!state.is_dirty());
    assert!(!state.is_persist_in_flight());
}

#[test]
fn given_create_editor_when_switching_command_type_then_options_reset() {
    let mut editor = WizardEditorState::new(vec![], QuickLaunchType::Custom);
    editor.set_program(String::from("bash"));
    editor.set_command_type(QuickLaunchType::Ssh);
    assert_eq!(editor.command_type(), QuickLaunchType::Ssh);
    assert!(editor.custom().is_none());
    let ssh = editor.ssh().expect("ssh options should exist");
    assert_eq!(ssh.port(), SSH_DEFAULT_PORT.to_string());
}

#[test]
fn given_ssh_type_when_initialize_create_then_editor_is_ssh() {
    let mut state = WizardState::default();
    state.initialize_create(1, vec![], QuickLaunchType::Ssh);

    let editor = state.editor(1).expect("editor should exist");
    assert_eq!(editor.command_type(), QuickLaunchType::Ssh);
    assert!(editor.ssh().is_some());
    assert!(editor.is_create_mode());
}

#[test]
fn given_custom_type_when_initialize_create_then_editor_is_custom() {
    let mut state = WizardState::default();
    state.initialize_create(1, vec![], QuickLaunchType::Custom);

    let editor = state.editor(1).expect("editor should exist");
    assert_eq!(editor.command_type(), QuickLaunchType::Custom);
    assert!(editor.custom().is_some());
}

#[test]
fn each_problem_with_a_draft_has_its_error() {
    let mut editor = WizardEditorState::new(vec![], QuickLaunchType::Custom);
    editor.set_title(String::from(" \u{3000}\t"));
    assert!(matches!(build_command(&editor), Err(QuickLaunchWizardError::TitleRequired)));
    editor.set_title(String::from("T"));
    assert!(matches!(build_command(&editor), Err(QuickLaunchWizardError::ProgramRequired)));
    editor.set_command_type(QuickLaunchType::Ssh);
    assert!(matches!(build_command(&editor), Err(QuickLaunchWizardError::HostRequired)));
    editor.set_host(String::from(" example.com "));
    for bad in ["65536", "-1", "+", "2 2", "22x", "٢٢"] {
        editor.set_port(String::from(bad));
        assert!(matches!(build_command(&editor), Err(QuickLaunchWizardError::InvalidPort)));
    }
    for (text, port) in [("", 22), ("  ", 22), ("+65535", 65535), (" 0080 ", 80), ("0", 0)] {
        editor.set_port(String::from(text));
        let command = build_command(&editor).expect("port should be accepted");
        let CommandSpec::Ssh { ssh } = &command.spec else {
            panic!("expected ssh command");
        };
        assert_eq!(ssh.port(), port);
        assert_eq!(ssh.host(), "example.com");
        assert_eq!(ssh.user(), None);
    }
}

#[test]
fn blank_variables_and_directories_are_dropped() {
    let mut editor = WizardEditorState::new(vec![], QuickLaunchType::Custom);
    editor.set_title(String::from("  Build  "));
    editor.set_program(String::from(" cargo "));
    editor.set_working_directory(String::from("   "));
    for (i, (key, value)) in [(" A ", " 1 "), ("  ", "lost"), ("B", "")].iter().enumerate() {
        editor.add_env();
        editor.update_env_key(i, String::from(*key));
        editor.update_env_value(i, String::from(*value));
    }
    let command = build_command(&editor).expect("build should succeed");
    assert_eq!(command.title(), "Build");
    let CommandSpec::Custom { custom } = &command.spec else {
        panic!("expected custom command");
    };
    assert_eq!(custom.program(), "cargo");
    assert_eq!(custom.working_directory(), None);
    let env: Vec<(&str, &str)> = custom.env().iter().map(|e| (e.key(), e.value())).collect();
    assert_eq!(env, vec![("A", " 1 "), ("B", "")]);
}

#[test]
fn editing_and_saving_gives_the_command_back() {
    let command = QuickLaunch {
        title: String::from("Box"),
        spec: CommandSpec::Ssh {
            ssh: SshCommand {
                host: String::from("box.example"),
                port: 2022,
                user: Some(String::from("me")),
                identity_file: None,
                extra_args: vec![String::from("-v")],
            },
        },
    };
    let editor = WizardEditorState::from_command(vec![String::from("Box")], &command);
    assert_eq!(editor.ssh().expect("ssh draft").port(), "2022");
    let again = build_command(&editor).expect("build should succeed");
    assert_eq!(again.title(), "Box");
    let CommandSpec::Ssh { ssh } = &again.spec else {
        panic!("expected ssh command");
    };
    assert_eq!((ssh.host(), ssh.port(), ssh.user()), ("box.example", 2022, Some("me")));
    assert_eq!(ssh.identity_file(), None);
    assert_eq!(ssh.extra_args(), &[String::from("-v")]);

    let custom = QuickLaunch {
        title: String::from("Env"),
        spec: CommandSpec::Custom {
            custom: CustomCommand {
                program: String::from("env"),
                args: vec![String::from(" spaced ")],
                env: vec![EnvVar { key: String::from("K"), value: String::from(" v ") }],
                working_directory: Some(String::from("/srv")),
            },
        },
    };
    let editor = WizardEditorState::from_command(vec![], &custom);
    let again = build_command(&editor).expect("build should succeed");
    let CommandSpec::Custom { custom } = &again.spec else {
        panic!("expected custom command");
    };
    assert_eq!(custom.args(), &[String::from(" spaced ")]);
    assert_eq!(custom.env()[0].value(), " v ");
    assert_eq!(custom.working_directory(), Some("/srv"));
}

#[test]
fn explicit_programs_are_judged_by_their_path() {
    let host = host();
    let missing = PathFacts { exists: false, is_dir: false, is_file: false, mode: FileMode::Unused };
    let directory = PathFacts { exists: true, is_dir: true, is_file: false, mode: FileMode::Unused };
    let plain =
        PathFacts { exists: true, is_dir: false, is_file: true, mode: FileMode::Bits(0o644) };
    let tool =
        PathFacts { exists: true, is_dir: false, is_file: true, mode: FileMode::Bits(0o010) };
    let unreadable =
        PathFacts { exists: true, is_dir: false, is_file: true, mode: FileMode::Unreadable };
    let texts: Vec<String> = [missing, directory, plain, unreadable]
        .iter()
        .map(|facts| {
            find_program_path(&host, " ~/tool ", &vec![*facts])
                .expect_err("should be refused")
                .text()
        })
        .collect();
    assert_eq!(
        texts,
        vec![
            "Program not found: /root/tool",
            "Program is a directory: /root/tool",
            "Program is not executable: /root/tool",
            "Program is not executable: /root/tool",
        ]
    );
    assert_eq!(
        find_program_path(&host, "~/tool", &vec![tool]).expect("should be found"),
        "/root/tool"
    );
    assert_eq!(
        find_program_path(&host, "./a\\b", &vec![tool]).expect("should be found"),
        "./a\\b"
    );
    // The second directory of the search path has it.
    assert_eq!(
        find_program_path(&host, "sh", &vec![plain, tool]).expect("should be found"),
        "/bin/sh"
    );
    // Nothing is at a place of which nothing is known.
    assert!(find_program_path(&host, "sh", &Vec::new()).is_err());
}

#[test]
fn working_directory_and_identity_file_are_checked() {
    let host = host();
    let found = PathFacts { exists: true, is_dir: false, is_file: true, mode: FileMode::Unused };
    let missing = PathFacts { exists: false, is_dir: false, is_file: false, mode: FileMode::Unused };
    let mut command = custom("sh");
    if let CommandSpec::Custom { custom } = &mut command.spec {
        custom.working_directory = Some(String::from("~"));
    }
    assert_eq!(validation_places(&command, &host).extra, Some(String::from("/root")));
    let facts = ValidationFacts { programs: vec![found], extra: missing };
    assert_eq!(
        message_of(validate_command(&command, &host, &facts)),
        "Working directory not found: /root"
    );
    let facts = ValidationFacts { programs: vec![found], extra: found };
    assert_eq!(
        message_of(validate_command(&command, &host, &facts)),
        "Working directory is not a directory: /root"
    );

    let mut ssh = ssh_command("h", 22);
    ssh.identity_file = Some(String::from(" ~/.ssh/key "));
    let command = QuickLaunch { title: String::from("S"), spec: CommandSpec::Ssh { ssh } };
    let facts = ValidationFacts { programs: Vec::new(), extra: missing };
    assert_eq!(
        message_of(validate_command(&command, &host, &facts)),
        "Identity file not found: /root/.ssh/key"
    );
    let directory = PathFacts { exists: true, is_dir: true, is_file: false, mode: FileMode::Unused };
    let facts = ValidationFacts { programs: Vec::new(), extra: directory };
    assert_eq!(
        message_of(validate_command(&command, &host, &facts)),
        "Identity file is not a file: /root/.ssh/key"
    );
    let facts = ValidationFacts { programs: Vec::new(), extra: found };
    assert!(validate_command(&command, &host, &facts).is_ok());

    let zero = QuickLaunch {
        title: String::from("S"),
        spec: CommandSpec::Ssh { ssh: ssh_command("h", 0) },
    };
    assert_eq!(
        message_of(validate_command(&zero, &host, &facts)),
        "SSH port must be greater than 0."
    );
}

#[test]
fn extensions_come_from_the_environment_on_windows() {
    assert!(executable_extensions(Platform::Unix, Some(".EXE")).is_empty());
    assert_eq!(
        executable_extensions(Platform::Windows, None),
        vec![".COM", ".EXE", ".BAT", ".CMD"]
    );
    assert_eq!(
        executable_extensions(Platform::Windows, Some(";.EXE;;.PY;")),
        vec![".EXE", ".PY"]
    );
    assert!(executable_extensions(Platform::Windows, Some("")).is_empty());
}

#[test]
fn ssh_session_takes_defaults_where_the_command_is_silent() {
    let cancel = Arc::new(AtomicBool::new(false));
    let mut ssh = ssh_command("example.com", 2222);
    let defaults = SshDefaults {
        user: None,
        username: Some(String::from("winuser")),
        identity_file: Some(String::from("/home/u/.ssh/id_rsa")),
    };
    let options = ssh_session(&ssh, &cancel, &defaults);
    assert_eq!(options.host(), "example.com:2222");
    assert_eq!(options.user(), "winuser");
    assert!(matches!(
        options.auth(),
        SSHAuth::KeyFile { private_key_path, passphrase: None } if private_key_path == "/home/u/.ssh/id_rsa"
    ));
    assert_eq!(options.timeout(), Some(Span { nanos: 15_000_000_000 }));
    assert!(Arc::ptr_eq(&options.cancel_token().expect("token"), &cancel));

    ssh.user = Some(String::from("  "));
    ssh.identity_file = Some(String::from(" /key "));
    let options = ssh_session(&ssh, &cancel, &no_defaults());
    assert_eq!(options.user(), "");
    assert!(matches!(
        options.auth(),
        SSHAuth::KeyFile { private_key_path, .. } if private_key_path == " /key "
    ));
    let bare = ssh_session(&ssh_command("h", 22), &cancel, &no_defaults());
    assert!(matches!(bare.auth(), SSHAuth::Password(p) if p.is_empty()));

    let target = probe_builder(&options).into_parts();
    assert_eq!(target.host, "example.com:2222");
    assert_eq!(target.timeout, Some(Span { nanos: 15_000_000_000 }));
    assert!(Arc::ptr_eq(&target.cancel.expect("token"), &cancel));
}

fn advance(next: SetupNext, event: SetupEvent) -> SetupNext {
    match next {
        SetupNext::Continue(run) => run.step(event),
        SetupNext::Finished(_) => panic!("the preparation is over"),
    }
}

#[test]
fn preparation_asks_validates_and_probes_in_turn() {
    let cancel = Arc::new(AtomicBool::new(false));
    let command = QuickLaunch {
        title: String::from("S"),
        spec: CommandSpec::Ssh { ssh: ssh_command("h", 22) },
    };
    let start = |command: &QuickLaunch| {
        SetupNext::Continue(prepare_quick_launch_setup(
            command.clone(),
            vec![String::from("S")],
            7,
            Settings::default(),
            cancel.clone(),
            no_defaults(),
        ))
    };
    let asked = advance(start(&command), SetupEvent::Asked(false));
    let validated = advance(asked, SetupEvent::Validated(Ok(())));
    let probing = advance(validated, SetupEvent::Asked(false));
    assert!(matches!(&probing, SetupNext::Continue(run) if run.stage == SetupStage::Probe));
    let probed = advance(probing, SetupEvent::Probed(Ok(())));
    let done = advance(probed, SetupEvent::Asked(false));
    let SetupNext::Finished(QuickLaunchSetupOutcome::Prepared(launch)) = done else {
        panic!("expected a prepared launch");
    };
    assert_eq!(launch.title, "S");
    assert_eq!(launch.launch_id, 7);
    assert!(matches!(&launch.settings.session, SessionKind::Ssh(o) if o.host() == "h:22"));

    // A custom command is not probed.
    let local = custom("sh");
    let asked = advance(start(&local), SetupEvent::Asked(false));
    let validated = advance(asked, SetupEvent::Validated(Ok(())));
    let last = advance(validated, SetupEvent::Asked(false));
    assert!(matches!(&last, SetupNext::Continue(run) if run.stage == SetupStage::AskLast));
    let canceled = advance(last, SetupEvent::Asked(true));
    assert!(matches!(
        canceled,
        SetupNext::Finished(QuickLaunchSetupOutcome::Canceled { launch_id: 7, .. })
    ));

    let asked = advance(start(&command), SetupEvent::Asked(false));
    let validated = advance(asked, SetupEvent::Validated(Ok(())));
    let probing = advance(validated, SetupEvent::Asked(false));
    let failed = advance(probing, SetupEvent::Probed(Err(String::from("refused"))));
    assert!(matches!(
        failed,
        SetupNext::Finished(QuickLaunchSetupOutcome::Failed { error, .. })
            if error.text() == "SSH connection failed: refused"
    ));
    let asked = advance(start(&command), SetupEvent::Asked(false));
    let failed = advance(
        asked,
        SetupEvent::Validated(Err(QuickLaunchError::Validation { message: String::from("no") })),
    );
    assert!(matches!(
        failed,
        SetupNext::Finished(QuickLaunchSetupOutcome::Failed { error, .. }) if error.text() == "no"
    ));
}

#[test]
fn names_that_stand_for_themselves_are_not_looked_up() {
    let none: Vec<String> = Vec::new();
    assert_eq!(
        program_candidates(Platform::Unix, "/usr/bin", "/bin/sh", &none),
        vec![Path::new("/usr/bin").join("/bin/sh").display().to_string()]
    );
    let windows = |dir: &str, name: &str| {
        program_candidates(Platform::Windows, dir, name, &Vec::new()).remove(0)
    };
    assert_eq!(windows("C:\\tools", "D:x.exe"), "D:x.exe");
    assert_eq!(windows("C:\\tools", "\\\\host\\share\\x"), "\\\\host\\share\\x");
    assert_eq!(windows("C:\\tools", "\\x"), "C:\\x");
    assert_eq!(windows("tools", "/x"), "/x");
    assert_eq!(windows("\\\\host\\share\\tools", "\\x"), "\\\\host\\share\\x");
    assert_eq!(windows("\\\\host\\share", "x"), "\\\\host\\share\\x");
    assert_eq!(windows("C:\\tools", "\\\\x"), "C:\\\\x");
    assert_eq!(windows("C:\\tools", "\\\\host\\"), "C:\\\\host\\");
    assert_eq!(windows("C:", "x"), "C:x");
    assert_eq!(windows("C:\\", "x"), "C:\\x");
}

#[test]
fn paths_that_are_read_as_they_stand_keep_what_they_are_on() {
    let windows = |dir: &str, name: &str| {
        program_candidates(Platform::Windows, dir, name, &Vec::new()).remove(0)
    };
    for name in [r"\\?\", r"\\?\x", r"\\?\C:\x", r"\\?\UNC\host\share", r"\\.\", r"//./COM1"] {
        assert_eq!(windows(r"C:\tools", name), name);
    }
    assert_eq!(windows(r"C:\tools", r"\\."), r"C:\\.");
    assert_eq!(windows(r"\\?\UNC\host\share\tools", r"\x"), r"\\?\UNC\host\share\x");
    assert_eq!(windows(r"\\?\UNC\host\share", "x"), r"\\?\UNC\host\share\x");
    assert_eq!(windows(r"\\?\UNC\host\", "x"), r"\\?\UNC\host\x");
    assert_eq!(windows(r"\\?\UNC", r"\"), r"\\?\UNC\");
    assert_eq!(windows(r"\\?\C:\tools", "/x"), r"\\?\C:\x");
    assert_eq!(windows(r"\\?\C:\tools", "x/y"), r"\\?\C:\tools\x\y");
    assert_eq!(windows(r"\\?\C:", "x"), r"\\?\C:\x");
    assert_eq!(windows(r"\\?\C:/a/b\c", "x"), r"\\?\C:\a/b\c\x");
    assert_eq!(windows(r"\\?\C:x\y", r"\z"), r"\\?\C:x\z");
    assert_eq!(windows(r"\\?\C:\a\b", r".\..\x\.\y"), r"\\?\C:\a\x\y");
    assert_eq!(windows(r"\\?\C:\a", r"..\.."), r"\\?\C:\");
    assert_eq!(windows(r"\\?\C:\a\.", r"..\x"), r"\\?\C:\a\.\x");
    assert_eq!(windows(r"\\?\C:", ".."), r"\\?\C:");
    assert_eq!(windows(r"\\?\C:\a\\b\", "x"), r"\\?\C:\a\b\x");
    assert_eq!(windows(r"\\?\C:\a", ""), r"\\?\C:\a\");
    assert_eq!(windows(r"\\.\COM1\a", r"\x"), r"\\.\COM1\x");
    assert_eq!(windows(r"\\.\COM1\a", r"..\x"), r"\\.\COM1\a\..\x");
    assert_eq!(windows("//?/C:/a", "/x"), "//?/C:/x");
}
