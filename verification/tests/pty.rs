use std::sync::atomic::AtomicBool;
use std::sync::Arc;

use otty::paths::Platform;
use otty::pty::local::local;
use otty::pty::session::{
    exit_status_from_code, ExitStatus, IoError, IoErrorKind, PtySize, SessionError, Span,
    SshError, SshErrorCode,
};
use otty::pty::ssh::{
    channel_read, channel_write, check_cancel, check_timeout, close_code, close_step,
    connect_first, connect_next, connect_ready, connect_wait, is_canceled, is_would_block,
    next_stage, pty_request, ssh, stage_name, ChannelRead, ChannelWrite, ConnectNext, ExitRecord,
    PtyRequest, Readiness, Retry, RetryableExecutor, SSHAuth, SpawnStage, StepOutcome,
};
use otty::pty::ssh::StepOutcome::{Authenticated, Done, Failed, Identities};

fn io_error(kind: IoErrorKind) -> IoError {
    IoError { kind, raw_os_error: None, message: String::from("io") }
}

fn ssh_error(code: i32) -> SshError {
    SshError { code: SshErrorCode::Session(code), message: String::from("ssh") }
}

#[test]
fn windows_local_session_reports_unsupported() {
    let err = match local("cmd.exe").spawn() {
        Ok(_) => panic!("local sessions must not spawn on Windows yet"),
        Err(err) => err,
    };

    match err {
        SessionError::Internal(message) => {
            assert!(
                message.contains("Windows"),
                "error should name the platform: {message}"
            );
            assert!(
                message.contains("SSH"),
                "error should point to the SSH alternative: {message}"
            );
        },
        other => panic!("expected SessionError::Internal, got {other:?}"),
    }
}

#[test]
fn windows_builder_accepts_full_option_chain() {
    let result = local("cmd.exe")
        .with_arg("/c")
        .with_args(&[String::from("echo"), String::from("hi")])
        .with_env("OTTY_TEST", "1")
        .with_env_remove("OTTY_TEST")
        .with_size(PtySize::default())
        .with_cwd("C:\\")
        .set_controling_tty_enable()
        .spawn();

    assert!(matches!(result, Err(SessionError::Internal(_))));
}

#[test]
fn ssh_builder_keeps_what_it_is_given() {
    let cancel = Arc::new(AtomicBool::new(false));
    let size = PtySize { rows: 30, cols: 100, cell_width: 8, cell_height: 16 };
    let target = ssh()
        .with_host("h:22")
        .with_user("me")
        .with_auth(SSHAuth::Password(String::from("pw")))
        .with_size(size)
        .with_timeout(Span::from_millis(1500))
        .with_cancel_token(cancel.clone())
        .into_parts();
    assert_eq!(target.host, "h:22");
    assert_eq!(target.user, "me");
    assert!(matches!(target.auth, SSHAuth::Password(p) if p == "pw"));
    assert_eq!(target.size, size);
    assert_eq!(target.timeout, Some(Span { nanos: 1_500_000_000 }));
    assert!(Arc::ptr_eq(&target.cancel.expect("token"), &cancel));
    assert!(!is_canceled(Some(&cancel)));
    assert!(!is_canceled(None));
    cancel.store(true, std::sync::atomic::Ordering::SeqCst);
    assert!(is_canceled(Some(&cancel)));
    assert!(matches!(ssh().into_parts().auth, SSHAuth::Password(p) if p.is_empty()));
}

#[test]
fn only_eagain_of_the_session_would_block() {
    assert!(is_would_block(&ssh_error(-37)));
    assert!(!is_would_block(&ssh_error(-36)));
    assert!(!is_would_block(&SshError {
        code: SshErrorCode::Sftp(-37),
        message: String::new()
    }));
}

#[test]
fn cancel_comes_before_timeout() {
    assert!(check_cancel(false).is_ok());
    assert!(matches!(check_cancel(true), Err(SessionError::Cancelled)));
    let limit = Some(Span { nanos: 10 });
    assert!(check_timeout(Span { nanos: 9 }, limit, "x").is_ok());
    assert!(matches!(
        check_timeout(Span { nanos: 10 }, limit, "ssh handshake"),
        Err(SessionError::Timeout { step, duration })
            if step == "ssh handshake" && duration == Span { nanos: 10 }
    ));
    assert!(check_timeout(Span { nanos: u128::MAX }, None, "x").is_ok());

    let executor = RetryableExecutor { timeout: limit };
    assert!(matches!(
        executor.before_try(true, Span { nanos: 99 }, "x"),
        Err(SessionError::Cancelled)
    ));
    assert!(matches!(
        executor.before_try(false, Span { nanos: 99 }, "x"),
        Err(SessionError::Timeout { .. })
    ));
    assert!(executor.before_try(false, Span { nanos: 0 }, "x").is_ok());
    assert!(matches!(executor.after_try(Ok(())), Retry::Done));
    assert!(matches!(executor.after_try(Err(ssh_error(-37))), Retry::Again));
    assert!(matches!(
        executor.after_try(Err(ssh_error(-18))),
        Retry::Fail(SessionError::SSH2(_))
    ));
}

#[test]
fn connecting_tries_the_addresses_in_turn() {
    assert!(matches!(connect_first(0), ConnectNext::Fail(SessionError::NoAddresses)));
    assert!(matches!(connect_first(2), ConnectNext::Try(0)));
    assert!(matches!(connect_next(2, 0, Ok(()), None), ConnectNext::Connected));
    let refused = || Err(SessionError::IO(io_error(IoErrorKind::Other)));
    assert!(matches!(connect_next(2, 0, refused(), None), ConnectNext::Try(1)));
    assert!(matches!(
        connect_next(2, 1, refused(), None),
        ConnectNext::Fail(SessionError::Internal(m)) if m == "ssh connect failed"
    ));
    let late = Err(SessionError::Timeout { step: String::from("a"), duration: Span { nanos: 1 } });
    assert!(matches!(
        connect_next(2, 0, late, Some(Span { nanos: 5 })),
        ConnectNext::Fail(SessionError::Timeout { step, duration })
            if step == "tcp connect" && duration == Span { nanos: 5 }
    ));
    assert!(matches!(
        connect_next(2, 0, Err(SessionError::Cancelled), None),
        ConnectNext::Fail(SessionError::Cancelled)
    ));
}

#[test]
fn waits_for_a_connection_are_short() {
    let tick = Span::from_millis(200);
    assert_eq!(connect_wait(None, Span::from_secs(9)), tick);
    assert_eq!(connect_wait(Some(Span::from_secs(15)), Span::from_secs(1)), tick);
    assert_eq!(
        connect_wait(Some(Span::from_millis(1100)), Span::from_secs(1)),
        Span::from_millis(100)
    );
    assert_eq!(connect_wait(Some(Span::from_secs(1)), Span::from_secs(2)), Span { nanos: 0 });
    let event = |token, readable, writable| Readiness { token, readable, writable };
    assert!(!connect_ready(&vec![event(1, true, true), event(0, false, false)]));
    assert!(connect_ready(&vec![event(1, true, true), event(0, false, true)]));
    assert!(connect_ready(&vec![event(0, true, false)]));
}

#[test]
fn pixel_sizes_do_not_overflow() {
    let size = PtySize { rows: 65535, cols: 80, cell_width: 8, cell_height: 65535 };
    assert_eq!(
        pty_request(size),
        PtyRequest {
            cols: 80,
            rows: 65535,
            pixel_width: 640,
            pixel_height: 4294836225
        }
    );
}

fn run_stages(outcomes: Vec<StepOutcome>) -> Result<SpawnStage, SessionError> {
    let mut stage = SpawnStage::Connect;
    for outcome in outcomes {
        stage = next_stage(stage, outcome)?;
    }
    Ok(stage)
}

#[test]
fn a_launch_authenticates_before_it_opens_a_channel() {
    let denied = || Failed(SessionError::SSH2(ssh_error(-18)));
    // The agent's second identity is accepted.
    let stage = run_stages(vec![
        Done, Done, Done, Done, Done, Identities(3), denied(), Done, Authenticated(true),
    ]);
    assert_eq!(stage.expect("agent"), SpawnStage::OpenChannel);
    // No agent: the configured authentication is used.
    let stage = run_stages(vec![Done, Done, denied(), Authenticated(false)]);
    assert_eq!(stage.expect("no agent"), SpawnStage::Authenticate);
    let stage = run_stages(vec![
        Done, Done, denied(), Authenticated(false), Done, Done, Done, Done, Done,
    ]);
    assert_eq!(stage.expect("all the way"), SpawnStage::Ready);
    // An agent without identities, and one whose identities are all denied.
    let stage = run_stages(vec![Done, Done, Done, Done, Done, Identities(0)]);
    assert_eq!(stage.expect("empty agent"), SpawnStage::AskAuthenticated);
    let stage = run_stages(vec![Done, Done, Done, Done, Done, Identities(1), denied()]);
    assert_eq!(stage.expect("denied"), SpawnStage::AskAuthenticated);
    // The configured authentication fails.
    assert!(matches!(
        run_stages(vec![Done, Done, denied(), Authenticated(false), denied()]),
        Err(SessionError::SSH2(_))
    ));
    assert!(run_stages(vec![Done, Failed(SessionError::Cancelled)]).is_err());

    let password = SSHAuth::default();
    let key = SSHAuth::KeyFile { private_key_path: String::from("k"), passphrase: None };
    assert_eq!(stage_name(SpawnStage::Authenticate, &password), "ssh password auth");
    assert_eq!(stage_name(SpawnStage::Authenticate, &key), "ssh key auth");
    assert_eq!(stage_name(SpawnStage::StartShell, &key), "ssh shell");
}

#[test]
fn channel_results_are_told_apart() {
    assert!(matches!(channel_read(Ok(0)), ChannelRead::Eof));
    assert!(matches!(channel_read(Ok(7)), ChannelRead::Bytes(7)));
    assert!(matches!(
        channel_read(Err(io_error(IoErrorKind::WouldBlock))),
        ChannelRead::NotReady
    ));
    assert!(matches!(
        channel_read(Err(io_error(IoErrorKind::Other))),
        ChannelRead::Fail(SessionError::IO(_))
    ));
    assert!(matches!(channel_write(Ok(3)), ChannelWrite::Written(3)));
    assert!(matches!(
        channel_write(Err(io_error(IoErrorKind::WouldBlock))),
        ChannelWrite::NotReady
    ));
    assert!(matches!(
        channel_write(Err(io_error(IoErrorKind::Interrupted))),
        ChannelWrite::Fail(SessionError::IO(_))
    ));
    assert!(close_step(Ok(())).is_ok());
    assert!(close_step(Err(ssh_error(-37))).is_ok());
    assert!(matches!(close_step(Err(ssh_error(-1))), Err(SessionError::SSH2(_))));
}

#[test]
fn exit_status_is_kept_once_it_is_known() {
    let mut record = ExitRecord::new();
    assert!(record.must_notify());
    assert!(matches!(record.try_get_exit_status(Platform::Unix, false, Ok(3)), Ok(None)));
    assert!(matches!(record.try_get_exit_status(Platform::Unix, true, Err(ssh_error(-37))), Ok(None)));
    assert!(record.try_get_exit_status(Platform::Unix, true, Err(ssh_error(-1))).is_err());
    assert!(record.needs_status(true));
    let status = record.try_get_exit_status(Platform::Unix, true, Ok(3)).expect("status").expect("status");
    assert_eq!(status.code(Platform::Unix), Some(3));
    assert!(!record.needs_status(true));
    let again = record.try_get_exit_status(Platform::Unix, false, Err(ssh_error(-1))).expect("kept");
    assert_eq!(again, Some(status));
    record.notified();
    assert!(!record.must_notify());
    assert_eq!(close_code(Platform::Unix, Some(status)), 3);
    assert_eq!(close_code(Platform::Unix, None), 0);
    assert_eq!(close_code(Platform::Unix, Some(ExitStatus { raw: 9 })), 0);
}

#[test]
fn exit_codes_keep_their_low_byte() {
    assert_eq!(exit_status_from_code(Platform::Unix, 0).raw, 0);
    assert_eq!(exit_status_from_code(Platform::Unix, 1).raw, 256);
    assert_eq!(exit_status_from_code(Platform::Unix, -1).code(Platform::Unix), Some(255));
    assert_eq!(exit_status_from_code(Platform::Unix, 257).code(Platform::Unix), Some(1));
    assert_eq!(ExitStatus { raw: 15 }.code(Platform::Unix), None);
    assert_eq!(exit_status_from_code(Platform::Windows, 257).raw, 257);
    assert_eq!(exit_status_from_code(Platform::Windows, 257).code(Platform::Windows), Some(257));
    assert_eq!(close_code(Platform::Windows, Some(ExitStatus { raw: 9 })), 9);
}
