use std::collections::VecDeque;

use otty::paths::Platform;
use otty::pty::session::{ExitStatus, IoError, IoErrorKind, PtySize, Session, SessionError};
use otty::term::channel::{ChannelConfig, ChannelSendError, TerminalEvents};
use otty::term::engine::{
    event_send_error, read_step, ReadEnd, ReadStep, TerminalEngine, TerminalEvent,
    TerminalOptions, TerminalRequest,
};
use otty::term::error::Error;
use otty::term::escape::{Action, CursorShape, CursorStyle, EscapeParser, Hyperlink};
use otty::term::surface::{
    GridPoint, Scroll, SelectionType, Side, SnapshotOwned, Surface, SurfaceMode, TerminalSize,
};
use otty::term::sync::{SyncState, SYNC_TIMEOUT_NANOS};

fn io_error(kind: IoErrorKind, raw_os_error: Option<i32>) -> SessionError {
    SessionError::IO(IoError { kind, raw_os_error, message: String::from("io") })
}

fn would_block() -> SessionError {
    io_error(IoErrorKind::WouldBlock, None)
}

fn exit_ok() -> ExitStatus {
    ExitStatus { raw: 0 }
}

#[derive(Default)]
struct StubParser {
    actions: VecDeque<Action>,
}

impl StubParser {
    fn with_actions(actions: Vec<Action>) -> Self {
        Self { actions: actions.into() }
    }
}

impl EscapeParser for StubParser {
    fn advance(&mut self, _bytes: &[u8]) -> Vec<Action> {
        self.actions.drain(..).collect()
    }
}

/// A parser that prints every byte.
#[derive(Default)]
struct EchoParser;

impl EscapeParser for EchoParser {
    fn advance(&mut self, bytes: &[u8]) -> Vec<Action> {
        bytes.iter().map(|b| Action::Print(*b as char)).collect()
    }
}

#[derive(Default)]
struct TestSurface {
    cells: Vec<char>,
    resets: usize,
    resized: Vec<TerminalSize>,
    selections: usize,
}

impl Surface for TestSurface {
    fn apply(&mut self, action: Action) {
        if let Action::Print(c) = action {
            self.cells.push(c);
        }
    }

    fn resize(&mut self, size: TerminalSize) {
        self.resized.push(size);
    }

    fn scroll_display(&mut self, _direction: Scroll) {}

    fn start_selection(&mut self, _ty: SelectionType, _point: GridPoint, _direction: Side) {
        self.selections += 1;
    }

    fn update_selection(&mut self, _point: GridPoint, _direction: Side) {
        self.selections += 1;
    }

    fn snapshot_owned(&self) -> SnapshotOwned {
        SnapshotOwned {
            cells: self.cells.clone(),
            mode: SurfaceMode {
                alt_screen: false,
                app_cursor: false,
                alternate_scroll: false,
                sgr_mouse: false,
                utf8_mouse: false,
                report_mouse_clicks: false,
                report_cell_mouse_motion: false,
                report_all_mouse_motion: false,
            },
            display_offset: 0,
        }
    }

    fn reset_damage(&mut self) {
        self.resets += 1;
    }
}

#[derive(Default)]
struct FakeSession {
    reads: VecDeque<Vec<u8>>,
    exit_status: Option<ExitStatus>,
}

impl FakeSession {
    fn with_reads(reads: Vec<Vec<u8>>) -> Self {
        Self { reads: reads.into(), exit_status: None }
    }

    fn with_exit(mut self, status: ExitStatus) -> Self {
        self.exit_status = Some(status);
        self
    }
}

impl Session for FakeSession {
    fn read(&mut self, buf: &mut [u8]) -> Result<usize, SessionError> {
        if let Some(mut chunk) = self.reads.pop_front() {
            let len = chunk.len().min(buf.len());
            buf[..len].copy_from_slice(&chunk[..len]);
            if len < chunk.len() {
                chunk.drain(0..len);
                self.reads.push_front(chunk);
            }
            return Ok(len);
        }
        Err(would_block())
    }

    fn write(&mut self, input: &[u8]) -> Result<usize, SessionError> {
        Ok(input.len())
    }

    fn resize(&mut self, _size: PtySize) -> Result<(), SessionError> {
        Ok(())
    }

    fn close(&mut self) -> Result<i32, SessionError> {
        Ok(0)
    }

    fn try_get_child_exit_status(&mut self) -> Result<Option<ExitStatus>, SessionError> {
        Ok(self.exit_status)
    }
}

struct EioSession {
    exit_status: Option<ExitStatus>,
}

impl Session for EioSession {
    fn read(&mut self, _buf: &mut [u8]) -> Result<usize, SessionError> {
        Err(io_error(IoErrorKind::Other, Some(5)))
    }

    fn write(&mut self, _input: &[u8]) -> Result<usize, SessionError> {
        Ok(0)
    }

    fn resize(&mut self, _size: PtySize) -> Result<(), SessionError> {
        Ok(())
    }

    fn close(&mut self) -> Result<i32, SessionError> {
        Ok(0)
    }

    fn try_get_child_exit_status(&mut self) -> Result<Option<ExitStatus>, SessionError> {
        Ok(self.exit_status)
    }
}

#[derive(Default)]
struct PartialSession {
    max_per_call: usize,
    block_after_first: bool,
    blocked: bool,
    interrupts: usize,
    fail: bool,
    writes: Vec<Vec<u8>>,
}

impl PartialSession {
    fn with_behavior(max_per_call: usize, block_after_first: bool) -> Self {
        Self { max_per_call, block_after_first, ..Self::default() }
    }
}

impl Session for PartialSession {
    fn read(&mut self, _buf: &mut [u8]) -> Result<usize, SessionError> {
        Err(would_block())
    }

    fn write(&mut self, input: &[u8]) -> Result<usize, SessionError> {
        if self.interrupts > 0 {
            self.interrupts -= 1;
            return Err(io_error(IoErrorKind::Interrupted, None));
        }
        if self.fail {
            return Err(SessionError::Internal(String::from("broken")));
        }
        if self.block_after_first && self.blocked {
            return Err(would_block());
        }

        let len = input.len().min(self.max_per_call);
        if len > 0 {
            self.writes.push(input[..len].to_vec());
        }
        if self.block_after_first {
            self.blocked = true;
        }
        Ok(len)
    }

    fn resize(&mut self, _size: PtySize) -> Result<(), SessionError> {
        if self.fail {
            return Err(SessionError::Internal(String::from("broken")));
        }
        Ok(())
    }

    fn close(&mut self) -> Result<i32, SessionError> {
        if self.fail {
            return Err(SessionError::Internal(String::from("broken")));
        }
        Ok(256)
    }

    fn try_get_child_exit_status(&mut self) -> Result<Option<ExitStatus>, SessionError> {
        Ok(None)
    }
}

fn collect_events(events: &mut TerminalEvents) -> Vec<TerminalEvent> {
    let mut out = Vec::new();
    while let Ok(ev) = events.try_recv() {
        out.push(ev);
    }
    out
}

#[test]
fn partial_writes_keep_pending_output_until_drained() {
    let session = PartialSession::with_behavior(4, true);
    let (mut engine, _handle, _events) = TerminalEngine::new(
        session,
        StubParser::default(),
        TestSurface::default(),
        TerminalOptions { channel_config: ChannelConfig::bounded(16), ..TerminalOptions::default() },
        0,
    );

    engine
        .queue_request(TerminalRequest::WriteBytes(b"abcdefgh".to_vec()))
        .expect("queued");

    assert!(engine.has_pending_output());

    let pending_after_first = engine.on_writable().expect("writable");
    assert!(pending_after_first);
    assert_eq!(engine.session.writes.len(), 1);
    assert_eq!(engine.session.writes[0], b"abcd");
    assert_eq!(engine.pending_input().len(), 4);
    assert!(engine.has_pending_output());

    engine.session.blocked = false;
    let pending_after_second = engine.on_writable().expect("writable");
    assert!(!pending_after_second);
    assert_eq!(engine.session.writes.len(), 2);
    assert_eq!(engine.session.writes[1], b"efgh");
    assert!(engine.pending_input().is_empty());
    assert!(!engine.has_pending_output());
}

#[test]
fn has_pending_output_includes_queued_write_request() {
    let session = PartialSession::with_behavior(4, true);
    let (mut engine, mut handle, _events) = TerminalEngine::new(
        session,
        StubParser::default(),
        TestSurface::default(),
        TerminalOptions::default(),
        0,
    );

    handle
        .send(TerminalRequest::WriteBytes(b"long-payload".to_vec()))
        .expect("request channel open");

    engine.process_pending_requests().expect("processed");
    assert!(engine.has_pending_output());

    engine.session.blocked = false;
    engine.on_writable().expect("writable");
    engine.session.blocked = false;
    engine.on_writable().expect("writable");
    assert!(!engine.has_pending_output());
}

#[test]
fn emits_frame_before_child_exit() {
    let session = FakeSession::with_reads(vec![b"data".to_vec()]).with_exit(exit_ok());
    let parser = StubParser::with_actions(vec![Action::Print('a')]);
    let (mut engine, _handle, mut events) = TerminalEngine::new(
        session,
        parser,
        TestSurface::default(),
        TerminalOptions { channel_config: ChannelConfig::default(), ..TerminalOptions::default() },
        0,
    );

    engine.on_readable(&|| 0).expect("readable");

    let first = events.try_recv().expect("first event");
    match first {
        TerminalEvent::Frame { frame } => assert!(!frame.cells.is_empty()),
        _ => panic!("expected frame first"),
    }

    let second = events.try_recv().expect("second event");
    assert!(matches!(second, TerminalEvent::ChildExit { .. }));
}

#[test]
fn bounded_event_channel_surfaces_backpressure() {
    let session = FakeSession::with_reads(vec![b"payload".to_vec()]).with_exit(exit_ok());
    let parser = StubParser::with_actions(vec![Action::Print('x')]);
    let options = TerminalOptions {
        channel_config: ChannelConfig { event_capacity: Some(1), request_capacity: None },
        ..TerminalOptions::default()
    };

    let (mut engine, _handle, _events) =
        TerminalEngine::new(session, parser, TestSurface::default(), options, 0);

    let err = engine.on_readable(&|| 0).expect_err("channel backpressure");
    assert!(matches!(err, Error::EventChannelFull));
}

#[test]
fn handle_requests_flow_into_engine() {
    let blank = TestSurface { cells: vec![' '; 80 * 24], ..TestSurface::default() };
    let (mut engine, mut handle, mut events) = TerminalEngine::new(
        FakeSession::default(),
        StubParser::default(),
        blank,
        TerminalOptions::default(),
        0,
    );

    handle
        .send(TerminalRequest::Resize(TerminalSize::default()))
        .expect("request channel open");

    engine.tick(&|| 0).expect("tick");

    let event = events.try_recv().expect("frame after resize");
    match event {
        TerminalEvent::Frame { frame } => assert!(!frame.cells.is_empty()),
        _ => panic!("expected frame event"),
    }
}

#[test]
fn eio_is_treated_as_exit() {
    let session = EioSession { exit_status: Some(exit_ok()) };
    let (mut engine, _handle, mut events) = TerminalEngine::new(
        session,
        StubParser::default(),
        TestSurface::default(),
        TerminalOptions::default(),
        0,
    );

    let res = engine.on_readable(&|| 0);
    assert!(res.is_ok());

    let event = events.try_recv().expect("child exit");
    assert!(matches!(event, TerminalEvent::ChildExit { .. }));
}

#[test]
fn propagates_action_events_before_frame_delivery() {
    let actions = vec![
        Action::SetWindowTitle("title".to_string()),
        Action::Bell,
        Action::SetCursorShape(CursorShape::Beam),
        Action::SetCursorStyle(Some(CursorStyle { shape: CursorShape::Underline, blinking: true })),
        Action::SetHyperlink(Some(Hyperlink {
            id: Some("id".into()),
            uri: "https://example.test".into(),
        })),
    ];
    let session = FakeSession::with_reads(vec![b"payload".to_vec()]);
    let parser = StubParser::with_actions(actions);
    let (mut engine, _handle, mut events) = TerminalEngine::new(
        session,
        parser,
        TestSurface::default(),
        TerminalOptions::default(),
        0,
    );

    engine.on_readable(&|| 0).expect("readable");

    let collected = collect_events(&mut events);
    assert!(
        matches!(collected.last(), Some(TerminalEvent::Frame { .. })),
        "frame should be emitted after action-driven events"
    );
    assert!(collected.iter().any(|ev| matches!(ev, TerminalEvent::Bell)));
    assert!(collected.iter().any(|ev| matches!(ev, TerminalEvent::CursorShapeChanged { shape } if *shape == CursorShape::Beam)));
    assert!(collected.iter().any(|ev| matches!(ev, TerminalEvent::CursorStyleChanged { style: Some(style) } if style.shape == CursorShape::Underline)));
    assert!(collected.iter().any(|ev| matches!(ev, TerminalEvent::Hyperlink { link: Some(link) } if link.uri == "https://example.test")));
    assert!(matches!(
        collected.first(),
        Some(TerminalEvent::TitleChanged { title }) if title == "title"
    ));
}

#[test]
fn frame_is_emitted_before_child_exit() {
    let session = FakeSession::with_reads(vec![b"data".to_vec()]).with_exit(exit_ok());
    let (mut engine, _handle, mut events) = TerminalEngine::new(
        session,
        EchoParser,
        TestSurface::default(),
        TerminalOptions::default(),
        0,
    );

    engine.on_readable(&|| 0).expect("readable");

    let first = events.try_recv().expect("frame before exit");
    assert!(matches!(first, TerminalEvent::Frame { frame } if frame.cells == ['d', 'a', 't', 'a']));
    let second = events.try_recv().expect("child exit after frame");
    assert!(matches!(second, TerminalEvent::ChildExit { .. }));
}

/// A session that has some output and is closed after it.
struct ClosingSession {
    output: Vec<u8>,
}

impl Session for ClosingSession {
    fn read(&mut self, buf: &mut [u8]) -> Result<usize, SessionError> {
        if self.output.is_empty() {
            return Err(io_error(IoErrorKind::UnexpectedEof, None));
        }
        let len = self.output.len().min(buf.len());
        buf[..len].copy_from_slice(&self.output[..len]);
        self.output.drain(..len);
        Ok(len)
    }

    fn write(&mut self, input: &[u8]) -> Result<usize, SessionError> {
        Ok(input.len())
    }

    fn resize(&mut self, _size: PtySize) -> Result<(), SessionError> {
        Ok(())
    }

    fn close(&mut self) -> Result<i32, SessionError> {
        Ok(0)
    }

    fn try_get_child_exit_status(&mut self) -> Result<Option<ExitStatus>, SessionError> {
        Ok(Some(exit_ok()))
    }
}

#[test]
fn a_closed_session_tells_the_exit_before_the_frame_too() {
    let (mut engine, _handle, mut events) = TerminalEngine::new(
        ClosingSession { output: b"bye".to_vec() },
        EchoParser,
        TestSurface::default(),
        TerminalOptions::default(),
        0,
    );
    assert!(engine.on_readable(&|| 0).expect("readable"));
    let collected = collect_events(&mut events);
    assert_eq!(collected.len(), 3);
    assert!(matches!(collected[0], TerminalEvent::ChildExit { .. }));
    assert!(matches!(&collected[1], TerminalEvent::Frame { frame } if frame.cells == ['b', 'y', 'e']));
    assert!(matches!(collected[2], TerminalEvent::ChildExit { .. }));
}

#[test]
fn each_engine_has_its_own_channels() {
    let set_up = || {
        TerminalEngine::new(
            PartialSession::with_behavior(100, false),
            StubParser::default(),
            TestSurface::default(),
            TerminalOptions::default(),
            0,
        )
    };
    let (mut one, mut to_one, mut from_one) = set_up();
    let (mut two, mut to_two, mut from_two) = set_up();
    to_one.send(TerminalRequest::ScrollDisplay(Scroll::Bottom)).expect("sent");
    to_two.send(TerminalRequest::WriteBytes(b"two".to_vec())).expect("sent");
    for _ in 0..2 {
        one.tick(&|| 0).expect("tick");
        two.tick(&|| 0).expect("tick");
    }
    assert!(one.session.writes.is_empty());
    assert_eq!(two.session.writes, vec![b"two".to_vec()]);
    assert!(matches!(collect_events(&mut from_one)[..], [TerminalEvent::Frame { .. }]));
    assert!(collect_events(&mut from_two).is_empty());
    to_two.send(TerminalRequest::WriteBytes(b"more".to_vec())).expect("sent");
    two.on_writable().expect("writable");
    assert_eq!(two.session.writes, vec![b"two".to_vec(), b"more".to_vec()]);
}

#[test]
fn interrupted_writes_are_repeated_and_failures_keep_the_bytes() {
    let mut session = PartialSession::with_behavior(100, false);
    session.interrupts = 3;
    let (mut engine, _handle, _events) = TerminalEngine::new(
        session,
        StubParser::default(),
        TestSurface::default(),
        TerminalOptions::default(),
        0,
    );
    engine.process_request(TerminalRequest::WriteBytes(b"one".to_vec())).expect("written");
    assert_eq!(engine.session.writes, vec![b"one".to_vec()]);
    engine.session.fail = true;
    let failed = engine.process_request(TerminalRequest::WriteBytes(b"two".to_vec()));
    assert!(matches!(failed, Err(Error::Session(SessionError::Internal(_)))));
    assert_eq!(engine.pending_input().len(), 3);
    engine.session.fail = false;
    assert!(!engine.on_writable().expect("writable"));
    assert_eq!(engine.session.writes, vec![b"one".to_vec(), b"two".to_vec()]);
}

#[test]
fn requests_change_the_surface_and_show_it() {
    let (mut engine, _handle, mut events) = TerminalEngine::new(
        PartialSession::with_behavior(100, false),
        StubParser::default(),
        TestSurface::default(),
        TerminalOptions::default(),
        0,
    );
    assert_eq!(engine.size(), TerminalSize::default());
    let size = TerminalSize { rows: 5, cols: 6, cell_width: 7, cell_height: 8 };
    let point = GridPoint { line: 0, column: 0 };
    for request in [
        TerminalRequest::Resize(size),
        TerminalRequest::ScrollDisplay(Scroll::Bottom),
        TerminalRequest::StartSelection {
            ty: SelectionType::Lines,
            point,
            direction: Side::Left,
        },
        TerminalRequest::UpdateSelection { point, direction: Side::Right },
        TerminalRequest::Shutdown,
    ] {
        engine.queue_request(request).expect("queued");
    }
    engine.tick(&|| 0).expect("tick");
    assert_eq!(engine.size(), size);
    let collected = collect_events(&mut events);
    assert_eq!(collected.len(), 5);
    assert!(collected[..4].iter().all(|ev| matches!(ev, TerminalEvent::Frame { .. })));
    assert!(matches!(
        collected[4],
        TerminalEvent::ChildExit { status: ExitStatus { raw: 256 } }
    ));

    engine.session.fail = true;
    let refused = engine.process_request(TerminalRequest::Resize(TerminalSize::default()));
    assert!(matches!(refused, Err(Error::Session(_))));
    assert_eq!(engine.size(), size);
    engine.process_request(TerminalRequest::Shutdown).expect("a failed close is passed over");
    assert!(engine.check_child_exit().expect("no answer").is_none());
}

#[test]
fn a_complete_update_is_shown_at_once() {
    let actions = vec![
        Action::BeginSync,
        Action::Print('a'),
        Action::Bell,
        Action::Report(b"ok".to_vec()),
        Action::EndSync,
        Action::ResetWindowTitle,
    ];
    let (mut engine, _handle, mut events) = TerminalEngine::new(
        FakeSession::with_reads(vec![b"x".to_vec()]),
        StubParser::with_actions(actions),
        TestSurface::default(),
        TerminalOptions::default(),
        0,
    );
    assert!(engine.on_readable(&|| 0).expect("readable"));
    assert_eq!(engine.pending_input().iter().copied().collect::<Vec<u8>>(), b"ok".to_vec());
    let collected = collect_events(&mut events);
    assert!(matches!(
        &collected[..],
        [TerminalEvent::Bell, TerminalEvent::ResetTitle, TerminalEvent::Frame { frame }]
            if frame.cells == ['a']
    ));
}

#[test]
fn an_update_that_takes_too_long_is_shown() {
    let actions = vec![Action::BeginSync, Action::Print('a')];
    let (mut engine, _handle, mut events) = TerminalEngine::new(
        FakeSession::with_reads(vec![b"x".to_vec()]),
        StubParser::with_actions(actions),
        TestSurface::default(),
        TerminalOptions::default(),
        0,
    );
    engine.on_readable(&|| 5).expect("readable");
    assert!(matches!(
        &collect_events(&mut events)[..],
        [TerminalEvent::Frame { frame }] if frame.cells.is_empty()
    ));
    let deadline = engine.next_deadline().expect("deadline");
    assert_eq!(deadline, 5 + SYNC_TIMEOUT_NANOS);
    engine.tick(&|| deadline).expect("tick");
    assert!(collect_events(&mut events).is_empty());
    engine.tick(&|| deadline + 1).expect("tick");
    assert!(matches!(
        &collect_events(&mut events)[..],
        [TerminalEvent::Frame { frame }] if frame.cells == ['a']
    ));
}

#[test]
fn updates_hold_back_only_so_much() {
    let mut sync = SyncState::new(0);
    assert!(!sync.is_active());
    sync.begin(1);
    assert!(sync.is_active());
    for _ in 0..10_000 {
        assert!(sync.push(Action::Bell, 2).is_ok());
    }
    assert!(matches!(sync.push(Action::Print('z'), 3), Err(Action::Print('z'))));
    assert!(!sync.is_expired(2 + SYNC_TIMEOUT_NANOS));
    assert!(sync.is_expired(3 + SYNC_TIMEOUT_NANOS));
    assert_eq!(sync.cancel(4).len(), 10_000);
    assert!(sync.end(5).is_empty());
    sync.begin(u64::MAX);
    assert_eq!(sync.deadline(), Some(u64::MAX));
}

#[test]
fn reads_are_told_apart() {
    assert!(matches!(read_step(Platform::Unix, Ok(0)), ReadStep::Stop(ReadEnd::Drained)));
    assert!(matches!(read_step(Platform::Unix, Ok(9)), ReadStep::Chunk(9)));
    assert!(matches!(
        read_step(Platform::Unix, Err(io_error(IoErrorKind::Interrupted, None))),
        ReadStep::Again
    ));
    assert!(matches!(read_step(Platform::Unix, Err(would_block())), ReadStep::Stop(ReadEnd::Drained)));
    assert!(matches!(
        read_step(Platform::Unix, Err(io_error(IoErrorKind::UnexpectedEof, None))),
        ReadStep::Stop(ReadEnd::Closed)
    ));
    assert!(matches!(
        read_step(Platform::Unix, Err(io_error(IoErrorKind::Other, Some(5)))),
        ReadStep::Stop(ReadEnd::Closed)
    ));
    assert!(matches!(
        read_step(Platform::Windows, Err(io_error(IoErrorKind::Other, Some(5)))),
        ReadStep::Fail(SessionError::IO(_))
    ));
    assert!(matches!(
        read_step(Platform::Unix, Err(io_error(IoErrorKind::Other, Some(6)))),
        ReadStep::Fail(SessionError::IO(_))
    ));
    assert!(matches!(
        read_step(Platform::Unix, Err(SessionError::Cancelled)),
        ReadStep::Fail(SessionError::Cancelled)
    ));
    assert!(matches!(event_send_error(ChannelSendError::Full), Error::EventChannelFull));
}

#[test]
fn channels_keep_their_limits() {
    let (engine, mut handle, mut events) = TerminalEngine::new(
        FakeSession::default(),
        StubParser::default(),
        TestSurface::default(),
        TerminalOptions { channel_config: ChannelConfig::bounded(1), ..TerminalOptions::default() },
        0,
    );
    handle.send(TerminalRequest::Shutdown).expect("room for one");
    assert_eq!(
        handle.send(TerminalRequest::Shutdown).expect_err("full"),
        ChannelSendError::Full
    );
    drop(engine);
    assert_eq!(
        handle.send(TerminalRequest::Shutdown).expect_err("closed"),
        ChannelSendError::Disconnected
    );
    assert!(events.try_recv().is_err());
}

#[test]
fn listeners_that_are_gone_close_the_channel() {
    let (mut engine, _handle, events) = TerminalEngine::new(
        FakeSession::with_reads(vec![b"x".to_vec()]),
        EchoParser,
        TestSurface::default(),
        TerminalOptions::default(),
        0,
    );
    drop(events);
    assert!(matches!(engine.on_readable(&|| 0), Err(Error::EventChannelClosed)));
}

#[test]
fn all_requests_in_the_channel_are_carried_out() {
    let (mut engine, mut handle, mut events) = TerminalEngine::new(
        PartialSession::with_behavior(100, false),
        StubParser::default(),
        TestSurface::default(),
        TerminalOptions::default(),
        0,
    );
    engine.queue_request(TerminalRequest::WriteBytes(b"a".to_vec())).expect("queued");
    for bytes in [b"b", b"c", b"d"] {
        handle.send(TerminalRequest::WriteBytes(bytes.to_vec())).expect("sent");
    }
    handle.send(TerminalRequest::ScrollDisplay(Scroll::Bottom)).expect("sent");
    engine.tick(&|| 0).expect("tick");
    assert_eq!(engine.session.writes.concat(), b"abcd".to_vec());
    assert!(matches!(&collect_events(&mut events)[..], [TerminalEvent::Frame { .. }]));
    // A channel that nobody can send into any more has none either.
    drop(handle);
    engine.process_pending_requests().expect("nothing to do");
    assert!(!engine.has_pending_output());
}

#[test]
fn the_greatest_capacity_stands_for_no_limit() {
    let (mut engine, mut handle, mut events) = TerminalEngine::new(
        FakeSession::with_reads(vec![b"x".to_vec()]),
        EchoParser,
        TestSurface::default(),
        TerminalOptions {
            channel_config: ChannelConfig::bounded(usize::MAX),
            ..TerminalOptions::default()
        },
        0,
    );
    handle.send(TerminalRequest::ScrollDisplay(Scroll::Bottom)).expect("sent");
    assert!(engine.on_readable(&|| 0).expect("readable"));
    assert_eq!(collect_events(&mut events).len(), 2);
}

/// A session that notes the room that it is offered.
#[derive(Default)]
struct RoomySession {
    rooms: Vec<usize>,
}

impl Session for RoomySession {
    fn read(&mut self, buf: &mut [u8]) -> Result<usize, SessionError> {
        self.rooms.push(buf.len());
        Ok(0)
    }

    fn write(&mut self, input: &[u8]) -> Result<usize, SessionError> {
        Ok(input.len())
    }

    fn resize(&mut self, _size: PtySize) -> Result<(), SessionError> {
        Ok(())
    }

    fn close(&mut self) -> Result<i32, SessionError> {
        Ok(0)
    }

    fn try_get_child_exit_status(&mut self) -> Result<Option<ExitStatus>, SessionError> {
        Ok(None)
    }
}

#[test]
fn reads_have_the_room_that_was_asked_for() {
    for (asked, room) in [(0, 1024), (4096, 4096)] {
        let options =
            TerminalOptions { read_buffer_capacity: asked, ..TerminalOptions::default() };
        let (mut engine, _handle, _events) = TerminalEngine::new(
            RoomySession::default(),
            EchoParser,
            TestSurface::default(),
            options,
            0,
        );
        assert!(!engine.on_readable(&|| 0).expect("readable"));
        assert_eq!(engine.session.rooms, vec![room]);
    }
}

#[test]
fn each_action_has_its_own_moment() {
    // The update begins in the first moment and is looked at in the third.
    let clock = std::cell::Cell::new(0u64);
    let tell = || {
        clock.set(clock.get() + SYNC_TIMEOUT_NANOS);
        clock.get()
    };
    let (mut engine, _handle, mut events) = TerminalEngine::new(
        FakeSession::with_reads(vec![b"x".to_vec()]),
        StubParser::with_actions(vec![Action::BeginSync, Action::Print('a')]),
        TestSurface::default(),
        TerminalOptions::default(),
        0,
    );
    engine.on_readable(&tell).expect("readable");
    assert!(matches!(
        &collect_events(&mut events)[..],
        [TerminalEvent::Frame { frame }] if frame.cells.is_empty()
    ));
    engine.tick(&tell).expect("tick");
    assert!(matches!(
        &collect_events(&mut events)[..],
        [TerminalEvent::Frame { frame }] if frame.cells == ['a']
    ));
}
