use otty::pty::session::SessionError;
use otty::session_options::{LocalSessionOptions, SSHSessionOptions, SessionKind};
use otty::term::engine::{TerminalEvent, TerminalRequest};
use otty::term::surface::{
    GridPoint, Scroll, SelectionType, Side, SnapshotOwned, SurfaceMode, TerminalSize,
};
use otty::ui_engine::{
    ends_stream, plan_session, Engine, Modifiers, MouseButton, MouseMode, SessionPlan,
};

fn mode() -> SurfaceMode {
    SurfaceMode {
        alt_screen: false,
        app_cursor: false,
        alternate_scroll: false,
        sgr_mouse: false,
        utf8_mouse: false,
        report_mouse_clicks: false,
        report_cell_mouse_motion: false,
        report_all_mouse_motion: false,
    }
}

fn size() -> TerminalSize {
    TerminalSize { cols: 80, rows: 24, cell_width: 8, cell_height: 16 }
}

fn engine(mode: SurfaceMode, display_offset: usize) -> Engine {
    Engine::new(size(), SnapshotOwned { cells: Vec::new(), mode, display_offset })
}

const NO_KEYS: Modifiers = Modifiers { shift: false, alt: false, command: false };

fn bytes(request: Option<TerminalRequest>) -> Vec<u8> {
    match request {
        Some(TerminalRequest::WriteBytes(bytes)) => bytes,
        other => panic!("expected bytes, got {other:?}"),
    }
}

#[test]
fn test_selection_point_basic() {
    let terminal_size = size();

    let point = Engine::selection_point(16, 32, &terminal_size, 0);

    assert_eq!(point.column, 2);
    assert_eq!(point.line, 2);
}

#[test]
fn test_selection_point_with_offset() {
    let terminal_size = size();

    let point = Engine::selection_point(0, 0, &terminal_size, 5);

    assert!(point.line != 0 || point.column == 0);
    assert_eq!(point.line, -5);
}

#[test]
fn test_selection_point_boundary_clamp() {
    let terminal_size = size();

    let point = Engine::selection_point(10000, 10000, &terminal_size, 0);

    assert!(point.column < terminal_size.cols as usize);
    assert!(point.line < terminal_size.rows as i32);
    assert_eq!((point.line, point.column), (23, 79));
}

#[test]
fn test_selection_point_at_zero() {
    let terminal_size = size();

    let point = Engine::selection_point(0, 0, &terminal_size, 0);

    assert_eq!(point.column, 0);
}

#[test]
fn selections_name_the_half_of_the_cell() {
    let engine = engine(mode(), 2);
    assert!(matches!(
        engine.start_selection(SelectionType::Semantic, 20, 16),
        TerminalRequest::StartSelection {
            ty: SelectionType::Semantic,
            point: GridPoint { line: -1, column: 2 },
            direction: Side::Left,
        }
    ));
    assert!(matches!(
        engine.update_selection(21, 16),
        TerminalRequest::UpdateSelection {
            point: GridPoint { line: -1, column: 2 },
            direction: Side::Right,
        }
    ));
}

#[test]
fn sgr_reports_are_decimal() {
    let sgr = engine(SurfaceMode { sgr_mouse: true, utf8_mouse: true, ..mode() }, 0);
    let keys = Modifiers { shift: true, alt: true, command: true };
    let point = GridPoint { line: 9, column: 299 };
    assert_eq!(
        bytes(sgr.process_mouse_report(MouseButton::ScrollUp, keys, point, true)),
        b"\x1b[<92;300;10M".to_vec()
    );
    assert_eq!(
        bytes(sgr.process_mouse_report(MouseButton::LeftButton, NO_KEYS, point, false)),
        b"\x1b[<0;300;10m".to_vec()
    );
    let above = GridPoint { line: -3, column: 0 };
    assert_eq!(
        bytes(sgr.process_mouse_report(MouseButton::Other, NO_KEYS, above, true)),
        b"\x1b[<99;1;-2M".to_vec()
    );
}

#[test]
fn plain_reports_have_a_limit() {
    let plain = engine(mode(), 0);
    let point = GridPoint { line: 222, column: 5 };
    assert_eq!(
        bytes(plain.process_mouse_report(MouseButton::RightButton, NO_KEYS, point, true)),
        vec![0x1b, b'[', b'M', 34, 38, 255]
    );
    assert_eq!(
        bytes(plain.process_mouse_report(
            MouseButton::RightButton,
            Modifiers { shift: false, alt: true, command: false },
            point,
            false
        )),
        vec![0x1b, b'[', b'M', 43, 38, 255]
    );
    let far = GridPoint { line: 0, column: 223 };
    assert!(plain.process_mouse_report(MouseButton::LeftMove, NO_KEYS, far, true).is_none());

    let utf8 = engine(SurfaceMode { utf8_mouse: true, ..mode() }, 0);
    let far = GridPoint { line: 94, column: 223 };
    let position: Vec<u8> = char::from_u32(33 + 223).expect("char").to_string().into_bytes();
    let mut expected = vec![0x1b, b'[', b'M', 64];
    expected.extend(position);
    expected.push(127);
    assert_eq!(
        bytes(utf8.process_mouse_report(MouseButton::LeftMove, NO_KEYS, far, true)),
        expected
    );
    let too_far = GridPoint { line: 2015, column: 0 };
    assert!(utf8.process_mouse_report(MouseButton::LeftMove, NO_KEYS, too_far, true).is_none());
}

#[test]
fn sgr_wins_over_utf8() {
    assert_eq!(MouseMode::from(mode()), MouseMode::Normal(false));
    assert_eq!(
        MouseMode::from(SurfaceMode { utf8_mouse: true, ..mode() }),
        MouseMode::Normal(true)
    );
    assert_eq!(
        MouseMode::from(SurfaceMode { utf8_mouse: true, sgr_mouse: true, ..mode() }),
        MouseMode::Sgr
    );
    let codes: Vec<u8> = [
        MouseButton::LeftButton,
        MouseButton::MiddleButton,
        MouseButton::RightButton,
        MouseButton::LeftMove,
        MouseButton::MiddleMove,
        MouseButton::RightMove,
        MouseButton::NoneMove,
        MouseButton::ScrollUp,
        MouseButton::ScrollDown,
        MouseButton::Other,
    ]
    .iter()
    .map(MouseButton::code)
    .collect();
    assert_eq!(codes, vec![0, 1, 2, 32, 33, 34, 35, 64, 65, 99]);
}

#[test]
fn scrolling_sends_keys_to_an_application() {
    let plain = engine(mode(), 0);
    assert!(plain.scroll_delta(0).is_none());
    assert!(matches!(
        plain.scroll_delta(-4),
        Some(TerminalRequest::ScrollDisplay(Scroll::Delta(-4)))
    ));
    let half = engine(SurfaceMode { alt_screen: true, ..mode() }, 0);
    assert!(matches!(half.scroll_delta(1), Some(TerminalRequest::ScrollDisplay(_))));
    let app = engine(SurfaceMode { alt_screen: true, alternate_scroll: true, ..mode() }, 0);
    assert_eq!(bytes(app.scroll_delta(2)), b"\x1bOA\x1bOA".to_vec());
    assert_eq!(bytes(app.scroll_delta(-1)), b"\x1bOB".to_vec());
}

#[test]
fn resizing_and_writing_make_requests() {
    let mut engine = engine(mode(), 0);
    assert!(engine.resize(0, 10).is_none());
    assert_eq!(engine.terminal_size(), size());
    engine.set_cell_size(10, 20);
    let request = engine.resize(30, 100);
    let expected = TerminalSize { rows: 30, cols: 100, cell_width: 10, cell_height: 20 };
    assert!(matches!(request, Some(TerminalRequest::Resize(s)) if s == expected));
    assert_eq!(engine.terminal_size(), expected);
    let requests = engine.write(b"ls".to_vec());
    assert!(matches!(
        &requests[..],
        [TerminalRequest::WriteBytes(b), TerminalRequest::ScrollDisplay(Scroll::Bottom)]
            if b == b"ls"
    ));
    engine.sync_snapshot(SnapshotOwned { cells: vec!['x'], mode: mode(), display_offset: 4 });
    assert_eq!(engine.snapshot().display_offset, 4);
    assert!(!ends_stream(&TerminalEvent::Bell));
}

#[test]
fn sessions_are_planned_from_their_options() {
    let local = SessionKind::Local(
        LocalSessionOptions::default()
            .with_program("htop")
            .with_args(vec![String::from("-d")])
            .with_env("A", "1")
            .with_working_directory("/srv"),
    );
    match plan_session(&local, size()) {
        SessionPlan::Local(builder) => {
            assert!(matches!(builder.spawn(), Err(SessionError::Internal(_))));
        },
        SessionPlan::Ssh(_) => panic!("expected a local session"),
    }
    let ssh = SessionKind::Ssh(SSHSessionOptions::default().with_host("h:22").with_user("me"));
    match plan_session(&ssh, size()) {
        SessionPlan::Ssh(builder) => {
            let target = builder.into_parts();
            assert_eq!((target.host.as_str(), target.user.as_str()), ("h:22", "me"));
            assert_eq!(target.size.cols, 80);
            assert_eq!(target.timeout, None);
        },
        SessionPlan::Local(_) => panic!("expected an ssh session"),
    }
}
