//! The terminal as its widget sees it: what the mouse, the keyboard and the
//! layout ask of the terminal behind it.

use vstd::prelude::*;
use vstd::string::StringExecFns;

use crate::pty::local::{bare_local, local, LocalModel, LocalSessionBuilder};
use crate::pty::session::PtySize;
use crate::pty::ssh::{ssh, SSHSessionBuilder, SshBuilderModel};
use crate::session_options::{SessionKind, SessionModel};
use crate::term::engine::{TerminalEvent, TerminalRequest};
use crate::term::surface::{
    GridPoint, Scroll, SelectionType, Side, SnapshotOwned, SurfaceMode, TerminalSize,
};
use crate::text::{chars_of, decimal, decimal_text, signed_decimal, signed_decimal_text, text_pairs};

verus! {

/// How the mouse is reported.
#[derive(Debug, Clone, Copy, PartialEq, Eq, Structural)]
pub enum MouseMode {
    Sgr,
    /// Whether positions are written in UTF-8.
    Normal(bool),
}

/// How the mouse is reported in a mode of the surface.
pub open spec fn mouse_mode(mode: SurfaceMode) -> MouseMode {
    if mode.sgr_mouse {
        MouseMode::Sgr
    } else {
        MouseMode::Normal(mode.utf8_mouse)
    }
}

impl vstd::std_specs::convert::FromSpecImpl<SurfaceMode> for MouseMode {
    open spec fn obeys_from_spec() -> bool {
        true
    }

    open spec fn from_spec(mode: SurfaceMode) -> MouseMode {
        mouse_mode(mode)
    }
}

impl From<SurfaceMode> for MouseMode {
    fn from(mode: SurfaceMode) -> (r: MouseMode) {
        if mode.sgr_mouse {
            MouseMode::Sgr
        } else if mode.utf8_mouse {
            MouseMode::Normal(true)
        } else {
            MouseMode::Normal(false)
        }
    }
}

/// What the mouse does.
#[derive(Debug, Clone, Copy, PartialEq, Eq, Structural)]
pub enum MouseButton {
    LeftButton,
    MiddleButton,
    RightButton,
    LeftMove,
    MiddleMove,
    RightMove,
    NoneMove,
    ScrollUp,
    ScrollDown,
    Other,
}

impl MouseButton {
    /// The number by which a report names it.
    pub open spec fn spec_code(self) -> u8 {
        match self {
            MouseButton::LeftButton => 0,
            MouseButton::MiddleButton => 1,
            MouseButton::RightButton => 2,
            MouseButton::LeftMove => 32,
            MouseButton::MiddleMove => 33,
            MouseButton::RightMove => 34,
            MouseButton::NoneMove => 35,
            MouseButton::ScrollUp => 64,
            MouseButton::ScrollDown => 65,
            MouseButton::Other => 99,
        }
    }

    /// The number by which a report names it.
    pub fn code(&self) -> (code: u8)
        ensures
            code == self.spec_code(),
    {
        match self {
            MouseButton::LeftButton => 0,
            MouseButton::MiddleButton => 1,
            MouseButton::RightButton => 2,
            MouseButton::LeftMove => 32,
            MouseButton::MiddleMove => 33,
            MouseButton::RightMove => 34,
            MouseButton::NoneMove => 35,
            MouseButton::ScrollUp => 64,
            MouseButton::ScrollDown => 65,
            MouseButton::Other => 99,
        }
    }
}

/// The keys that are held down with the mouse.
#[derive(Debug, Clone, Copy, PartialEq, Eq, Structural)]
pub struct Modifiers {
    pub shift: bool,
    pub alt: bool,
    pub command: bool,
}

/// The number by which a report names the keys.
pub open spec fn modifier_code(modifiers: Modifiers) -> int {
    (if modifiers.shift {
        4int
    } else {
        0
    }) + (if modifiers.alt {
        8int
    } else {
        0
    }) + (if modifiers.command {
        16int
    } else {
        0
    })
}

/// The bytes of a text of ASCII characters.
pub open spec fn ascii_bytes(text: Seq<char>) -> Seq<u8> {
    text.map_values(|c: char| c as u8)
}

fn to_bytes(text: &str) -> (bytes: Vec<u8>)
    ensures
        bytes@ == ascii_bytes(text@),
{
    let chars = chars_of(text);
    let mut bytes: Vec<u8> = Vec::new();
    let mut i: usize = 0;
    while i < chars.len()
        invariant
            chars@ == text@,
            i <= chars@.len(),
            bytes@ == ascii_bytes(text@.take(i as int)),
        decreases chars@.len() - i,
    {
        bytes.push(chars[i] as u8);
        i += 1;
        assert(bytes@ =~= ascii_bytes(text@.take(i as int)));
    }
    assert(text@.take(text@.len() as int) =~= text@);
    bytes
}

/// The report of the mouse in the SGR form: the button, the column and the
/// line in decimal, both counted from one, and a letter that tells a press
/// from a release.
pub open spec fn sgr_report(point: GridPoint, button: int, pressed: bool) -> Seq<u8> {
    ascii_bytes(
        "\x1b[<"@ + decimal_text(button as nat) + ";"@ + decimal_text((point.column + 1) as nat)
            + ";"@ + signed_decimal_text(point.line + 1) + (if pressed {
            "M"@
        } else {
            "m"@
        }),
    )
}

/// The largest position that a report of the mouse can hold, in the plain form
/// and in UTF-8.
pub open spec fn report_limit(is_utf8: bool) -> int {
    if is_utf8 {
        2015
    } else {
        223
    }
}

/// A position in a report: one byte, or two in the manner of UTF-8.
pub open spec fn position_bytes(position: int, is_utf8: bool) -> Seq<u8> {
    if is_utf8 && position >= 95 {
        seq![
            (0xc0 + (position + 33) / 64) as u8,
            (0x80 + (position + 33) % 64) as u8,
        ]
    } else {
        seq![(33 + position % 256) as u8]
    }
}

/// The report of the mouse in the plain form, if the position can be reported.
pub open spec fn normal_report(point: GridPoint, button: int, is_utf8: bool) -> Option<Seq<u8>> {
    if point.line >= report_limit(is_utf8) || point.column >= report_limit(is_utf8) {
        None
    } else {
        Some(
            seq![0x1bu8, '[' as u8, 'M' as u8, (32 + button) as u8] + position_bytes(
                point.column as int,
                is_utf8,
            ) + position_bytes(point.line as int, is_utf8),
        )
    }
}

/// Whether a line can be written into one byte of a plain report; one above
/// the screen is written by its low byte.
pub open spec fn line_fits(line: i32) -> bool {
    line >= 0 || (line as int) % 256 <= 222
}

/// The report of the mouse, if there is one. A release in the plain form does
/// not name the button.
pub open spec fn mouse_report(
    mode: SurfaceMode,
    button: MouseButton,
    modifiers: Modifiers,
    point: GridPoint,
    pressed: bool,
) -> Option<Seq<u8>> {
    let mods = modifier_code(modifiers);
    match mouse_mode(mode) {
        MouseMode::Sgr => Some(sgr_report(point, button.spec_code() + mods, pressed)),
        MouseMode::Normal(is_utf8) => normal_report(
            point,
            (if pressed {
                button.spec_code() as int
            } else {
                3
            }) + mods,
            is_utf8,
        ),
    }
}

/// Whether a request writes the given bytes.
pub open spec fn writes(request: Option<TerminalRequest>, bytes: Option<Seq<u8>>) -> bool {
    match bytes {
        Some(bytes) => request matches Some(TerminalRequest::WriteBytes(b)) && b@ == bytes,
        None => request is None,
    }
}

fn push_position(message: &mut Vec<u8>, position: usize, is_utf8: bool)
    requires
        position < report_limit(is_utf8),
    ensures
        final(message)@ == old(message)@ + position_bytes(position as int, is_utf8),
{
    if is_utf8 && position >= 95 {
        let shifted: usize = 32 + 1 + position;
        message.push((0xc0 + shifted / 64) as u8);
        message.push((0x80 + shifted % 64) as u8);
    } else {
        message.push((32 + 1 + position) as u8);
    }
    assert(message@ =~= old(message)@ + position_bytes(position as int, is_utf8));
}

/// The cell at a place of the viewport, given in pixels: the last column and
/// the last line take what lies beyond them. Scrolled back by `display_offset`
/// lines, the viewport shows lines above the screen.
pub open spec fn cell_at(x: int, y: int, size: TerminalSize, display_offset: int) -> (int, int) {
    let column = if x / size.cell_width as int > size.cols - 1 {
        size.cols - 1
    } else {
        x / size.cell_width as int
    };
    let line = if y / size.cell_height as int > size.rows - 1 {
        size.rows - 1
    } else {
        y / size.cell_height as int
    };
    (line - display_offset, column)
}

/// The half of a cell at a place of the viewport: the right one from the pixel
/// after the middle on.
pub open spec fn side_at(x: int, size: TerminalSize) -> Side {
    if x % size.cell_width as int > size.cell_width as int / 2 {
        Side::Right
    } else {
        Side::Left
    }
}

/// Whether a terminal has cells to point at.
pub open spec fn has_cells(size: TerminalSize) -> bool {
    size.cell_width > 0 && size.cell_height > 0 && size.cols > 0 && size.rows > 0
}

/// The keys that scroll an application by `count` lines, as the application
/// sees them.
pub open spec fn scroll_keys(count: int, letter: u8) -> Seq<u8> {
    Seq::new(
        (count * 3) as nat,
        |i: int|
            if i % 3 == 0 {
                0x1bu8
            } else if i % 3 == 1 {
                'O' as u8
            } else {
                letter
            },
    )
}

/// The session that a terminal opens, ready to be spawned.
pub enum SessionPlan {
    Local(LocalSessionBuilder),
    Ssh(SSHSessionBuilder),
}

/// The size of a session for a terminal of the given size.
pub open spec fn session_size(size: TerminalSize) -> PtySize {
    PtySize {
        rows: size.rows,
        cols: size.cols,
        cell_width: size.cell_width,
        cell_height: size.cell_height,
    }
}

/// Whether a plan is for the given session and size.
pub open spec fn is_plan_for(plan: SessionPlan, session: SessionModel, size: TerminalSize) -> bool {
    match session {
        SessionModel::Local(options) => plan matches SessionPlan::Local(builder) && builder@ == (
        LocalModel {
            args: options.args,
            envs: options.envs.map_values(|e: (Seq<char>, Seq<char>)| (e.0, Some(e.1))),
            size: session_size(size),
            work_dir: options.working_directory,
            controlling_tty: true,
            ..bare_local(options.program)
        }),
        SessionModel::Ssh(options) => plan matches SessionPlan::Ssh(builder) && builder@ == (
        SshBuilderModel {
            host: options.host,
            user: options.user,
            auth: options.auth,
            size: session_size(size),
            timeout: options.timeout,
            cancel: options.cancel_token,
        }),
    }
}

/// The session that a terminal opens, ready to be spawned.
pub fn plan_session(kind: &SessionKind, size: TerminalSize) -> (plan: SessionPlan)
    ensures
        is_plan_for(plan, kind@, size),
{
    let pty_size = PtySize {
        rows: size.rows,
        cols: size.cols,
        cell_width: size.cell_width,
        cell_height: size.cell_height,
    };
    match kind {
        SessionKind::Local(options) => {
            let mut builder = local(options.program()).with_args(
                options.args().as_slice(),
            ).with_size(pty_size).set_controling_tty_enable();
            let ghost base = builder@;
            assert(base.args =~= options@.args);
            let ghost envs = options@.envs.map_values(
                |e: (Seq<char>, Seq<char>)| (e.0, Some(e.1)),
            );
            let pairs = options.envs();
            let mut i: usize = 0;
            assert(envs.take(0) =~= Seq::empty());
            while i < pairs.len()
                invariant
                    i <= pairs@.len(),
                    text_pairs(pairs@) == options@.envs,
                    envs == options@.envs.map_values(
                        |e: (Seq<char>, Seq<char>)| (e.0, Some(e.1)),
                    ),
                    builder@ == (LocalModel { envs: envs.take(i as int), ..base }),
                decreases pairs@.len() - i,
            {
                let key = pairs[i].0.as_str();
                let value = pairs[i].1.as_str();
                assert(options@.envs[i as int] == (key@, value@));
                assert(envs.take(i + 1) =~= envs.take(i as int).push((key@, Some(value@))));
                builder = builder.with_env(key, value);
                i += 1;
            }
            assert(envs.take(envs.len() as int) =~= envs);
            if let Some(cwd) = options.working_directory() {
                builder = builder.with_cwd(cwd);
            }
            SessionPlan::Local(builder)
        },
        SessionKind::Ssh(options) => {
            let mut builder = ssh().with_host(options.host()).with_user(options.user()).with_auth(
                options.auth(),
            ).with_size(pty_size);
            if let Some(timeout) = options.timeout() {
                builder = builder.with_timeout(timeout);
            }
            if let Some(cancel) = options.cancel_token() {
                builder = builder.with_cancel_token(cancel);
            }
            SessionPlan::Ssh(builder)
        },
    }
}

/// Whether an event is the last one of a terminal.
pub fn ends_stream(event: &TerminalEvent) -> (r: bool)
    ensures
        r == event is ChildExit,
{
    match event {
        TerminalEvent::ChildExit { .. } => true,
        _ => false,
    }
}

/// The terminal as its widget sees it.
pub struct Engine {
    terminal_size: TerminalSize,
    snapshot: SnapshotOwned,
}

impl Engine {
    /// The size of the terminal.
    pub closed spec fn spec_size(&self) -> TerminalSize {
        self.terminal_size
    }

    /// What the terminal shows.
    pub closed spec fn spec_snapshot(&self) -> SnapshotOwned {
        self.snapshot
    }

    /// The modes that the terminal shows.
    pub open spec fn spec_mode(&self) -> SurfaceMode {
        self.spec_snapshot().mode
    }

    /// How far the terminal is scrolled back.
    pub open spec fn spec_offset(&self) -> usize {
        self.spec_snapshot().display_offset
    }

    /// A terminal of the given size that shows the given picture.
    pub fn new(terminal_size: TerminalSize, snapshot: SnapshotOwned) -> (engine: Engine)
        ensures
            engine.spec_size() == terminal_size,
            engine.spec_snapshot() == snapshot,
    {
        Engine { terminal_size, snapshot }
    }

    pub fn terminal_size(&self) -> (size: TerminalSize)
        ensures
            size == self.spec_size(),
    {
        self.terminal_size
    }

    pub fn snapshot(&self) -> (snapshot: &SnapshotOwned)
        ensures
            *snapshot == self.spec_snapshot(),
    {
        &self.snapshot
    }

    /// Show another picture.
    pub fn sync_snapshot(&mut self, frame: SnapshotOwned)
        ensures
            final(self).spec_size() == old(self).spec_size(),
            final(self).spec_snapshot() == frame,
    {
        self.snapshot = frame;
    }

    /// What the terminal is told of the mouse.
    pub fn process_mouse_report(
        &self,
        button: MouseButton,
        modifiers: Modifiers,
        point: GridPoint,
        pressed: bool,
    ) -> (request: Option<TerminalRequest>)
        requires
            mouse_mode(self.spec_mode()) is Sgr ==> point.column < usize::MAX && point.line
                < i32::MAX,
            mouse_mode(self.spec_mode()) is Normal ==> line_fits(point.line),
        ensures
            writes(request, mouse_report(self.spec_mode(), button, modifiers, point, pressed)),
    {
        let mut mods: u8 = 0;
        if modifiers.shift {
            mods += 4;
        }
        if modifiers.alt {
            mods += 8;
        }
        if modifiers.command {
            mods += 16;
        }
        match MouseMode::from(self.snapshot.mode) {
            MouseMode::Sgr => Some(sgr_mouse_report(point, button.code() + mods, pressed)),
            MouseMode::Normal(is_utf8) => if pressed {
                normal_mouse_report(point, button.code() + mods, is_utf8)
            } else {
                normal_mouse_report(point, 3 + mods, is_utf8)
            },
        }
    }

    /// Start a selection at a place of the viewport, given in pixels.
    pub fn start_selection(&self, selection_type: SelectionType, x: usize, y: usize) -> (request:
        TerminalRequest)
        requires
            has_cells(self.spec_size()),
            self.spec_offset() <= i32::MAX,
        ensures
            request matches TerminalRequest::StartSelection { ty, point, direction } && ty
                == selection_type && (point.line as int, point.column as int) == cell_at(
                x as int,
                y as int,
                self.spec_size(),
                self.spec_offset() as int,
            ) && direction == side_at(x as int, self.spec_size()),
    {
        let point = Engine::selection_point(
            x,
            y,
            &self.terminal_size,
            self.snapshot.display_offset,
        );
        TerminalRequest::StartSelection {
            ty: selection_type,
            point,
            direction: self.selection_side(x),
        }
    }

    /// Extend the selection to a place of the viewport, given in pixels.
    pub fn update_selection(&self, x: usize, y: usize) -> (request: TerminalRequest)
        requires
            has_cells(self.spec_size()),
            self.spec_offset() <= i32::MAX,
        ensures
            request matches TerminalRequest::UpdateSelection { point, direction } && (
            point.line as int, point.column as int) == cell_at(
                x as int,
                y as int,
                self.spec_size(),
                self.spec_offset() as int,
            ) && direction == side_at(x as int, self.spec_size()),
    {
        let point = Engine::selection_point(
            x,
            y,
            &self.terminal_size,
            self.snapshot.display_offset,
        );
        TerminalRequest::UpdateSelection { point, direction: self.selection_side(x) }
    }

    /// The cell at a place of the viewport, given in pixels.
    pub fn selection_point(
        x: usize,
        y: usize,
        terminal_size: &TerminalSize,
        display_offset: usize,
    ) -> (point: GridPoint)
        requires
            has_cells(*terminal_size),
            display_offset <= i32::MAX,
        ensures
            (point.line as int, point.column as int) == cell_at(
                x as int,
                y as int,
                *terminal_size,
                display_offset as int,
            ),
    {
        let last_column: usize = terminal_size.cols as usize - 1;
        let last_line: usize = terminal_size.rows as usize - 1;
        let mut column: usize = x / terminal_size.cell_width as usize;
        if column > last_column {
            column = last_column;
        }
        let mut line: usize = y / terminal_size.cell_height as usize;
        if line > last_line {
            line = last_line;
        }
        GridPoint { line: line as i32 - display_offset as i32, column }
    }

    fn selection_side(&self, x: usize) -> (side: Side)
        requires
            self.terminal_size.cell_width > 0,
        ensures
            side == side_at(x as int, self.terminal_size),
    {
        let width: usize = self.terminal_size.cell_width as usize;
        if x % width > width / 2 {
            Side::Right
        } else {
            Side::Left
        }
    }

    /// Take over the size of a cell.
    pub fn set_cell_size(&mut self, cell_width: u16, cell_height: u16)
        ensures
            final(self).spec_size() == (TerminalSize {
                cell_width,
                cell_height,
                ..old(self).spec_size()
            }),
            final(self).spec_snapshot() == old(self).spec_snapshot(),
    {
        self.terminal_size.cell_width = cell_width;
        self.terminal_size.cell_height = cell_height;
    }

    /// Resize the terminal to as many lines and columns as fit into its
    /// layout. Where none fit, it keeps its size.
    pub fn resize(&mut self, lines: u16, cols: u16) -> (request: Option<TerminalRequest>)
        ensures
            final(self).spec_snapshot() == old(self).spec_snapshot(),
            if lines > 0 && cols > 0 {
                &&& final(self).spec_size() == (TerminalSize {
                    rows: lines,
                    cols,
                    ..old(self).spec_size()
                })
                &&& request == Some(TerminalRequest::Resize(final(self).spec_size()))
            } else {
                final(self).spec_size() == old(self).spec_size() && request is None
            },
    {
        if lines > 0 && cols > 0 {
            self.terminal_size.rows = lines;
            self.terminal_size.cols = cols;
            return Some(TerminalRequest::Resize(self.terminal_size));
        }
        None
    }

    /// Write to the terminal, and show its end.
    pub fn write(&self, input: Vec<u8>) -> (requests: Vec<TerminalRequest>)
        ensures
            requests@ == seq![
                TerminalRequest::WriteBytes(input),
                TerminalRequest::ScrollDisplay(Scroll::Bottom),
            ],
    {
        let mut requests: Vec<TerminalRequest> = Vec::new();
        requests.push(TerminalRequest::WriteBytes(input));
        requests.push(TerminalRequest::ScrollDisplay(Scroll::Bottom));
        assert(requests@ =~= seq![
            TerminalRequest::WriteBytes(input),
            TerminalRequest::ScrollDisplay(Scroll::Bottom),
        ]);
        requests
    }

    /// Scroll by lines. An application on the alternate screen that wants to
    /// scroll itself is sent arrow keys instead.
    pub fn scroll_delta(&self, delta_value: i32) -> (request: Option<TerminalRequest>)
        requires
            self.spec_mode().alternate_scroll && self.spec_mode().alt_screen ==> delta_value
                != i32::MIN,
        ensures
            if delta_value == 0 {
                request is None
            } else if self.spec_mode().alternate_scroll && self.spec_mode().alt_screen {
                writes(
                    request,
                    Some(
                        if delta_value > 0 {
                            scroll_keys(delta_value as int, 'A' as u8)
                        } else {
                            scroll_keys(-delta_value, 'B' as u8)
                        },
                    ),
                )
            } else {
                request == Some(TerminalRequest::ScrollDisplay(Scroll::Delta(delta_value)))
            },
    {
        if delta_value == 0 {
            return None;
        }
        if self.snapshot.mode.alternate_scroll && self.snapshot.mode.alt_screen {
            let letter: u8 = if delta_value > 0 {
                'A' as u8
            } else {
                'B' as u8
            };
            let count: i32 = if delta_value > 0 {
                delta_value
            } else {
                -delta_value
            };
            let mut content: Vec<u8> = Vec::new();
            let mut i: i32 = 0;
            assert(scroll_keys(0, letter) =~= Seq::empty());
            while i < count
                invariant
                    0 <= i <= count,
                    content@ == scroll_keys(i as int, letter),
                decreases count - i,
            {
                content.push(0x1b);
                content.push('O' as u8);
                content.push(letter);
                i += 1;
                assert(content@ =~= scroll_keys(i as int, letter));
            }
            return Some(TerminalRequest::WriteBytes(content));
        }
        Some(TerminalRequest::ScrollDisplay(Scroll::Delta(delta_value)))
    }
}

fn sgr_mouse_report(point: GridPoint, button: u8, pressed: bool) -> (request: TerminalRequest)
    requires
        point.column < usize::MAX,
        point.line < i32::MAX,
    ensures
        request matches TerminalRequest::WriteBytes(bytes) && bytes@ == sgr_report(
            point,
            button as int,
            pressed,
        ),
{
    let mut text = "\x1b[<".to_string();
    text.append(decimal(button as u64).as_str());
    text.append(";");
    text.append(decimal((point.column + 1) as u64).as_str());
    text.append(";");
    text.append(signed_decimal(point.line as i64 + 1).as_str());
    text.append(
        if pressed {
            "M"
        } else {
            "m"
        },
    );
    TerminalRequest::WriteBytes(to_bytes(text.as_str()))
}

fn normal_mouse_report(point: GridPoint, button: u8, is_utf8: bool) -> (request: Option<
    TerminalRequest,
>)
    requires
        button <= 127,
        line_fits(point.line),
    ensures
        writes(request, normal_report(point, button as int, is_utf8)),
{
    let max_point: i32 = if is_utf8 {
        2015
    } else {
        223
    };
    if point.line >= max_point || point.column >= max_point as usize {
        return None;
    }
    let mut message: Vec<u8> = Vec::new();
    message.push(0x1b);
    message.push('[' as u8);
    message.push('M' as u8);
    message.push(32 + button);
    assert(message@ =~= seq![0x1bu8, '[' as u8, 'M' as u8, (32 + button) as u8]);
    push_position(&mut message, point.column, is_utf8);
    if point.line >= 0 {
        push_position(&mut message, point.line as usize, is_utf8);
    } else {
        let ghost before = message@;
        let above: i64 = -(point.line as i64 + 1);
        let low: u8 = (255 - above % 256) as u8;
        assert(low as int == (point.line as int) % 256);
        message.push(32 + 1 + low);
        assert(message@ =~= before + position_bytes(point.line as int, is_utf8));
    }
    Some(TerminalRequest::WriteBytes(message))
}

/// A place of the viewport, however far out, selects a cell of the terminal.
pub proof fn selected_cell_is_on_the_grid(x: int, y: int, size: TerminalSize, display_offset: int)
    requires
        has_cells(size),
        x >= 0,
        y >= 0,
    ensures
        0 <= cell_at(x, y, size, display_offset).1 < size.cols,
        0 <= cell_at(x, y, size, display_offset).0 + display_offset < size.rows,
{
    assert(x / size.cell_width as int >= 0) by (nonlinear_arith)
        requires
            x >= 0,
            size.cell_width > 0,
    ;
    assert(y / size.cell_height as int >= 0) by (nonlinear_arith)
        requires
            y >= 0,
            size.cell_height > 0,
    ;
}

/// Two positions that can be reported are reported differently.
pub proof fn positions_are_told_apart(a: int, b: int, is_utf8: bool)
    requires
        0 <= a < report_limit(is_utf8),
        0 <= b < report_limit(is_utf8),
        position_bytes(a, is_utf8) == position_bytes(b, is_utf8),
    ensures
        a == b,
{
    let x = position_bytes(a, is_utf8);
    let y = position_bytes(b, is_utf8);
    assert(x.len() == y.len());
    assert(x[0] == y[0]);
    if x.len() == 2 {
        assert(x[1] == y[1]);
        let p = a + 33;
        let q = b + 33;
        assert(0 <= p / 64 < 0x40 && 0 <= q / 64 < 0x40);
        assert(0 <= p % 64 < 64 && 0 <= q % 64 < 64);
        assert(x[0] as int == 0xc0 + p / 64 && y[0] as int == 0xc0 + q / 64);
        assert(x[1] as int == 0x80 + p % 64 && y[1] as int == 0x80 + q % 64);
        assert(p == 64 * (p / 64) + p % 64 && q == 64 * (q / 64) + q % 64);
    } else {
        assert(a % 256 == a && b % 256 == b);
        assert(x[0] as int == 33 + a && y[0] as int == 33 + b);
    }
}

} // verus!
