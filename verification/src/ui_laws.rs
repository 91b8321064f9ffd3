//! What the user of a terminal gets for what they do in its widget.

use vstd::prelude::*;

use crate::session_options::{SessionKind, SessionModel};
use crate::term::engine::{TerminalEvent, TerminalRequest};
use crate::term::surface::{
    GridPoint, Scroll, SelectionType, Side, SnapshotOwned, TerminalSize,
};
use crate::text::{decimal_text, signed_decimal_text};
use crate::ui_engine::{
    ends_stream, mouse_report, plan_session, Engine, Modifiers, MouseButton, SessionPlan,
};

verus! {

/// A layout with room for cells is the new size of the terminal, rows as rows
/// and columns as columns, and the terminal is asked for just that; the cells
/// keep theirs. A layout without room changes nothing.
pub proof fn layout_resizes_the_terminal(
    engine: &mut Engine,
    lines: u16,
    cols: u16,
    request: Option<TerminalRequest>,
)
    requires
        call_ensures(Engine::resize, (engine, lines, cols), request),
    ensures
        lines > 0 && cols > 0 ==> {
            &&& final(engine).spec_size().rows == lines
            &&& final(engine).spec_size().cols == cols
            &&& final(engine).spec_size().cell_width == old(engine).spec_size().cell_width
            &&& final(engine).spec_size().cell_height == old(engine).spec_size().cell_height
            &&& request matches Some(TerminalRequest::Resize(size)) && size.rows == lines
                && size.cols == cols && size.cell_width == old(engine).spec_size().cell_width
                && size.cell_height == old(engine).spec_size().cell_height
        },
        lines == 0 || cols == 0 ==> request is None && final(engine).spec_size() == old(
            engine,
        ).spec_size(),
        final(engine).spec_snapshot() == old(engine).spec_snapshot(),
{
}

/// A new font changes the size of the cells and not their number.
pub proof fn font_resizes_the_cells(engine: &mut Engine, cell_width: u16, cell_height: u16)
    requires
        call_ensures(Engine::set_cell_size, (engine, cell_width, cell_height), ()),
    ensures
        final(engine).spec_size().cell_width == cell_width,
        final(engine).spec_size().cell_height == cell_height,
        final(engine).spec_size().rows == old(engine).spec_size().rows,
        final(engine).spec_size().cols == old(engine).spec_size().cols,
{
}

/// A frame is what the widget shows from then on.
pub proof fn frame_is_shown(engine: &mut Engine, frame: SnapshotOwned)
    requires
        call_ensures(Engine::sync_snapshot, (engine, frame), ()),
    ensures
        final(engine).spec_snapshot() == frame,
        final(engine).spec_size() == old(engine).spec_size(),
{
}

/// Input is written as it is, and then the display goes to its end.
pub proof fn input_is_written_and_shown(
    engine: Engine,
    input: Vec<u8>,
    requests: Vec<TerminalRequest>,
)
    requires
        call_ensures(Engine::write, (&engine, input), requests),
    ensures
        requests@.len() == 2,
        requests@[0] == TerminalRequest::WriteBytes(input),
        requests@[1] == TerminalRequest::ScrollDisplay(Scroll::Bottom),
{
}

/// Scrolling moves the display by as many lines, up for a positive number. On the
/// alternate screen, where that is wanted, the program gets a cursor key for each
/// line in its place.
pub proof fn scrolling_moves_the_display_or_the_cursor(
    engine: Engine,
    delta: i32,
    request: Option<TerminalRequest>,
    i: int,
)
    requires
        delta != i32::MIN,
        call_ensures(Engine::scroll_delta, (&engine, delta), request),
        0 <= i < if delta > 0 {
            delta as int
        } else {
            -delta
        },
    ensures
        ({
            let keys = engine.spec_mode().alternate_scroll && engine.spec_mode().alt_screen;
            let count = if delta > 0 {
                delta as int
            } else {
                -delta
            };
            &&& !keys ==> request == Some(TerminalRequest::ScrollDisplay(Scroll::Delta(delta)))
            &&& keys ==> (request matches Some(TerminalRequest::WriteBytes(bytes)) && bytes@.len()
                == 3 * count && bytes@[3 * i] == 0x1b && bytes@[3 * i + 1] == 0x4f && bytes@[3 * i
                + 2] == if delta > 0 {
                0x41u8
            } else {
                0x42u8
            })
        }),
{
    assert((3 * i) % 3 == 0 && (3 * i + 1) % 3 == 1 && (3 * i + 2) % 3 == 2);
}

/// Without a distance nothing scrolls.
pub proof fn no_distance_no_scrolling(engine: Engine, request: Option<TerminalRequest>)
    requires
        call_ensures(Engine::scroll_delta, (&engine, 0i32), request),
    ensures
        request is None,
{
}

/// The number of a button, with what the keys add to it.
pub open spec fn button_number(button: MouseButton, modifiers: Modifiers) -> int {
    let base: int = match button {
        MouseButton::LeftButton => 0,
        MouseButton::MiddleButton => 1,
        MouseButton::RightButton => 2,
        MouseButton::LeftMove => 32,
        MouseButton::MiddleMove => 33,
        MouseButton::RightMove => 34,
        MouseButton::NoneMove => 35,
        MouseButton::ScrollUp => 64,
        MouseButton::ScrollDown => 65,
        MouseButton::Other => 99,
    };
    keys_number(modifiers) + base
}

/// What the keys add to the number of a button.
pub open spec fn keys_number(modifiers: Modifiers) -> int {
    let shift: int = if modifiers.shift {
        4
    } else {
        0
    };
    let alt: int = if modifiers.alt {
        8
    } else {
        0
    };
    let command: int = if modifiers.command {
        16
    } else {
        0
    };
    shift + alt + command
}

/// A text of plain characters as bytes.
pub open spec fn plain_bytes(text: Seq<char>) -> Seq<u8> {
    Seq::new(text.len(), |i: int| text[i] as u8)
}

/// A program that asked for the long form of mouse reports gets the button with
/// the keys, the column and the line, both counted from one, and at the end
/// whether the button is down.
pub proof fn long_mouse_report(
    engine: Engine,
    button: MouseButton,
    modifiers: Modifiers,
    point: GridPoint,
    pressed: bool,
    request: Option<TerminalRequest>,
)
    requires
        engine.spec_mode().sgr_mouse,
        point.column < usize::MAX,
        point.line < i32::MAX,
        call_ensures(
            Engine::process_mouse_report,
            (&engine, button, modifiers, point, pressed),
            request,
        ),
    ensures
        request matches Some(TerminalRequest::WriteBytes(bytes)) && bytes@ == seq![
            0x1bu8,
            0x5b,
            0x3c,
        ] + plain_bytes(decimal_text(button_number(button, modifiers) as nat)) + seq![0x3bu8]
            + plain_bytes(decimal_text((point.column + 1) as nat)) + seq![0x3bu8] + plain_bytes(
            signed_decimal_text(point.line + 1),
        ) + seq![
            if pressed {
                0x4du8
            } else {
                0x6du8
            },
        ],
{
    reveal_strlit("\x1b[<");
    reveal_strlit(";");
    reveal_strlit("M");
    reveal_strlit("m");
    let bytes = mouse_report(engine.spec_mode(), button, modifiers, point, pressed)->0;
    assert(bytes =~= seq![0x1bu8, 0x5b, 0x3c] + plain_bytes(
        decimal_text(button_number(button, modifiers) as nat),
    ) + seq![0x3bu8] + plain_bytes(decimal_text((point.column + 1) as nat)) + seq![0x3bu8]
        + plain_bytes(signed_decimal_text(point.line + 1)) + seq![
        if pressed {
            0x4du8
        } else {
            0x6du8
        },
    ]);
}

/// The short form of mouse reports has a byte for the button, which is three for
/// any that is let go, and one for each position. A place that does not fit into
/// it is not reported.
pub proof fn short_mouse_report(
    engine: Engine,
    button: MouseButton,
    modifiers: Modifiers,
    point: GridPoint,
    pressed: bool,
    request: Option<TerminalRequest>,
)
    requires
        !engine.spec_mode().sgr_mouse,
        !engine.spec_mode().utf8_mouse,
        point.line >= 0,
        call_ensures(
            Engine::process_mouse_report,
            (&engine, button, modifiers, point, pressed),
            request,
        ),
    ensures
        point.line >= 223 || point.column >= 223 ==> request is None,
        point.line < 223 && point.column < 223 ==> (request matches Some(
            TerminalRequest::WriteBytes(bytes),
        ) && bytes@.len() == 6 && bytes@[0] == 0x1b && bytes@[1] == 0x5b && bytes@[2] == 0x4d
            && bytes@[3] == 32 + if pressed {
            button_number(button, modifiers)
        } else {
            3 + keys_number(modifiers)
        } && bytes@[4] == 33 + point.column && bytes@[5] == 33 + point.line),
{
}

/// In the wide short form far positions take two bytes, and more places fit.
pub proof fn wide_mouse_report(
    engine: Engine,
    button: MouseButton,
    modifiers: Modifiers,
    point: GridPoint,
    request: Option<TerminalRequest>,
)
    requires
        !engine.spec_mode().sgr_mouse,
        engine.spec_mode().utf8_mouse,
        point.line >= 0,
        call_ensures(
            Engine::process_mouse_report,
            (&engine, button, modifiers, point, true),
            request,
        ),
    ensures
        point.line >= 2015 || point.column >= 2015 ==> request is None,
        point.line < 95 && 95 <= point.column < 2015 ==> (request matches Some(
            TerminalRequest::WriteBytes(bytes),
        ) && bytes@.len() == 7 && bytes@[3] == 32 + button_number(button, modifiers) && (bytes@[4]
            - 0xc0) * 64 + (bytes@[5] - 0x80) == 33 + point.column && 0x80 <= bytes@[5] < 0xc0
            && bytes@[6] == 33 + point.line),
        point.line < 95 && point.column < 95 ==> (request matches Some(
            TerminalRequest::WriteBytes(bytes),
        ) && bytes@.len() == 6 && bytes@[4] == 33 + point.column && bytes@[5] == 33 + point.line),
{
}

/// A selection starts and goes on in the cell under the mouse, in the half of it
/// where the mouse is; what the display is scrolled back counts.
pub proof fn selection_is_under_the_mouse(
    engine: Engine,
    ty: SelectionType,
    x: usize,
    y: usize,
    started: TerminalRequest,
    updated: TerminalRequest,
)
    requires
        engine.spec_size().cell_width > 0,
        engine.spec_size().cell_height > 0,
        engine.spec_size().cols > 0,
        engine.spec_size().rows > 0,
        engine.spec_offset() <= i32::MAX,
        call_ensures(Engine::start_selection, (&engine, ty, x, y), started),
        call_ensures(Engine::update_selection, (&engine, x, y), updated),
    ensures
        started matches TerminalRequest::StartSelection { ty: kind, point, direction } && kind == ty
            && is_under(engine.spec_size(), engine.spec_offset() as int, x, y, point, direction),
        updated matches TerminalRequest::UpdateSelection { point, direction } && is_under(
            engine.spec_size(),
            engine.spec_offset() as int,
            x,
            y,
            point,
            direction,
        ),
{
    let width = engine.spec_size().cell_width as int;
    let height = engine.spec_size().cell_height as int;
    let cols = engine.spec_size().cols as int;
    let rows = engine.spec_size().rows as int;
    lemma_cell(x as int, width, cols);
    lemma_cell(y as int, height, rows);
}

/// Whether a cell is the one under the mouse: the mouse is between its edges, or
/// the cell is the last and the mouse is beyond it. The side is the right one
/// past the middle.
pub open spec fn is_under(
    size: TerminalSize,
    offset: int,
    x: usize,
    y: usize,
    point: GridPoint,
    side: Side,
) -> bool {
    let column = point.column as int;
    let line = point.line + offset;
    &&& 0 <= column < size.cols && 0 <= line < size.rows
    &&& column * size.cell_width <= x
    &&& x < (column + 1) * size.cell_width || column == size.cols - 1
    &&& line * size.cell_height <= y
    &&& y < (line + 1) * size.cell_height || line == size.rows - 1
    &&& x < (column + 1) * size.cell_width ==> (side is Right) == (x - column * size.cell_width
        > size.cell_width as int / 2)
}

proof fn lemma_cell(x: int, width: int, count: int)
    requires
        x >= 0,
        width > 0,
        count > 0,
    ensures
        ({
            let cell = if x / width > count - 1 {
                count - 1
            } else {
                x / width
            };
            &&& 0 <= cell < count
            &&& cell * width <= x
            &&& x < (cell + 1) * width || cell == count - 1
            &&& x < (cell + 1) * width ==> x % width == x - cell * width
        }),
{
    let whole = x / width;
    assert(x == width * whole + x % width && 0 <= x % width < width && whole >= 0)
        by (nonlinear_arith)
        requires
            x >= 0,
            width > 0,
            whole == x / width,
    ;
    assert(width * whole == whole * width) by (nonlinear_arith);
    assert((whole + 1) * width == whole * width + width) by (nonlinear_arith);
    if whole > count - 1 {
        let cell = count - 1;
        assert((cell + 1) * width <= whole * width) by (nonlinear_arith)
            requires
                cell + 1 <= whole,
                width > 0,
        ;
        assert(cell * width <= whole * width) by (nonlinear_arith)
            requires
                cell <= whole,
                width > 0,
        ;
    }
}

/// The session that a terminal opens is the one that its settings name, at the
/// size of the terminal.
pub proof fn session_is_the_one_that_was_asked_for(
    kind: SessionKind,
    size: TerminalSize,
    plan: SessionPlan,
)
    requires
        call_ensures(plan_session, (&kind, size), plan),
    ensures
        kind@ matches SessionModel::Local(options) ==> (plan matches SessionPlan::Local(builder) && {
            &&& builder@.program == options.program
            &&& builder@.args == options.args
            &&& builder@.work_dir == options.working_directory
            &&& builder@.controlling_tty
            &&& builder@.size.rows == size.rows && builder@.size.cols == size.cols
                && builder@.size.cell_width == size.cell_width && builder@.size.cell_height
                == size.cell_height
            &&& builder@.envs.len() == options.envs.len()
            &&& forall|i: int|
                0 <= i < options.envs.len() ==> #[trigger] builder@.envs[i] == (
                    options.envs[i].0,
                    Some(options.envs[i].1),
                )
        }),
        kind@ matches SessionModel::Ssh(options) ==> (plan matches SessionPlan::Ssh(builder) && {
            &&& builder@.host == options.host
            &&& builder@.user == options.user
            &&& builder@.auth == options.auth
            &&& builder@.timeout == options.timeout
            &&& builder@.cancel == options.cancel_token
            &&& builder@.size.rows == size.rows && builder@.size.cols == size.cols
                && builder@.size.cell_width == size.cell_width && builder@.size.cell_height
                == size.cell_height
        }),
{
}

/// The stream of events ends with the exit of the child, and with nothing else.
pub proof fn exit_ends_the_stream(event: TerminalEvent, last: bool)
    requires
        call_ensures(ends_stream, (&event,), last),
    ensures
        last == (event is ChildExit),
{
}

} // verus!
