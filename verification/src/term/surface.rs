//! The surface of a terminal: what the engine asks of it and shows of it.

use vstd::prelude::*;

use crate::term::escape::Action;

verus! {

/// A position on the grid; lines above the screen are negative.
#[derive(Debug, Clone, Copy, PartialEq, Eq, Structural)]
pub struct GridPoint {
    pub line: i32,
    pub column: usize,
}

/// The half of a cell.
#[derive(Debug, Clone, Copy, PartialEq, Eq, Structural)]
pub enum Side {
    Left,
    Right,
}

/// A request to scroll the display.
#[derive(Debug, Clone, Copy, PartialEq, Eq, Structural)]
pub enum Scroll {
    Delta(i32),
    PageUp,
    PageDown,
    Top,
    Bottom,
}

/// How a selection grows.
#[derive(Debug, Clone, Copy, PartialEq, Eq, Structural)]
pub enum SelectionType {
    Simple,
    Block,
    Semantic,
    Lines,
}

/// The modes of a surface that its user interface goes by.
#[derive(Debug, Clone, Copy, PartialEq, Eq, Structural)]
pub struct SurfaceMode {
    pub alt_screen: bool,
    pub app_cursor: bool,
    pub alternate_scroll: bool,
    pub sgr_mouse: bool,
    pub utf8_mouse: bool,
    pub report_mouse_clicks: bool,
    pub report_cell_mouse_motion: bool,
    pub report_all_mouse_motion: bool,
}

/// What a surface shows: its visible characters, its modes and how far it is
/// scrolled back.
#[derive(Debug)]
pub struct SnapshotOwned {
    pub cells: Vec<char>,
    pub mode: SurfaceMode,
    pub display_offset: usize,
}

/// The mathematical value of what a surface shows.
#[verifier::ext_equal]
pub struct PictureModel {
    pub cells: Seq<char>,
    pub mode: SurfaceMode,
    pub display_offset: usize,
}

/// Nothing to see, with every mode off.
pub open spec fn blank_picture() -> PictureModel {
    PictureModel {
        cells: Seq::empty(),
        mode: SurfaceMode {
            alt_screen: false,
            app_cursor: false,
            alternate_scroll: false,
            sgr_mouse: false,
            utf8_mouse: false,
            report_mouse_clicks: false,
            report_cell_mouse_motion: false,
            report_all_mouse_motion: false,
        },
        display_offset: 0,
    }
}

impl View for SnapshotOwned {
    type V = PictureModel;

    open spec fn view(&self) -> PictureModel {
        PictureModel {
            cells: self.cells@,
            mode: self.mode,
            display_offset: self.display_offset,
        }
    }
}

/// The size of a terminal.
#[derive(Debug, Clone, Copy, PartialEq, Eq, Structural)]
pub struct TerminalSize {
    pub rows: u16,
    pub cols: u16,
    pub cell_width: u16,
    pub cell_height: u16,
}

impl TerminalSize {
    /// The size of a terminal that nobody has resized.
    pub open spec fn spec_default() -> TerminalSize {
        TerminalSize { rows: 24, cols: 80, cell_width: 0, cell_height: 0 }
    }
}

impl Default for TerminalSize {
    fn default() -> (r: Self)
        ensures
            r == TerminalSize::spec_default(),
    {
        TerminalSize { rows: 24, cols: 80, cell_width: 0, cell_height: 0 }
    }
}

/// What is asked of a surface.
#[derive(Debug)]
pub enum SurfaceCall {
    Apply(Action),
    Resize(TerminalSize),
    ScrollDisplay(Scroll),
    StartSelection(SelectionType, GridPoint, Side),
    UpdateSelection(GridPoint, Side),
    ResetDamage,
}

/// The mutable screen model of a terminal.
///
/// `asked` stands for what was asked of the surface so far, in order, and
/// `picture` for what it shows. A surface that is itself verified says what
/// they are.
pub trait Surface {
    open spec fn asked(&self) -> Seq<SurfaceCall> {
        Seq::empty()
    }

    open spec fn picture(&self) -> PictureModel {
        blank_picture()
    }

    fn apply(&mut self, action: Action)
        ensures
            final(self).asked() == old(self).asked().push(SurfaceCall::Apply(action)),
    ;

    fn resize(&mut self, size: TerminalSize)
        ensures
            final(self).asked() == old(self).asked().push(SurfaceCall::Resize(size)),
    ;

    fn scroll_display(&mut self, direction: Scroll)
        ensures
            final(self).asked() == old(self).asked().push(SurfaceCall::ScrollDisplay(direction)),
    ;

    fn start_selection(&mut self, ty: SelectionType, point: GridPoint, direction: Side)
        ensures
            final(self).asked() == old(self).asked().push(
                SurfaceCall::StartSelection(ty, point, direction),
            ),
    ;

    fn update_selection(&mut self, point: GridPoint, direction: Side)
        ensures
            final(self).asked() == old(self).asked().push(
                SurfaceCall::UpdateSelection(point, direction),
            ),
    ;

    fn snapshot_owned(&self) -> (frame: SnapshotOwned)
        ensures
            frame@ == self.picture(),
    ;

    fn reset_damage(&mut self)
        ensures
            final(self).asked() == old(self).asked().push(SurfaceCall::ResetDamage),
            final(self).picture() == old(self).picture(),
    ;
}

} // verus!
