//! What the escape parser finds in the output of a session.

use cursor_icon::CursorIcon;
use vstd::prelude::*;

verus! {

/// The icon of the pointing device.
#[verifier::external_type_specification]
#[verifier::external_body]
pub struct ExCursorIcon(cursor_icon::CursorIcon);

/// The shape of the cursor.
#[derive(Debug, Clone, Copy, PartialEq, Eq, Structural)]
pub enum CursorShape {
    Block,
    Underline,
    Beam,
    HollowBlock,
    Hidden,
}

/// The style of the cursor.
#[derive(Debug, Clone, Copy, PartialEq, Eq, Structural)]
pub struct CursorStyle {
    pub shape: CursorShape,
    pub blinking: bool,
}

/// A link under the cursor.
#[derive(Debug)]
pub struct Hyperlink {
    pub id: Option<String>,
    pub uri: String,
}

/// One thing that the output of a session asks for.
#[derive(Debug)]
pub enum Action {
    Print(char),
    SetWindowTitle(String),
    ResetWindowTitle,
    Bell,
    SetCursorShape(CursorShape),
    SetCursorStyle(Option<CursorStyle>),
    SetCursorIcon(CursorIcon),
    SetHyperlink(Option<Hyperlink>),
    /// Answer with the given bytes.
    Report(Vec<u8>),
    /// Hold back what follows until it is complete.
    BeginSync,
    /// What was held back is complete.
    EndSync,
    /// A control code that only the surface understands.
    Control(u32),
}

/// Finds actions in the output of a session.
///
/// `consumed` stands for the bytes that the parser was given so far, in order,
/// and `batches` for the actions that it found, call by call. A parser that is
/// itself verified says what they are.
pub trait EscapeParser {
    open spec fn consumed(&self) -> Seq<u8> {
        Seq::empty()
    }

    open spec fn batches(&self) -> Seq<Seq<Action>> {
        Seq::empty()
    }

    /// The actions that are complete with the given bytes.
    fn advance(&mut self, bytes: &[u8]) -> (actions: Vec<Action>)
        ensures
            final(self).consumed() == old(self).consumed() + bytes@,
            final(self).batches() == old(self).batches().push(actions@),
    ;
}

} // verus!
