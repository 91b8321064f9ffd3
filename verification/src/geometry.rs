//! Positions and sizes in the window.

use vstd::prelude::*;

verus! {

/// A position in the window. The two coordinates are carried as the bit
/// patterns of 32 bit floats.
#[derive(Debug, Clone, Copy, PartialEq, Eq, Structural)]
pub struct Point {
    pub x_bits: u32,
    pub y_bits: u32,
}

impl Point {
    /// The upper left corner: both coordinates are zero.
    pub open spec fn spec_origin() -> Point {
        Point { x_bits: 0, y_bits: 0 }
    }

    /// The upper left corner: both coordinates are zero.
    pub fn origin() -> (point: Point)
        ensures
            point == Point::spec_origin(),
    {
        Point { x_bits: 0, y_bits: 0 }
    }
}

/// An extent in the window, carried as the bit patterns of 32 bit floats.
#[derive(Debug, Clone, Copy, PartialEq, Eq, Structural)]
pub struct Size {
    pub width_bits: u32,
    pub height_bits: u32,
}

impl Size {
    /// No extent at all.
    pub open spec fn spec_zero() -> Size {
        Size { width_bits: 0, height_bits: 0 }
    }

    /// No extent at all.
    pub fn zero() -> (size: Size)
        ensures
            size == Size::spec_zero(),
    {
        Size { width_bits: 0, height_bits: 0 }
    }
}

/// The bit that makes a number negative.
pub const SIGN_BIT: u32 = 0x8000_0000;

/// The pattern of infinity; larger magnitudes are no numbers.
pub const INFINITY_BITS: u32 = 0x7f80_0000;

/// The pattern without its sign. On numbers of one sign the patterns are
/// ordered as the magnitudes are.
pub open spec fn magnitude(bits: u32) -> u32 {
    if bits >= SIGN_BIT {
        (bits - SIGN_BIT) as u32
    } else {
        bits
    }
}

/// Whether the pattern stands for no number.
pub open spec fn is_nan(bits: u32) -> bool {
    magnitude(bits) > INFINITY_BITS
}

/// Whether the pattern stands for a number below zero.
pub open spec fn is_below_zero(bits: u32) -> bool {
    bits > SIGN_BIT && !is_nan(bits)
}

/// The upper end of a range that starts at zero and ends at `limit`: zero
/// where that is below zero or no number.
pub open spec fn upper_end(limit: u32) -> u32 {
    if limit >= SIGN_BIT || is_nan(limit) {
        0
    } else {
        limit
    }
}

/// The coordinate moved into the range from zero to `limit`.
pub open spec fn clamped_bits(bits: u32, limit: u32) -> u32 {
    if is_nan(bits) {
        bits
    } else if is_below_zero(bits) {
        0
    } else if bits < SIGN_BIT && bits > upper_end(limit) {
        upper_end(limit)
    } else {
        bits
    }
}

fn clamp_bits(bits: u32, limit: u32) -> (r: u32)
    ensures
        r == clamped_bits(bits, limit),
{
    let end: u32 = if limit >= SIGN_BIT || limit > INFINITY_BITS {
        0
    } else {
        limit
    };
    let unsigned: u32 = if bits >= SIGN_BIT {
        bits - SIGN_BIT
    } else {
        bits
    };
    if unsigned > INFINITY_BITS {
        bits
    } else if bits > SIGN_BIT {
        0
    } else if bits < SIGN_BIT && bits > end {
        end
    } else {
        bits
    }
}

/// The point moved into the rectangle from the origin to `bounds`.
pub open spec fn clamped_point(point: Point, bounds: Size) -> Point {
    Point {
        x_bits: clamped_bits(point.x_bits, bounds.width_bits),
        y_bits: clamped_bits(point.y_bits, bounds.height_bits),
    }
}

/// The point moved into the rectangle from the origin to `bounds`.
pub fn clamp_point(point: Point, bounds: Size) -> (r: Point)
    ensures
        r == clamped_point(point, bounds),
{
    Point {
        x_bits: clamp_bits(point.x_bits, bounds.width_bits),
        y_bits: clamp_bits(point.y_bits, bounds.height_bits),
    }
}

/// Moving a point into a rectangle twice is the same as once.
pub proof fn clamp_idempotent(point: Point, bounds: Size)
    ensures
        clamped_point(clamped_point(point, bounds), bounds) == clamped_point(point, bounds),
{
}

} // verus!
