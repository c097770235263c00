//! Plain geometry values: points, sizes, rectangles and resize edges.
//!
//! All coordinates are signed 32-bit layout coordinates.  The gesture
//! arithmetic is carried out exactly in 64 bits and clamped to the 32-bit
//! range when a value is stored, so no pointer position can make the core
//! panic.

use vstd::prelude::*;

verus! {

/// A position in layout or surface-local coordinates.
#[derive(Clone, Copy, Debug, PartialEq, Eq, Structural)]
pub struct Origin {
    pub x: i32,
    pub y: i32,
}

/// A width/height pair.
#[derive(Clone, Copy, Debug, PartialEq, Eq, Structural)]
pub struct Size {
    pub width: i32,
    pub height: i32,
}

/// A rectangle: an origin plus a size.
#[derive(Clone, Copy, Debug, PartialEq, Eq, Structural)]
pub struct Area {
    pub origin: Origin,
    pub size: Size,
}

/// Which window edges a resize gesture is dragging.  Edges combine freely;
/// each axis is applied independently.
#[derive(Clone, Copy, Debug, PartialEq, Eq, Structural)]
pub struct Edges {
    pub top: bool,
    pub bottom: bool,
    pub left: bool,
    pub right: bool,
}

impl Origin {
    pub fn new(x: i32, y: i32) -> (r: Origin)
        ensures
            r == (Origin { x, y }),
    {
        Origin { x, y }
    }
}

impl Size {
    pub fn new(width: i32, height: i32) -> (r: Size)
        ensures
            r == (Size { width, height }),
    {
        Size { width, height }
    }
}

impl Edges {
    /// No edge active.
    pub fn none() -> (r: Edges)
        ensures
            r == (Edges { top: false, bottom: false, left: false, right: false }),
    {
        Edges { top: false, bottom: false, left: false, right: false }
    }
}

/// The 32-bit range that stored coordinates are clamped into.
pub open spec fn clamp_i32(v: int) -> int {
    if v > i32::MAX as int {
        i32::MAX as int
    } else if v < i32::MIN as int {
        i32::MIN as int
    } else {
        v
    }
}

/// `a - b`, clamped into the 32-bit range.
pub fn sat_sub_i32(a: i32, b: i32) -> (r: i32)
    ensures
        r as int == clamp_i32(a - b),
{
    let wide: i64 = a as i64 - b as i64;
    clamp_to_i32(wide)
}

/// `a + b`, clamped into the 32-bit range.
pub fn sat_add_i32(a: i32, b: i32) -> (r: i32)
    ensures
        r as int == clamp_i32(a + b),
{
    let wide: i64 = a as i64 + b as i64;
    clamp_to_i32(wide)
}

/// Clamps a 64-bit intermediate into the 32-bit range.
pub(crate) fn clamp_to_i32(wide: i64) -> (r: i32)
    ensures
        r as int == clamp_i32(wide as int),
{
    if wide > i32::MAX as i64 {
        i32::MAX
    } else if wide < i32::MIN as i64 {
        i32::MIN
    } else {
        wide as i32
    }
}

} // verus!
