//! Plain value types shared by the whole library.

use vstd::prelude::*;

verus! {

/// A two-dimensional extent, in pixels.
#[derive(Debug, Clone, Copy, PartialEq, Eq)]
pub struct Dim2D {
    pub width: u32,
    pub height: u32,
}

/// A three-dimensional extent, in pixels.
#[derive(Debug, Clone, Copy, PartialEq, Eq)]
pub struct Dim3D {
    pub width: u32,
    pub height: u32,
    pub depth: u32,
}

/// A signed three-dimensional offset, in pixels.
#[derive(Debug, Clone, Copy, PartialEq, Eq)]
pub struct Offset3D {
    pub x: i32,
    pub y: i32,
    pub z: i32,
}

/// The larger of two integers.
pub open spec fn spec_max(a: int, b: int) -> int {
    if a >= b { a } else { b }
}

/// The larger of two `u32` values.
pub fn max_u32(a: u32, b: u32) -> (r: u32)
    ensures
        r == spec_max(a as int, b as int),
{
    if a >= b { a } else { b }
}

} // verus!
