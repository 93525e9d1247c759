//! Plain integer geometry for the scene model: points, sizes, rectangles,
//! 8-bit colours and 4x4 fixed-point matrices.

use vstd::prelude::*;

verus! {

/// The fixed-point representation of 1.0 in matrix entries (16.16 format).
pub const FIXED_ONE: i64 = 65536;

/// A point in device-independent units.
#[derive(Clone, Copy, Debug, PartialEq, Eq, Structural)]
pub struct Point {
    pub x: i64,
    pub y: i64,
}

impl Point {
    pub fn new(x: i64, y: i64) -> (r: Point)
        ensures
            r == (Point { x, y }),
    {
        Point { x, y }
    }
}

/// A width/height pair; a size is well formed when neither side is negative.
#[derive(Clone, Copy, Debug, PartialEq, Eq, Structural)]
pub struct Size {
    pub width: i64,
    pub height: i64,
}

impl Size {
    pub fn new(width: i64, height: i64) -> (r: Size)
        ensures
            r == (Size { width, height }),
    {
        Size { width, height }
    }
}

/// An axis-aligned rectangle given by its origin and size.
#[derive(Clone, Copy, Debug, PartialEq, Eq, Structural)]
pub struct Rect {
    pub origin: Point,
    pub size: Size,
}

impl Rect {
    /// A rectangle is well formed when its width and height are non-negative.
    pub open spec fn wf(self) -> bool {
        self.size.width >= 0 && self.size.height >= 0
    }

    pub fn new(origin: Point, size: Size) -> (r: Rect)
        ensures
            r == (Rect { origin, size }),
    {
        Rect { origin, size }
    }
}

/// An 8-bit-per-channel colour.
#[derive(Clone, Copy, Debug, PartialEq, Eq, Structural)]
pub struct Color {
    pub r: u8,
    pub g: u8,
    pub b: u8,
    pub a: u8,
}

impl Color {
    pub fn new(r: u8, g: u8, b: u8, a: u8) -> (c: Color)
        ensures
            c == (Color { r, g, b, a }),
    {
        Color { r, g, b, a }
    }
}

/// A 4x4 matrix in row-major order with 16.16 fixed-point entries.
#[derive(Clone, Copy, Debug, PartialEq, Eq)]
pub struct Matrix4 {
    pub entries: [i64; 16],
}

/// The entry at flat row-major index `k` of the identity matrix: the
/// diagonal sits at the indices divisible by 5.
pub open spec fn identity_entry(k: int) -> i64 {
    if k % 5 == 0 {
        FIXED_ONE
    } else {
        0
    }
}

impl Matrix4 {
    /// The identity transform: `FIXED_ONE` on the diagonal, zero elsewhere.
    pub open spec fn is_identity(self) -> bool {
        forall|k: int| 0 <= k < 16 ==> self.entries[k] == identity_entry(k)
    }

    pub fn identity() -> (r: Matrix4)
        ensures
            r.is_identity(),
    {
        let entries: [i64; 16] = [
            FIXED_ONE,
            0,
            0,
            0,
            0,
            FIXED_ONE,
            0,
            0,
            0,
            0,
            FIXED_ONE,
            0,
            0,
            0,
            0,
            FIXED_ONE,
        ];
        let r = Matrix4 { entries };
        assert(forall|k: int| 0 <= k < 16 ==> r.entries[k] == identity_entry(k));
        r
    }
}

} // verus!
