use vstd::prelude::*;

verus! {

/// Half-pixels in one pixel.
pub const UNITS_PER_PIXEL: i64 = 2;

/// One movement step of the ball: one pixel.
pub const STEP: i64 = 2;

/// Largest magnitude of a coordinate or radius handled without overflow.
pub const COORD_LIMIT: i64 = 0x1000_0000_0000_0000;

/// A coordinate or radius whose sums and products stay well inside `i64`.
pub open spec fn in_limit(v: int) -> bool {
    -COORD_LIMIT <= v <= COORD_LIMIT
}

/// A field size in pixels as a length in half-pixels.
pub open spec fn field_units(px: u32) -> int {
    px * UNITS_PER_PIXEL
}

/// One of the four axis-aligned directions of movement.
#[derive(PartialEq, Eq, Structural, Clone, Copy, Debug)]
pub enum Direction {
    Left,
    Right,
    Down,
    Up,
}

/// An opaque RGBA colour, eight bits per channel. It plays no part in the
/// simulation and is only handed on to whoever draws.
#[derive(PartialEq, Eq, Structural, Clone, Copy, Debug)]
pub struct Color {
    pub r: u8,
    pub g: u8,
    pub b: u8,
    pub a: u8,
}

/// The ball's colour.
pub open spec fn green_rgba() -> Color {
    Color { r: 0, g: 227, b: 48, a: 255 }
}

/// The bubbles' colour.
pub open spec fn yellow_rgba() -> Color {
    Color { r: 252, g: 249, b: 0, a: 255 }
}

/// The colour of a bubble's number.
pub open spec fn black_rgba() -> Color {
    Color { r: 0, g: 0, b: 0, a: 255 }
}

impl Color {
    /// The ball's colour.
    pub fn green() -> (c: Color)
        ensures
            c == green_rgba(),
    {
        Color { r: 0, g: 227, b: 48, a: 255 }
    }

    /// The bubbles' colour.
    pub fn yellow() -> (c: Color)
        ensures
            c == yellow_rgba(),
    {
        Color { r: 252, g: 249, b: 0, a: 255 }
    }

    /// The colour of a bubble's number.
    pub fn black() -> (c: Color)
        ensures
            c == black_rgba(),
    {
        Color { r: 0, g: 0, b: 0, a: 255 }
    }
}

} // verus!
