//! Lengths, points and sizes in thousandths of a world unit.

use vstd::prelude::*;

verus! {

/// How many length steps make up one world unit.
pub const UNIT: i64 = 1000;

/// How many time steps (microseconds) make up one second.
pub const MICROS_PER_SECOND: i64 = 1_000_000;

/// A position in the plane, the origin being the centre of the window and
/// `y` growing upwards.
#[derive(Debug, Clone, Copy, PartialEq, Eq, Structural)]
pub struct Point {
    pub x: i64,
    pub y: i64,
}

/// The extent of an axis-aligned rectangle.
#[derive(Debug, Clone, Copy, PartialEq, Eq, Structural)]
pub struct Size {
    pub width: i64,
    pub height: i64,
}

/// The size of the primary window, which is also the size of the play field.
#[derive(Debug, Clone, Copy, PartialEq, Eq, Structural)]
pub struct WindowSize {
    pub width: u32,
    pub height: u32,
}

impl WindowSize {
    /// Distance from the centre of the field to its left or right edge.
    pub open spec fn half_width(self) -> int {
        self.width as int / 2
    }

    /// Distance from the centre of the field to its top or bottom edge.
    pub open spec fn half_height(self) -> int {
        self.height as int / 2
    }
}

/// A colour handed to the renderer. Every channel but the hue is counted in
/// thousandths; the hue is in whole degrees.
#[derive(Debug, Clone, Copy, PartialEq, Eq, Structural)]
pub enum Color {
    LinearRgb { red: u16, green: u16, blue: u16 },
    Hsv { hue: u16, saturation: u16, value: u16 },
}

/// `value` held within `low..=high`.
pub open spec fn clamp(value: int, low: int, high: int) -> int {
    if value < low {
        low
    } else if value > high {
        high
    } else {
        value
    }
}

} // verus!
