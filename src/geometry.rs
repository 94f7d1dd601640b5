use vstd::prelude::*;

verus! {

/// An 8-bit-per-channel sRGB color; alpha is implicitly opaque.
#[derive(Clone, Copy, Debug, PartialEq, Eq, Structural)]
pub struct Color {
    pub r: u8,
    pub g: u8,
    pub b: u8,
}

/// An offset of an overlay from the primary window's top-left corner, in
/// device pixels.
#[derive(Clone, Copy, Debug, PartialEq, Eq, Structural)]
pub struct Position {
    pub x: i32,
    pub y: i32,
}

/// The primary window's absolute position, as the host reports it.
#[derive(Clone, Copy, Debug, PartialEq, Eq, Structural)]
pub struct PhysicalPosition {
    pub x: i32,
    pub y: i32,
}

/// An overlay's absolute position. Wide enough to hold the exact sum of a
/// primary position and an offset.
#[derive(Clone, Copy, Debug, PartialEq, Eq, Structural)]
pub struct AbsolutePosition {
    pub x: i64,
    pub y: i64,
}

/// The size of an overlay window in device pixels.
#[derive(Clone, Copy, Debug, PartialEq, Eq, Structural)]
pub struct Size {
    pub width: u32,
    pub height: u32,
}

/// Where an overlay with offset `offset` stands while the primary window is at
/// `main_pos`: the plain vector sum.
pub open spec fn overlay_position(main_pos: PhysicalPosition, offset: Position) -> AbsolutePosition {
    AbsolutePosition {
        x: (main_pos.x + offset.x) as i64,
        y: (main_pos.y + offset.y) as i64,
    }
}

/// Absolute position of an overlay: primary position plus offset, exactly,
/// with no clamping.
pub fn calculate_overlay_position(main_pos: PhysicalPosition, offset: &Position) -> (r:
    AbsolutePosition)
    ensures
        r == overlay_position(main_pos, *offset),
        r.x == main_pos.x + offset.x,
        r.y == main_pos.y + offset.y,
{
    AbsolutePosition {
        x: main_pos.x as i64 + offset.x as i64,
        y: main_pos.y as i64 + offset.y as i64,
    }
}

/// Whether an sRGB channel value `c / 255` lies on the linear segment of the
/// sRGB transfer function, that is at or below the threshold 0.04045.
pub open spec fn on_linear_segment(c: u8) -> bool {
    (c as int) * 100000 <= 4045 * 255
}

/// Chooses the branch of the sRGB-to-linear transfer function for a channel:
/// `true` for the linear segment `c / 12.92`, `false` for the gamma segment.
pub fn linear_segment(c: u8) -> (r: bool)
    ensures
        r == on_linear_segment(c),
        r <==> c <= 10,
{
    (c as u32) * 100000 <= 4045 * 255
}

} // verus!
