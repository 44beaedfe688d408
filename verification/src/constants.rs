//! Closed enumerations for the modes and identifiers the render state
//! records: color modes, shape anchor modes, blend modes, cursor icons and
//! mouse buttons. Keys are plain key codes.

use vstd::prelude::*;

verus! {

/// The key code of the space bar.
pub const KEY_SPACE: u32 = 32;

/// How color tuples handed to `fill`, `stroke` and `background` are to be
/// read. Values are stored verbatim in either mode; interpretation of HSB
/// tuples is a recorded, unimplemented placeholder.
#[derive(Clone, Copy, Debug, PartialEq, Eq, Structural)]
pub enum ColorMode {
    Rgb,
    Hsb,
}

/// Which point of a shape's bounding parameters is its origin. Only
/// `Center` and `Corner` have an implemented numeric effect; `Corners` and
/// `Radius` are recorded placeholders whose correction is the identity.
#[derive(Clone, Copy, Debug, PartialEq, Eq, Structural)]
pub enum AnchorMode {
    Center,
    Corner,
    Corners,
    Radius,
}

/// The blending rule applied when a fragment lands on the framebuffer.
#[derive(Clone, Copy, Debug, PartialEq, Eq, Structural)]
pub enum BlendMode {
    Replace,
    Blend,
    Add,
    Subtract,
    Lightest,
    Darkest,
    Exclusion,
    Multiply,
    Screen,
}

/// The cursor icon a window shows.
#[derive(Clone, Copy, Debug, PartialEq, Eq, Structural)]
pub enum CursorType {
    Default,
    Hand,
    Arrow,
    Cross,
    Move,
    Text,
    Wait,
}

/// A mouse button.
#[derive(Clone, Copy, Debug, PartialEq, Eq, Structural)]
pub enum MouseButton {
    Left,
    Right,
    Middle,
    Other(u8),
}

} // verus!
