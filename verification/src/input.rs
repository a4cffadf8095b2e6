//! Raw input as the windowing layer hands it over, in logical units.
use vstd::prelude::*;

verus! {

#[derive(Clone, Copy, Debug, PartialEq, Eq, Structural)]
pub enum MouseButton {
    Left,
    Right,
    Middle,
}

/// A key, by its symbol number.
#[derive(Clone, Copy, Debug, PartialEq, Eq, Structural)]
pub struct Key {
    pub keysym: u32,
}

#[derive(Clone, Copy, Debug, PartialEq, Eq, Structural)]
pub enum Button {
    Keyboard(Key),
    Mouse(MouseButton),
}

#[derive(Clone, Copy, Debug, PartialEq, Eq, Structural)]
pub enum Motion {
    /// The pointer is at `(x, y)`.
    Mouse { x: i64, y: i64 },
    /// The wheel moved by `(x, y)`.
    Scroll { x: i64, y: i64 },
}

#[derive(Clone, Copy, Debug, PartialEq, Eq, Structural)]
pub enum TouchAction {
    Down { x: i64, y: i64 },
    Up { x: i64, y: i64 },
    Moved { x: i64, y: i64 },
    Cancel { x: i64, y: i64 },
}

#[derive(Clone, Copy, Debug, PartialEq, Eq, Structural)]
pub enum Input {
    Press(Button),
    Release(Button),
    Motion(Motion),
    Touch(TouchAction),
    /// Text was entered with the key `Key`.
    Text(Key),
    Focus(bool),
    MouseEnterWindow,
    MouseLeaveWindow,
    /// A frame has passed.
    Timer,
    Exit,
}

} // verus!
