//! The mouse pointer.
use vstd::prelude::*;

verus! {

/// The code of the left mouse button.
pub const BTN_LEFT: u32 = 0x110;

/// The code of the right mouse button.
pub const BTN_RIGHT: u32 = 0x111;

/// The code of the middle mouse button.
pub const BTN_MIDDLE: u32 = 0x112;

#[derive(Debug, Copy, Clone, PartialEq, Eq, Structural)]
pub struct Point {
    pub x: i64,
    pub y: i64,
}

#[derive(Debug, Copy, Clone, PartialEq, Eq, Structural)]
pub enum Button {
    Left,
    Right,
    Middle,
}

/// How far the wheel moved.
#[derive(Debug, Copy, Clone, PartialEq, Eq, Structural)]
pub enum ScrollDelta {
    /// In notches of the wheel.
    Lines { x: i64, y: i64 },
    /// In pixels.
    Pixels { x: i64, y: i64 },
}

#[derive(Debug, Copy, Clone, PartialEq, Eq, Structural)]
pub enum MouseEvent {
    CursorEntered,
    CursorLeft,
    CursorMoved { position: Point, scale_factor: i64 },
    ButtonPressed { button: Button },
    ButtonReleased { button: Button },
    WheelScrolled { delta: ScrollDelta },
}

/// The button that the code `button` names, if it is one of the three.
pub open spec fn button_of(button: u32) -> Option<Button> {
    if button == BTN_LEFT {
        Some(Button::Left)
    } else if button == BTN_RIGHT {
        Some(Button::Right)
    } else if button == BTN_MIDDLE {
        Some(Button::Middle)
    } else {
        None
    }
}

pub fn convert_button(button: u32) -> (r: Option<Button>)
    ensures
        r == button_of(button),
{
    if button == BTN_LEFT {
        Some(Button::Left)
    } else if button == BTN_RIGHT {
        Some(Button::Right)
    } else if button == BTN_MIDDLE {
        Some(Button::Middle)
    } else {
        None
    }
}

} // verus!
