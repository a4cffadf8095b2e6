//! The side of the toolkit that faces a Wayland compositor: what the
//! windowing layer reports, and what each report asks of the driver.
use vstd::prelude::*;
use crate::event::Message;

pub mod input;
pub mod layer_shell;

use input::keyboard::KeyboardEvent;
use input::pointer::MouseEvent;
use input::touch::TouchEvent;

verus! {

/// A position in physical pixels.
#[derive(Clone, Copy, Debug, PartialEq, Eq)]
pub struct PhysicalPosition<P> {
    pub x: P,
    pub y: P,
}

#[derive(Clone, Copy, Debug, PartialEq, Eq, Structural)]
pub struct WindowOptions {
    pub height: u32,
    pub width: u32,
    pub scale_factor: i64,
}

#[derive(Default, Clone, Debug)]
pub struct WindowInfo {
    pub id: String,
    pub title: String,
    pub namespace: String,
}

/// What the windowing layer tells the driver.
#[derive(Clone, Copy, Debug, PartialEq, Eq, Structural)]
pub enum WindowMessage {
    Configure { width: u32, height: u32 },
    FocusTextBox { focused: bool },
    CompositorFrame,
    MainEventsCleared,
    RedrawRequested,
    RequestNextFrame,
    Resize { width: u32, height: u32 },
    Send { message: Message },
    WindowEvent { event: WindowEvent },
}

/// What happened to the window.
#[derive(Debug, Copy, Clone, PartialEq, Eq, Structural)]
pub enum WindowEvent {
    CloseRequested,
    Focused,
    Unfocused,
    Mouse(MouseEvent),
    Keyboard(KeyboardEvent),
    Touch(TouchEvent),
}

} // verus!
