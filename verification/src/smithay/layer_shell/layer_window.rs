//! What each message of the windowing layer asks of the driver.
use vstd::prelude::*;
use crate::event::Message;
use crate::input::{Button, Input, Key, Motion, MouseButton, TouchAction};
use crate::smithay::input::keyboard::KeyboardEvent;
use crate::smithay::input::pointer::{MouseEvent, ScrollDelta};
use crate::smithay::input::touch::{Position, TouchEvent};
use crate::smithay::{WindowEvent, WindowMessage, WindowOptions};
use crate::types::{coord, div_floor, to_coord, PixelSize};

verus! {

/// How many pixels a notch of the wheel scrolls.
pub const LINE_HEIGHT: i64 = 30;

/// One step that the event loop takes for a message.
#[derive(Debug, Copy, Clone, PartialEq, Eq, Structural)]
pub enum Action {
    /// Tell the driver the size that the compositor has settled on.
    Configure { width: u32, height: u32 },
    /// Build and lay out the frame.
    Draw,
    /// Hand the message to the components.
    Update(Message),
    /// Ask the compositor for another size of the surface.
    ResizeSurface { width: u32, height: u32 },
    /// Tell the driver the new size.
    Resize { width: u32, height: u32 },
    /// Run the render pass and paint.
    Render,
    /// Ask the compositor for the next frame callback.
    NextFrame,
    /// Hand the input to the driver.
    HandleInput(Input),
    /// Close the surface.
    Close,
}

/// A physical length in logical units: divided by the scale factor,
/// rounded down.  A scale factor below one counts as one.
pub open spec fn logical(v: i64, scale_factor: i64) -> i64 {
    (coord(v as int) / (if scale_factor < 1 {
        1
    } else {
        scale_factor as int
    })) as i64
}

pub fn to_logical(v: i64, scale_factor: i64) -> (r: i64)
    ensures
        r == logical(v, scale_factor),
{
    let s = if scale_factor < 1 {
        1
    } else {
        scale_factor
    };
    let c = to_coord(v);
    let q = div_floor(c, s);
    assert(-0x100_0000_0000 - 1 <= q <= 0x100_0000_0000) by (nonlinear_arith)
        requires
            q == c as int / s as int,
            s >= 1,
            -0x100_0000_0000 <= c <= 0x100_0000_0000,
    ;
    q
}

/// The scroll that the driver is told of: against the direction of the
/// wheel, thirty pixels to the notch.
pub open spec fn scroll_input(delta: ScrollDelta) -> Input {
    match delta {
        ScrollDelta::Lines { x, y } => Input::Motion(
            Motion::Scroll {
                x: (coord(x as int) * -LINE_HEIGHT) as i64,
                y: (coord(y as int) * -LINE_HEIGHT) as i64,
            },
        ),
        ScrollDelta::Pixels { x, y } => Input::Motion(
            Motion::Scroll { x: (-coord(x as int)) as i64, y: (-coord(y as int)) as i64 },
        ),
    }
}

pub open spec fn mouse_button(button: crate::smithay::input::pointer::Button) -> MouseButton {
    match button {
        crate::smithay::input::pointer::Button::Left => MouseButton::Left,
        crate::smithay::input::pointer::Button::Right => MouseButton::Right,
        crate::smithay::input::pointer::Button::Middle => MouseButton::Middle,
    }
}

/// The steps for a window event.
pub open spec fn event_actions(event: WindowEvent) -> Seq<Action> {
    match event {
        WindowEvent::CloseRequested => seq![Action::HandleInput(Input::Exit), Action::Close],
        WindowEvent::Focused => seq![Action::HandleInput(Input::Focus(true))],
        WindowEvent::Unfocused => seq![Action::HandleInput(Input::Focus(false))],
        WindowEvent::Mouse(m) => match m {
            MouseEvent::CursorEntered => seq![Action::HandleInput(Input::MouseEnterWindow)],
            MouseEvent::CursorLeft => seq![Action::HandleInput(Input::MouseLeaveWindow)],
            MouseEvent::CursorMoved { position, scale_factor } => seq![
                Action::HandleInput(
                    Input::Motion(
                        Motion::Mouse {
                            x: logical(position.x, scale_factor),
                            y: logical(position.y, scale_factor),
                        },
                    ),
                ),
            ],
            MouseEvent::ButtonPressed { button } => seq![
                Action::HandleInput(Input::Press(Button::Mouse(mouse_button(button)))),
            ],
            MouseEvent::ButtonReleased { button } => seq![
                Action::HandleInput(Input::Release(Button::Mouse(mouse_button(button)))),
            ],
            MouseEvent::WheelScrolled { delta } => seq![Action::HandleInput(scroll_input(delta))],
        },
        WindowEvent::Keyboard(k) => match k {
            KeyboardEvent::KeyPressed { key } => seq![
                Action::HandleInput(Input::Press(Button::Keyboard(Key { keysym: key }))),
                Action::HandleInput(Input::Text(Key { keysym: key })),
            ],
            KeyboardEvent::KeyReleased { key } => seq![
                Action::HandleInput(Input::Release(Button::Keyboard(Key { keysym: key }))),
            ],
        },
        WindowEvent::Touch(t) => match t {
            TouchEvent::Up { position, scale_factor, .. } => seq![
                Action::HandleInput(
                    Input::Touch(
                        TouchAction::Up {
                            x: logical(position.x, scale_factor),
                            y: logical(position.y, scale_factor),
                        },
                    ),
                ),
            ],
            TouchEvent::Down { position, scale_factor, .. } => seq![
                Action::HandleInput(
                    Input::Touch(
                        TouchAction::Down {
                            x: logical(position.x, scale_factor),
                            y: logical(position.y, scale_factor),
                        },
                    ),
                ),
            ],
            TouchEvent::Motion { position, scale_factor, .. } => seq![
                Action::HandleInput(
                    Input::Touch(
                        TouchAction::Moved {
                            x: logical(position.x, scale_factor),
                            y: logical(position.y, scale_factor),
                        },
                    ),
                ),
            ],
            TouchEvent::Cancel { position, scale_factor, .. } => seq![
                Action::HandleInput(
                    Input::Touch(
                        TouchAction::Cancel {
                            x: logical(position.x, scale_factor),
                            y: logical(position.y, scale_factor),
                        },
                    ),
                ),
            ],
        },
    }
}

/// The steps for a message, in order.  A configure, a message for the
/// components, a resize and the end of a batch of events all end in a
/// draw; a redraw request renders; a compositor frame is a tick.
pub open spec fn actions(message: WindowMessage) -> Seq<Action> {
    match message {
        WindowMessage::Configure { width, height } => seq![
            Action::Configure { width, height },
            Action::Draw,
        ],
        WindowMessage::Send { message } => seq![Action::Update(message), Action::Draw],
        WindowMessage::Resize { width, height } => seq![
            Action::ResizeSurface { width, height },
            Action::Resize { width, height },
            Action::Draw,
        ],
        WindowMessage::MainEventsCleared => seq![Action::Draw],
        WindowMessage::RedrawRequested => seq![Action::Render],
        WindowMessage::RequestNextFrame => seq![Action::NextFrame],
        WindowMessage::CompositorFrame => seq![Action::HandleInput(Input::Timer)],
        WindowMessage::FocusTextBox { focused } => Seq::empty(),
        WindowMessage::WindowEvent { event } => event_actions(event),
    }
}

fn touch_point(position: Position, scale_factor: i64) -> (r: (i64, i64))
    ensures
        r.0 == logical(position.x, scale_factor),
        r.1 == logical(position.y, scale_factor),
{
    (to_logical(position.x, scale_factor), to_logical(position.y, scale_factor))
}

fn one(action: Action) -> (v: Vec<Action>)
    ensures
        v@ == seq![action],
{
    let mut v: Vec<Action> = Vec::new();
    v.push(action);
    v
}

fn to_mouse_button(button: crate::smithay::input::pointer::Button) -> (b: MouseButton)
    ensures
        b == mouse_button(button),
{
    match button {
        crate::smithay::input::pointer::Button::Left => MouseButton::Left,
        crate::smithay::input::pointer::Button::Right => MouseButton::Right,
        crate::smithay::input::pointer::Button::Middle => MouseButton::Middle,
    }
}

fn to_scroll_input(delta: ScrollDelta) -> (i: Input)
    ensures
        i == scroll_input(delta),
{
    match delta {
        ScrollDelta::Lines { x, y } => Input::Motion(
            Motion::Scroll { x: to_coord(x) * -LINE_HEIGHT, y: to_coord(y) * -LINE_HEIGHT },
        ),
        ScrollDelta::Pixels { x, y } => Input::Motion(
            Motion::Scroll { x: -to_coord(x), y: -to_coord(y) },
        ),
    }
}

/// The steps for a window event, in order.
pub fn window_event_actions(event: WindowEvent) -> (out: Vec<Action>)
    ensures
        out@ == event_actions(event),
{
    match event {
        WindowEvent::CloseRequested => {
            let mut v = one(Action::HandleInput(Input::Exit));
            v.push(Action::Close);
            assert(v@ =~= event_actions(event));
            v
        },
        WindowEvent::Focused => one(Action::HandleInput(Input::Focus(true))),
        WindowEvent::Unfocused => one(Action::HandleInput(Input::Focus(false))),
        WindowEvent::Mouse(m) => match m {
            MouseEvent::CursorEntered => one(Action::HandleInput(Input::MouseEnterWindow)),
            MouseEvent::CursorLeft => one(Action::HandleInput(Input::MouseLeaveWindow)),
            MouseEvent::CursorMoved { position, scale_factor } => one(
                Action::HandleInput(
                    Input::Motion(
                        Motion::Mouse {
                            x: to_logical(position.x, scale_factor),
                            y: to_logical(position.y, scale_factor),
                        },
                    ),
                ),
            ),
            MouseEvent::ButtonPressed { button } => one(
                Action::HandleInput(Input::Press(Button::Mouse(to_mouse_button(button)))),
            ),
            MouseEvent::ButtonReleased { button } => one(
                Action::HandleInput(Input::Release(Button::Mouse(to_mouse_button(button)))),
            ),
            MouseEvent::WheelScrolled { delta } => one(Action::HandleInput(to_scroll_input(delta))),
        },
        WindowEvent::Keyboard(k) => match k {
            KeyboardEvent::KeyPressed { key } => {
                let mut v = one(
                    Action::HandleInput(Input::Press(Button::Keyboard(Key { keysym: key }))),
                );
                v.push(Action::HandleInput(Input::Text(Key { keysym: key })));
                assert(v@ =~= event_actions(event));
                v
            },
            KeyboardEvent::KeyReleased { key } => one(
                Action::HandleInput(Input::Release(Button::Keyboard(Key { keysym: key }))),
            ),
        },
        WindowEvent::Touch(t) => match t {
            TouchEvent::Up { id, time, position, scale_factor } => {
                let p = touch_point(position, scale_factor);
                one(Action::HandleInput(Input::Touch(TouchAction::Up { x: p.0, y: p.1 })))
            },
            TouchEvent::Down { id, time, position, scale_factor } => {
                let p = touch_point(position, scale_factor);
                one(Action::HandleInput(Input::Touch(TouchAction::Down { x: p.0, y: p.1 })))
            },
            TouchEvent::Motion { id, time, position, scale_factor } => {
                let p = touch_point(position, scale_factor);
                one(Action::HandleInput(Input::Touch(TouchAction::Moved { x: p.0, y: p.1 })))
            },
            TouchEvent::Cancel { id, position, scale_factor } => {
                let p = touch_point(position, scale_factor);
                one(Action::HandleInput(Input::Touch(TouchAction::Cancel { x: p.0, y: p.1 })))
            },
        },
    }
}

/// The window of a layer surface, as far as the driver has to know it.
#[derive(Debug, Copy, Clone, PartialEq, Eq, Structural)]
pub struct LayerWindow {
    pub width: u32,
    pub height: u32,
    pub scale_factor: i64,
    /// Whether the compositor has handed over a surface to draw on.
    pub has_handle: bool,
}

impl LayerWindow {
    /// The window that the options describe, before the compositor has
    /// handed over a surface.
    pub fn new(options: WindowOptions) -> (w: LayerWindow)
        ensures
            w == (LayerWindow {
                width: options.width,
                height: options.height,
                scale_factor: options.scale_factor,
                has_handle: false,
            }),
    {
        LayerWindow {
            width: options.width,
            height: options.height,
            scale_factor: options.scale_factor,
            has_handle: false,
        }
    }

    /// The steps for a message, in order.
    pub fn open_blocking(message: WindowMessage) -> (out: Vec<Action>)
        ensures
            out@ == actions(message),
    {
        match message {
            WindowMessage::Configure { width, height } => {
                let mut v = one(Action::Configure { width, height });
                v.push(Action::Draw);
                assert(v@ =~= actions(message));
                v
            },
            WindowMessage::Send { message: m } => {
                let mut v = one(Action::Update(m));
                v.push(Action::Draw);
                assert(v@ =~= actions(message));
                v
            },
            WindowMessage::Resize { width, height } => {
                let mut v = one(Action::ResizeSurface { width, height });
                v.push(Action::Resize { width, height });
                v.push(Action::Draw);
                assert(v@ =~= actions(message));
                v
            },
            WindowMessage::MainEventsCleared => one(Action::Draw),
            WindowMessage::RedrawRequested => one(Action::Render),
            WindowMessage::RequestNextFrame => one(Action::NextFrame),
            WindowMessage::CompositorFrame => one(Action::HandleInput(Input::Timer)),
            WindowMessage::FocusTextBox { focused } => Vec::new(),
            WindowMessage::WindowEvent { event } => window_event_actions(event),
        }
    }

    pub fn logical_size(&self) -> (s: PixelSize)
        ensures
            s == (PixelSize { width: self.width, height: self.height }),
    {
        PixelSize { width: self.width, height: self.height }
    }

    /// The size in physical pixels, which is the logical size.
    pub fn physical_size(&self) -> (s: PixelSize)
        ensures
            s == (PixelSize { width: self.width, height: self.height }),
    {
        self.logical_size()
    }

    pub fn scale_factor(&self) -> (f: i64)
        ensures
            f == self.scale_factor,
    {
        self.scale_factor
    }

    /// The message that asks for a redraw.
    pub fn redraw(&self) -> (m: WindowMessage)
        ensures
            m == WindowMessage::RedrawRequested,
    {
        WindowMessage::RedrawRequested
    }

    /// The message that asks for the next frame.
    pub fn next_frame(&self) -> (m: WindowMessage)
        ensures
            m == WindowMessage::RequestNextFrame,
    {
        WindowMessage::RequestNextFrame
    }

    pub fn set_size(&mut self, width: u32, height: u32)
        ensures
            *final(self) == (LayerWindow { width, height, ..*old(self) }),
    {
        self.width = width;
        self.height = height;
    }

    /// The message that ends the application.
    pub fn exit(&mut self) -> (m: WindowMessage)
        ensures
            *final(self) == *old(self),
            m == (WindowMessage::WindowEvent { event: WindowEvent::CloseRequested }),
    {
        WindowMessage::WindowEvent { event: WindowEvent::CloseRequested }
    }

    /// Notes that the compositor has handed over a surface.
    pub fn set_wayland_handle(&mut self)
        ensures
            *final(self) == (LayerWindow { has_handle: true, ..*old(self) }),
    {
        self.has_handle = true;
    }

    pub fn has_handle(&self) -> (r: bool)
        ensures
            r == self.has_handle,
    {
        self.has_handle
    }
}

} // verus!
