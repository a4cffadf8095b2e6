use mctk::event::Message;
use mctk::input::{Button as InputButton, Input, Key, Motion, MouseButton, TouchAction};
use mctk::smithay::input::keyboard::KeyboardEvent;
use mctk::smithay::input::pointer::{convert_button, Button, MouseEvent, Point, ScrollDelta};
use mctk::smithay::input::touch::{Position, TouchEvent};
use mctk::smithay::layer_shell::layer_surface::{
    configure, pointer_event, pointer_frame, AxisScroll, AxisSource, KeyboardFocus, PointerEvent,
    PointerEventKind, TouchTracker,
};
use mctk::smithay::layer_shell::layer_window::{
    to_logical, window_event_actions, Action, LayerWindow,
};
use mctk::smithay::{PhysicalPosition, WindowEvent, WindowInfo, WindowMessage, WindowOptions};
use mctk::types::PixelSize;

fn event(kind: PointerEventKind) -> PointerEvent {
    PointerEvent { on_surface: true, position: Point { x: 3, y: 4 }, kind }
}

fn axis(source: Option<AxisSource>) -> PointerEventKind {
    PointerEventKind::Axis {
        horizontal: AxisScroll { absolute: 10, discrete: 1 },
        vertical: AxisScroll { absolute: -20, discrete: -2 },
        source,
    }
}

fn input(i: Input) -> Vec<Action> {
    vec![Action::HandleInput(i)]
}

#[test]
fn buttons_are_known_by_their_codes() {
    assert_eq!(convert_button(0x110), Some(Button::Left));
    assert_eq!(convert_button(0x111), Some(Button::Right));
    assert_eq!(convert_button(0x112), Some(Button::Middle));
    assert_eq!(convert_button(0x113), None);
    assert_eq!(convert_button(0), None);
}

#[test]
fn pointer_events_become_window_events() {
    assert_eq!(
        pointer_event(&event(PointerEventKind::Enter), 2),
        Some(WindowEvent::Mouse(MouseEvent::CursorEntered))
    );
    assert_eq!(
        pointer_event(&event(PointerEventKind::Leave), 2),
        Some(WindowEvent::Mouse(MouseEvent::CursorLeft))
    );
    assert_eq!(
        pointer_event(&event(PointerEventKind::Motion), 2),
        Some(WindowEvent::Mouse(MouseEvent::CursorMoved {
            position: Point { x: 3, y: 4 },
            scale_factor: 2
        }))
    );
    assert_eq!(
        pointer_event(&event(PointerEventKind::Press { button: 0x110 }), 2),
        Some(WindowEvent::Mouse(MouseEvent::ButtonPressed { button: Button::Left }))
    );
    assert_eq!(
        pointer_event(&event(PointerEventKind::Release { button: 0x112 }), 2),
        Some(WindowEvent::Mouse(MouseEvent::ButtonReleased { button: Button::Middle }))
    );
    assert_eq!(pointer_event(&event(PointerEventKind::Press { button: 0x119 }), 2), None);
    assert_eq!(pointer_event(&event(PointerEventKind::Release { button: 1 }), 2), None);
}

#[test]
fn a_wheel_scrolls_in_notches_and_a_finger_in_pixels() {
    let lines = Some(WindowEvent::Mouse(MouseEvent::WheelScrolled {
        delta: ScrollDelta::Lines { x: 1, y: -2 },
    }));
    let pixels = Some(WindowEvent::Mouse(MouseEvent::WheelScrolled {
        delta: ScrollDelta::Pixels { x: 10, y: -20 },
    }));
    assert_eq!(pointer_event(&event(axis(Some(AxisSource::Wheel))), 1), lines);
    assert_eq!(pointer_event(&event(axis(Some(AxisSource::WheelTilt))), 1), lines);
    assert_eq!(pointer_event(&event(axis(Some(AxisSource::Finger))), 1), pixels);
    assert_eq!(pointer_event(&event(axis(Some(AxisSource::Continuous))), 1), pixels);
    assert_eq!(pointer_event(&event(axis(Some(AxisSource::Other))), 1), None);
    assert_eq!(pointer_event(&event(axis(None)), 1), None);
}

#[test]
fn a_frame_keeps_the_order_and_drops_what_is_not_for_the_surface() {
    let elsewhere = PointerEvent {
        on_surface: false,
        position: Point { x: 0, y: 0 },
        kind: PointerEventKind::Enter,
    };
    let frame = vec![
        event(PointerEventKind::Enter),
        elsewhere,
        event(PointerEventKind::Press { button: 0x200 }),
        event(PointerEventKind::Motion),
        event(axis(Some(AxisSource::Other))),
        event(PointerEventKind::Press { button: 0x111 }),
        event(PointerEventKind::Leave),
    ];
    assert_eq!(
        pointer_frame(&frame, 3),
        vec![
            WindowEvent::Mouse(MouseEvent::CursorEntered),
            WindowEvent::Mouse(MouseEvent::CursorMoved {
                position: Point { x: 3, y: 4 },
                scale_factor: 3
            }),
            WindowEvent::Mouse(MouseEvent::ButtonPressed { button: Button::Right }),
            WindowEvent::Mouse(MouseEvent::CursorLeft),
        ]
    );
    assert!(pointer_frame(&vec![], 1).is_empty());
    assert!(pointer_frame(&vec![elsewhere, elsewhere], 1).is_empty());
}

fn at(x: i64, y: i64) -> Position {
    Position { x, y }
}

#[test]
fn a_touch_is_tracked_from_down_to_up() {
    let mut t = TouchTracker::new();
    assert_eq!(
        t.down(true, 1, 100, at(5, 6), 2),
        Some(WindowEvent::Touch(TouchEvent::Down {
            id: 1,
            time: 100,
            position: at(5, 6),
            scale_factor: 2
        }))
    );
    assert_eq!(
        t.motion(1, 110, at(7, 8), 2),
        Some(WindowEvent::Touch(TouchEvent::Motion {
            id: 1,
            time: 110,
            position: at(7, 8),
            scale_factor: 2
        }))
    );
    // the release is reported where the finger was last seen
    assert_eq!(
        t.up(1, 120, 2),
        Some(WindowEvent::Touch(TouchEvent::Up {
            id: 1,
            time: 120,
            position: at(7, 8),
            scale_factor: 2
        }))
    );
    assert_eq!(t.up(1, 130, 2), None);
    assert_eq!(t.motion(1, 140, at(9, 9), 2), None);
}

#[test]
fn unknown_touches_are_dropped_silently() {
    let mut t = TouchTracker::new();
    assert_eq!(t.up(3, 0, 1), None);
    assert_eq!(t.motion(3, 0, at(1, 1), 1), None);
    assert_eq!(t.down(false, 3, 0, at(1, 1), 1), None);
    assert_eq!(t.motion(3, 0, at(1, 1), 1), None);
    assert!(t.cancel(1).is_empty());
}

#[test]
fn two_fingers_are_tracked_apart() {
    let mut t = TouchTracker::new();
    t.down(true, 1, 0, at(1, 1), 1);
    t.down(true, 2, 0, at(2, 2), 1);
    t.motion(2, 1, at(20, 20), 1);
    assert_eq!(
        t.up(1, 2, 1),
        Some(WindowEvent::Touch(TouchEvent::Up { id: 1, time: 2, position: at(1, 1), scale_factor: 1 }))
    );
    assert_eq!(
        t.up(2, 3, 1),
        Some(WindowEvent::Touch(TouchEvent::Up {
            id: 2,
            time: 3,
            position: at(20, 20),
            scale_factor: 1
        }))
    );
    // a finger that goes down twice is seen at the later place
    t.down(true, 5, 0, at(1, 1), 1);
    t.down(true, 5, 1, at(3, 3), 1);
    assert_eq!(
        t.up(5, 2, 1),
        Some(WindowEvent::Touch(TouchEvent::Up { id: 5, time: 2, position: at(3, 3), scale_factor: 1 }))
    );
}

#[test]
fn cancel_reports_every_finger_once_and_forgets_them() {
    let mut t = TouchTracker::new();
    t.down(true, 1, 0, at(1, 1), 1);
    t.down(true, 2, 0, at(2, 2), 1);
    t.down(true, 3, 0, at(3, 3), 1);
    t.up(2, 1, 1);
    t.motion(3, 1, at(30, 30), 1);
    let mut events = t.cancel(4);
    events.sort_by_key(|e| match e {
        WindowEvent::Touch(TouchEvent::Cancel { id, .. }) => *id,
        _ => panic!("not a cancel"),
    });
    assert_eq!(
        events,
        vec![
            WindowEvent::Touch(TouchEvent::Cancel { id: 1, position: at(1, 1), scale_factor: 4 }),
            WindowEvent::Touch(TouchEvent::Cancel { id: 3, position: at(30, 30), scale_factor: 4 }),
        ]
    );
    assert!(t.cancel(4).is_empty());
    assert_eq!(t.up(1, 5, 1), None);
    assert_eq!(t.motion(3, 5, at(0, 0), 1), None);
}

#[test]
fn keys_count_only_with_the_focus() {
    let mut k = KeyboardFocus::new();
    assert_eq!(k.press_key(65), None);
    assert_eq!(k.release_key(65), None);
    assert_eq!(k.enter(false), None);
    assert_eq!(k.press_key(65), None);
    assert_eq!(k.enter(true), Some(WindowEvent::Focused));
    assert_eq!(
        k.press_key(65),
        Some(WindowEvent::Keyboard(KeyboardEvent::KeyPressed { key: 65 }))
    );
    assert_eq!(
        k.release_key(66),
        Some(WindowEvent::Keyboard(KeyboardEvent::KeyReleased { key: 66 }))
    );
    assert_eq!(k.leave(false), None);
    assert!(k.keyboard_focus);
    assert_eq!(k.leave(true), Some(WindowEvent::Unfocused));
    assert_eq!(k.press_key(65), None);
}

#[test]
fn only_the_first_configure_is_passed_on() {
    let mut sent = false;
    assert_eq!(configure(&mut sent, 10, 20), Some(WindowMessage::Configure { width: 10, height: 20 }));
    assert!(sent);
    assert_eq!(configure(&mut sent, 30, 40), None);
    assert!(sent);
}

#[test]
fn messages_ask_for_the_steps_of_a_frame() {
    assert_eq!(
        LayerWindow::open_blocking(WindowMessage::Configure { width: 1, height: 2 }),
        vec![Action::Configure { width: 1, height: 2 }, Action::Draw]
    );
    assert_eq!(
        LayerWindow::open_blocking(WindowMessage::Send { message: Message::new(1, 2) }),
        vec![Action::Update(Message::new(1, 2)), Action::Draw]
    );
    assert_eq!(
        LayerWindow::open_blocking(WindowMessage::Resize { width: 3, height: 4 }),
        vec![
            Action::ResizeSurface { width: 3, height: 4 },
            Action::Resize { width: 3, height: 4 },
            Action::Draw
        ]
    );
    assert_eq!(LayerWindow::open_blocking(WindowMessage::MainEventsCleared), vec![Action::Draw]);
    assert_eq!(LayerWindow::open_blocking(WindowMessage::RedrawRequested), vec![Action::Render]);
    assert_eq!(LayerWindow::open_blocking(WindowMessage::RequestNextFrame), vec![Action::NextFrame]);
    assert_eq!(LayerWindow::open_blocking(WindowMessage::CompositorFrame), input(Input::Timer));
    assert!(LayerWindow::open_blocking(WindowMessage::FocusTextBox { focused: true }).is_empty());
    assert_eq!(
        LayerWindow::open_blocking(WindowMessage::WindowEvent { event: WindowEvent::CloseRequested }),
        vec![Action::HandleInput(Input::Exit), Action::Close]
    );
}

#[test]
fn window_events_become_input_in_logical_units() {
    assert_eq!(window_event_actions(WindowEvent::Focused), input(Input::Focus(true)));
    assert_eq!(window_event_actions(WindowEvent::Unfocused), input(Input::Focus(false)));
    assert_eq!(
        window_event_actions(WindowEvent::Mouse(MouseEvent::CursorEntered)),
        input(Input::MouseEnterWindow)
    );
    assert_eq!(
        window_event_actions(WindowEvent::Mouse(MouseEvent::CursorLeft)),
        input(Input::MouseLeaveWindow)
    );
    assert_eq!(
        window_event_actions(WindowEvent::Mouse(MouseEvent::CursorMoved {
            position: Point { x: 301, y: -7 },
            scale_factor: 2
        })),
        input(Input::Motion(Motion::Mouse { x: 150, y: -4 }))
    );
    assert_eq!(
        window_event_actions(WindowEvent::Mouse(MouseEvent::ButtonPressed { button: Button::Right })),
        input(Input::Press(InputButton::Mouse(MouseButton::Right)))
    );
    assert_eq!(
        window_event_actions(WindowEvent::Mouse(MouseEvent::ButtonReleased { button: Button::Left })),
        input(Input::Release(InputButton::Mouse(MouseButton::Left)))
    );
    assert_eq!(
        window_event_actions(WindowEvent::Mouse(MouseEvent::WheelScrolled {
            delta: ScrollDelta::Lines { x: 1, y: -2 }
        })),
        input(Input::Motion(Motion::Scroll { x: -30, y: 60 }))
    );
    assert_eq!(
        window_event_actions(WindowEvent::Mouse(MouseEvent::WheelScrolled {
            delta: ScrollDelta::Pixels { x: 5, y: -6 }
        })),
        input(Input::Motion(Motion::Scroll { x: -5, y: 6 }))
    );
    assert_eq!(
        window_event_actions(WindowEvent::Keyboard(KeyboardEvent::KeyPressed { key: 97 })),
        vec![
            Action::HandleInput(Input::Press(InputButton::Keyboard(Key { keysym: 97 }))),
            Action::HandleInput(Input::Text(Key { keysym: 97 })),
        ]
    );
    assert_eq!(
        window_event_actions(WindowEvent::Keyboard(KeyboardEvent::KeyReleased { key: 97 })),
        input(Input::Release(InputButton::Keyboard(Key { keysym: 97 })))
    );
    let position = Position { x: 90, y: 31 };
    assert_eq!(
        window_event_actions(WindowEvent::Touch(TouchEvent::Down {
            id: 1,
            time: 0,
            position,
            scale_factor: 3
        })),
        input(Input::Touch(TouchAction::Down { x: 30, y: 10 }))
    );
    assert_eq!(
        window_event_actions(WindowEvent::Touch(TouchEvent::Up {
            id: 1,
            time: 0,
            position,
            scale_factor: 3
        })),
        input(Input::Touch(TouchAction::Up { x: 30, y: 10 }))
    );
    assert_eq!(
        window_event_actions(WindowEvent::Touch(TouchEvent::Motion {
            id: 1,
            time: 0,
            position,
            scale_factor: 3
        })),
        input(Input::Touch(TouchAction::Moved { x: 30, y: 10 }))
    );
    assert_eq!(
        window_event_actions(WindowEvent::Touch(TouchEvent::Cancel { id: 1, position, scale_factor: 3 })),
        input(Input::Touch(TouchAction::Cancel { x: 30, y: 10 }))
    );
}

#[test]
fn physical_lengths_are_divided_by_the_scale_factor() {
    assert_eq!(to_logical(100, 2), 50);
    assert_eq!(to_logical(101, 2), 50);
    assert_eq!(to_logical(-101, 2), -51);
    assert_eq!(to_logical(100, 1), 100);
    assert_eq!(to_logical(100, 0), 100);
    assert_eq!(to_logical(100, -3), 100);
    assert_eq!(to_logical(i64::MAX, 1), 1 << 40);
}

#[test]
fn a_layer_window_knows_its_size() {
    let mut w = LayerWindow::new(WindowOptions { height: 480, width: 640, scale_factor: 2 });
    assert_eq!(w.logical_size(), PixelSize { width: 640, height: 480 });
    assert_eq!(w.physical_size(), PixelSize { width: 640, height: 480 });
    assert_eq!(w.scale_factor(), 2);
    assert!(!w.has_handle());
    w.set_wayland_handle();
    assert!(w.has_handle());
    w.set_size(10, 20);
    assert_eq!(w.logical_size(), PixelSize { width: 10, height: 20 });
    assert_eq!(w.redraw(), WindowMessage::RedrawRequested);
    assert_eq!(w.next_frame(), WindowMessage::RequestNextFrame);
    assert_eq!(w.exit(), WindowMessage::WindowEvent { event: WindowEvent::CloseRequested });
    let info = WindowInfo::default();
    assert_eq!(info.id, "");
    assert_eq!(info.title, "");
    assert_eq!(info.namespace, "");
    let p = PhysicalPosition { x: 1.5f64, y: 2.5f64 };
    assert_eq!(p.x + p.y, 4.0);
}
