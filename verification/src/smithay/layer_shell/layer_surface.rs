//! What a layer surface makes of the events of its seat: pointer events
//! become window events, touch points are tracked from their first contact
//! to their release, and keys count only while the surface has the focus.
use vstd::prelude::*;
use crate::smithay::input::keyboard::KeyboardEvent;
use crate::smithay::input::pointer::{button_of, convert_button, MouseEvent, Point, ScrollDelta};
use crate::smithay::input::touch::{Position, TouchEvent};
use crate::smithay::{WindowEvent, WindowMessage};

verus! {

/// Where an axis event comes from.
#[derive(Debug, Copy, Clone, PartialEq, Eq, Structural)]
pub enum AxisSource {
    Wheel,
    Finger,
    Continuous,
    WheelTilt,
    /// A source that this toolkit does not know.
    Other,
}

/// The movement along one axis.
#[derive(Debug, Copy, Clone, PartialEq, Eq, Structural)]
pub struct AxisScroll {
    /// In pixels.
    pub absolute: i64,
    /// In notches.
    pub discrete: i32,
}

/// What the pointer did.
#[derive(Debug, Copy, Clone, PartialEq, Eq, Structural)]
pub enum PointerEventKind {
    Enter,
    Leave,
    Motion,
    Press { button: u32 },
    Release { button: u32 },
    Axis { horizontal: AxisScroll, vertical: AxisScroll, source: Option<AxisSource> },
}

/// One pointer event of a frame.
#[derive(Debug, Copy, Clone, PartialEq, Eq, Structural)]
pub struct PointerEvent {
    /// Whether the event is for this surface.
    pub on_surface: bool,
    pub position: Point,
    pub kind: PointerEventKind,
}

/// The scroll of an axis event: notches for a wheel, pixels for a finger
/// or a continuous source, nothing for a source that is unknown or missing.
pub open spec fn scroll_of(
    horizontal: AxisScroll,
    vertical: AxisScroll,
    source: Option<AxisSource>,
) -> Option<ScrollDelta> {
    match source {
        Some(AxisSource::Wheel) | Some(AxisSource::WheelTilt) => Some(
            ScrollDelta::Lines { x: horizontal.discrete as i64, y: vertical.discrete as i64 },
        ),
        Some(AxisSource::Finger) | Some(AxisSource::Continuous) => Some(
            ScrollDelta::Pixels { x: horizontal.absolute, y: vertical.absolute },
        ),
        _ => None,
    }
}

/// The window event that a pointer event stands for, if any: an event for
/// another surface, a button that is none of the three, and a scroll from
/// an unknown source stand for none.
pub open spec fn window_event_of(event: PointerEvent, scale_factor: i64) -> Option<WindowEvent> {
    if !event.on_surface {
        None
    } else {
        match event.kind {
            PointerEventKind::Enter => Some(WindowEvent::Mouse(MouseEvent::CursorEntered)),
            PointerEventKind::Leave => Some(WindowEvent::Mouse(MouseEvent::CursorLeft)),
            PointerEventKind::Motion => Some(
                WindowEvent::Mouse(
                    MouseEvent::CursorMoved { position: event.position, scale_factor },
                ),
            ),
            PointerEventKind::Press { button } => match button_of(button) {
                Some(b) => Some(WindowEvent::Mouse(MouseEvent::ButtonPressed { button: b })),
                None => None,
            },
            PointerEventKind::Release { button } => match button_of(button) {
                Some(b) => Some(WindowEvent::Mouse(MouseEvent::ButtonReleased { button: b })),
                None => None,
            },
            PointerEventKind::Axis { horizontal, vertical, source } => match scroll_of(
                horizontal,
                vertical,
                source,
            ) {
                Some(delta) => Some(WindowEvent::Mouse(MouseEvent::WheelScrolled { delta })),
                None => None,
            },
        }
    }
}

/// The window events of the first `n` pointer events, in order.
pub open spec fn frame_events(events: Seq<PointerEvent>, n: nat, scale_factor: i64) -> Seq<
    WindowEvent,
>
    decreases n,
{
    if n == 0 || n > events.len() {
        Seq::empty()
    } else {
        let before = frame_events(events, (n - 1) as nat, scale_factor);
        match window_event_of(events[n - 1], scale_factor) {
            Some(e) => before.push(e),
            None => before,
        }
    }
}

pub fn pointer_event(event: &PointerEvent, scale_factor: i64) -> (r: Option<WindowEvent>)
    ensures
        r == window_event_of(*event, scale_factor),
{
    if !event.on_surface {
        return None;
    }
    match event.kind {
        PointerEventKind::Enter => Some(WindowEvent::Mouse(MouseEvent::CursorEntered)),
        PointerEventKind::Leave => Some(WindowEvent::Mouse(MouseEvent::CursorLeft)),
        PointerEventKind::Motion => Some(
            WindowEvent::Mouse(MouseEvent::CursorMoved { position: event.position, scale_factor }),
        ),
        PointerEventKind::Press { button } => match convert_button(button) {
            Some(button) => Some(WindowEvent::Mouse(MouseEvent::ButtonPressed { button })),
            None => None,
        },
        PointerEventKind::Release { button } => match convert_button(button) {
            Some(button) => Some(WindowEvent::Mouse(MouseEvent::ButtonReleased { button })),
            None => None,
        },
        PointerEventKind::Axis { horizontal, vertical, source } => {
            let delta = match source {
                Some(AxisSource::Wheel) | Some(AxisSource::WheelTilt) => ScrollDelta::Lines {
                    x: horizontal.discrete as i64,
                    y: vertical.discrete as i64,
                },
                Some(AxisSource::Finger) | Some(AxisSource::Continuous) => ScrollDelta::Pixels {
                    x: horizontal.absolute,
                    y: vertical.absolute,
                },
                _ => {
                    return None;
                },
            };
            Some(WindowEvent::Mouse(MouseEvent::WheelScrolled { delta }))
        },
    }
}

/// The window events that a frame of pointer events stands for, in order.
pub fn pointer_frame(events: &Vec<PointerEvent>, scale_factor: i64) -> (out: Vec<WindowEvent>)
    ensures
        out@ == frame_events(events@, events@.len(), scale_factor),
{
    let mut out: Vec<WindowEvent> = Vec::new();
    let mut i: usize = 0;
    while i < events.len()
        invariant
            i <= events@.len(),
            out@ == frame_events(events@, i as nat, scale_factor),
        decreases events.len() - i,
    {
        match pointer_event(&events[i], scale_factor) {
            Some(e) => {
                out.push(e);
            },
            None => {},
        }
        i += 1;
    }
    out
}

/// The hasher of the maps of `ahash`.
#[verifier::external_type_specification]
#[verifier::external_body]
pub struct ExRandomState(ahash::RandomState);

/// The map type of `ahash`.
#[verifier::external_type_specification]
#[verifier::external_body]
#[verifier::reject_recursive_types(K)]
#[verifier::reject_recursive_types(V)]
#[verifier::reject_recursive_types(S)]
pub struct ExAHashMap<K, V, S>(ahash::AHashMap<K, V, S>);

/// What a map of touch points holds: for the number of each finger that
/// is down, where it is.
pub uninterp spec fn touch_points(map: ahash::AHashMap<i32, (i64, i64)>) -> Map<i32, (i64, i64)>;

/// No finger is down.
pub open spec fn no_points() -> Map<i32, (i64, i64)> {
    Map::empty()
}

/// `AHashMap::new`: a map that holds nothing.
#[verifier::external_body]
fn touch_map_new() -> (map: ahash::AHashMap<i32, (i64, i64)>)
    ensures
        touch_points(map) == no_points(),
{
    ahash::AHashMap::new()
}

/// `AHashMap::insert`: afterwards the map holds `position` for `id` and is
/// otherwise as before.
#[verifier::external_body]
fn touch_map_insert(map: &mut ahash::AHashMap<i32, (i64, i64)>, id: i32, position: (i64, i64))
    ensures
        touch_points(*final(map)) == touch_points(*old(map)).insert(id, position),
{
    map.insert(id, position);
}

/// `AHashMap::remove`: what the map held for `id`, if anything;
/// afterwards the map holds nothing for `id` and is otherwise as before.
#[verifier::external_body]
fn touch_map_remove(map: &mut ahash::AHashMap<i32, (i64, i64)>, id: i32) -> (r: Option<(i64, i64)>)
    ensures
        touch_points(*final(map)) == touch_points(*old(map)).remove(id),
        r == if touch_points(*old(map)).dom().contains(id) {
            Some(touch_points(*old(map))[id])
        } else {
            None
        },
{
    map.remove(&id)
}

/// `AHashMap::get`: what the map holds for `id`, if anything.
#[verifier::external_body]
fn touch_map_get(map: &ahash::AHashMap<i32, (i64, i64)>, id: i32) -> (r: Option<(i64, i64)>)
    ensures
        r == if touch_points(*map).dom().contains(id) {
            Some(touch_points(*map)[id])
        } else {
            None
        },
{
    map.get(&id).copied()
}

/// Whether `entries` lists every entry of `points` once: as many as the
/// map holds, each of them in the map, no number twice.
pub open spec fn lists(entries: Seq<(i32, (i64, i64))>, points: Map<i32, (i64, i64)>) -> bool {
    &&& points.dom().finite()
    &&& entries.len() == points.dom().len()
    &&& forall|k: int|
        0 <= k < entries.len() ==> points.dom().contains((#[trigger] entries[k]).0)
            && points[entries[k].0] == entries[k].1
    &&& forall|i: int, j: int| 0 <= i < j < entries.len() ==> entries[i].0 != entries[j].0
}

/// Iteration over an `AHashMap`: every entry of the map once, in an
/// order that is left open.
#[verifier::external_body]
fn touch_map_entries(map: &ahash::AHashMap<i32, (i64, i64)>) -> (r: Vec<(i32, (i64, i64))>)
    ensures
        lists(r@, touch_points(*map)),
{
    map.iter().map(|(k, v)| (*k, *v)).collect()
}

/// `drain` of the map under an `AHashMap`, run to its end: afterwards the
/// map holds nothing.
#[verifier::external_body]
fn touch_map_drain(map: &mut ahash::AHashMap<i32, (i64, i64)>)
    ensures
        touch_points(*final(map)) == no_points(),
{
    map.drain();
}

/// The touch points of a surface: where every finger that is down was
/// last seen.
pub struct TouchTracker {
    touch_map: ahash::AHashMap<i32, (i64, i64)>,
}

impl TouchTracker {
    /// The fingers that are down, by their number, with their positions.
    pub closed spec fn points(&self) -> Map<i32, (i64, i64)> {
        touch_points(self.touch_map)
    }

    /// A surface that no finger touches.
    pub fn new() -> (t: TouchTracker)
        ensures
            t.points() == no_points(),
    {
        TouchTracker { touch_map: touch_map_new() }
    }

    /// A finger goes down.  On this surface it is tracked from now on and
    /// reported; on another surface it is ignored.
    pub fn down(
        &mut self,
        on_surface: bool,
        id: i32,
        time: u32,
        position: Position,
        scale_factor: i64,
    ) -> (r: Option<WindowEvent>)
        ensures
            on_surface ==> final(self).points() == old(self).points().insert(
                id,
                (position.x, position.y),
            ) && r == Some(
                WindowEvent::Touch(TouchEvent::Down { id, time, position, scale_factor }),
            ),
            !on_surface ==> final(self).points() == old(self).points() && r is None,
    {
        if !on_surface {
            return None;
        }
        touch_map_insert(&mut self.touch_map, id, (position.x, position.y));
        Some(WindowEvent::Touch(TouchEvent::Down { id, time, position, scale_factor }))
    }

    /// A finger goes up.  A finger that is tracked is reported, where it
    /// was last seen, and forgotten; one that is not tracked is ignored.
    pub fn up(&mut self, id: i32, time: u32, scale_factor: i64) -> (r: Option<WindowEvent>)
        ensures
            final(self).points() == old(self).points().remove(id),
            r == if old(self).points().dom().contains(id) {
                Some(
                    WindowEvent::Touch(
                        TouchEvent::Up {
                            id,
                            time,
                            position: Position {
                                x: old(self).points()[id].0,
                                y: old(self).points()[id].1,
                            },
                            scale_factor,
                        },
                    ),
                )
            } else {
                None
            },
    {
        match touch_map_remove(&mut self.touch_map, id) {
            Some(p) => Some(
                WindowEvent::Touch(
                    TouchEvent::Up { id, time, position: Position { x: p.0, y: p.1 }, scale_factor },
                ),
            ),
            None => None,
        }
    }

    /// A finger moves.  A finger that is tracked is reported and seen at
    /// its new place; one that is not tracked is ignored.
    pub fn motion(&mut self, id: i32, time: u32, position: Position, scale_factor: i64) -> (r:
        Option<WindowEvent>)
        ensures
            old(self).points().dom().contains(id) ==> final(self).points() == old(
                self,
            ).points().insert(id, (position.x, position.y)) && r == Some(
                WindowEvent::Touch(TouchEvent::Motion { id, time, position, scale_factor }),
            ),
            !old(self).points().dom().contains(id) ==> final(self).points() == old(self).points()
                && r is None,
    {
        match touch_map_get(&self.touch_map, id) {
            Some(_) => {
                touch_map_insert(&mut self.touch_map, id, (position.x, position.y));
                Some(WindowEvent::Touch(TouchEvent::Motion { id, time, position, scale_factor }))
            },
            None => None,
        }
    }

    /// The `Cancel` event of the finger `id` at `p`.
    pub open spec fn cancel_event(id: i32, p: (i64, i64), scale_factor: i64) -> WindowEvent {
        WindowEvent::Touch(
            TouchEvent::Cancel { id, position: Position { x: p.0, y: p.1 }, scale_factor },
        )
    }

    /// Whether `event` is the `Cancel` event of the tracked finger `id`.
    pub open spec fn is_cancel_of(
        event: WindowEvent,
        id: i32,
        points: Map<i32, (i64, i64)>,
        scale_factor: i64,
    ) -> bool {
        points.dom().contains(id) && event == Self::cancel_event(id, points[id], scale_factor)
    }

    /// Whether `event` is the `Cancel` event of some tracked finger.
    pub open spec fn is_cancel(
        event: WindowEvent,
        points: Map<i32, (i64, i64)>,
        scale_factor: i64,
    ) -> bool {
        exists|id: i32| #[trigger] Self::is_cancel_of(event, id, points, scale_factor)
    }

    /// All touches are abandoned.  Every finger that is tracked is
    /// reported once, where it was last seen, in an order that is left
    /// open; afterwards no finger is tracked.
    pub fn cancel(&mut self, scale_factor: i64) -> (out: Vec<WindowEvent>)
        ensures
            final(self).points() == no_points(),
            out@.len() == old(self).points().dom().len(),
            forall|k: int|
                0 <= k < out@.len() ==> #[trigger] Self::is_cancel(
                    out@[k],
                    old(self).points(),
                    scale_factor,
                ),
            forall|i: int, j: int| 0 <= i < j < out@.len() ==> out@[i] != out@[j],
    {
        let entries = touch_map_entries(&self.touch_map);
        let mut out: Vec<WindowEvent> = Vec::new();
        let mut i: usize = 0;
        while i < entries.len()
            invariant
                i <= entries@.len(),
                lists(entries@, old(self).points()),
                out@.len() == i,
                forall|k: int|
                    0 <= k < i ==> #[trigger] out@[k] == Self::cancel_event(
                        entries@[k].0,
                        entries@[k].1,
                        scale_factor,
                    ),
            decreases entries.len() - i,
        {
            let (id, p) = entries[i];
            out.push(
                WindowEvent::Touch(
                    TouchEvent::Cancel { id, position: Position { x: p.0, y: p.1 }, scale_factor },
                ),
            );
            i += 1;
        }
        touch_map_drain(&mut self.touch_map);
        assert forall|k: int| 0 <= k < out@.len() implies #[trigger] Self::is_cancel(
            out@[k],
            old(self).points(),
            scale_factor,
        ) by {
            assert(Self::is_cancel_of(out@[k], entries@[k].0, old(self).points(), scale_factor));
        }
        out
    }
}

/// The keyboard of a surface: keys count only while the surface has the focus.
#[derive(Debug, Copy, Clone, PartialEq, Eq, Structural)]
pub struct KeyboardFocus {
    pub keyboard_focus: bool,
}

impl KeyboardFocus {
    pub fn new() -> (k: KeyboardFocus)
        ensures
            !k.keyboard_focus,
    {
        KeyboardFocus { keyboard_focus: false }
    }

    /// The keyboard enters a surface; only this surface takes note.
    pub fn enter(&mut self, on_surface: bool) -> (r: Option<WindowEvent>)
        ensures
            final(self).keyboard_focus == (on_surface || old(self).keyboard_focus),
            r == if on_surface {
                Some(WindowEvent::Focused)
            } else {
                None
            },
    {
        if !on_surface {
            return None;
        }
        self.keyboard_focus = true;
        Some(WindowEvent::Focused)
    }

    /// The keyboard leaves a surface; only this surface takes note.
    pub fn leave(&mut self, on_surface: bool) -> (r: Option<WindowEvent>)
        ensures
            final(self).keyboard_focus == (!on_surface && old(self).keyboard_focus),
            r == if on_surface {
                Some(WindowEvent::Unfocused)
            } else {
                None
            },
    {
        if !on_surface {
            return None;
        }
        self.keyboard_focus = false;
        Some(WindowEvent::Unfocused)
    }

    /// A key goes down: reported only while the surface has the focus.
    pub fn press_key(&self, key: u32) -> (r: Option<WindowEvent>)
        ensures
            r == if self.keyboard_focus {
                Some(WindowEvent::Keyboard(KeyboardEvent::KeyPressed { key }))
            } else {
                None
            },
    {
        if !self.keyboard_focus {
            return None;
        }
        Some(WindowEvent::Keyboard(KeyboardEvent::KeyPressed { key }))
    }

    /// A key goes up: reported only while the surface has the focus.
    pub fn release_key(&self, key: u32) -> (r: Option<WindowEvent>)
        ensures
            r == if self.keyboard_focus {
                Some(WindowEvent::Keyboard(KeyboardEvent::KeyReleased { key }))
            } else {
                None
            },
    {
        if !self.keyboard_focus {
            return None;
        }
        Some(WindowEvent::Keyboard(KeyboardEvent::KeyReleased { key }))
    }
}

/// The first configure of a surface is passed on with the size of the
/// surface; later ones are not.
pub fn configure(initial_configure_sent: &mut bool, width: u32, height: u32) -> (r: Option<
    WindowMessage,
>)
    ensures
        *final(initial_configure_sent),
        r == if *old(initial_configure_sent) {
            None
        } else {
            Some(WindowMessage::Configure { width, height })
        },
{
    if !*initial_configure_sent {
        *initial_configure_sent = true;
        Some(WindowMessage::Configure { width, height })
    } else {
        None
    }
}

} // verus!
