//! Semantic events, the messages that handlers emit, and what a handler
//! answers to the dispatcher.
use vstd::prelude::*;
use crate::types::{coord, to_coord, Point, Scale, AABB};

verus! {

/// An application-level message: a tag chosen by the application and one
/// integer of payload.
#[derive(Clone, Copy, Debug, PartialEq, Eq, Structural)]
pub struct Message {
    pub tag: u64,
    pub value: i64,
}

impl Message {
    pub fn new(tag: u64, value: i64) -> (m: Message)
        ensures
            m == (Message { tag, value }),
    {
        Message { tag, value }
    }
}

/// Builds the message that a widget emits: the tag is fixed when the widget
/// is described, the payload is supplied by the widget when it fires.
#[derive(Clone, Copy, Debug, PartialEq, Eq, Structural)]
pub struct MessageFactory {
    pub tag: u64,
}

impl MessageFactory {
    pub fn new(tag: u64) -> (f: MessageFactory)
        ensures
            f.tag == tag,
    {
        MessageFactory { tag }
    }

    pub open spec fn made(self, value: i64) -> Message {
        Message { tag: self.tag, value }
    }

    pub fn make(&self, value: i64) -> (m: Message)
        ensures
            m == self.made(value),
    {
        Message { tag: self.tag, value }
    }
}

/// The kinds of semantic event a component can be asked to handle.
#[derive(Clone, Copy, Debug, PartialEq, Eq, Structural)]
pub enum EventKind {
    MouseMotion,
    MouseEnter,
    MouseLeave,
    MouseDown,
    MouseUp,
    Click,
    DoubleClick,
    DragStart,
    Drag,
    DragEnd,
    Scroll,
    KeyDown,
    KeyUp,
    KeyPress,
    TextEntry,
    Focus,
    Blur,
    Tick,
    TouchDown,
    TouchUp,
    TouchMoved,
    TouchCancel,
    TouchDragStart,
    TouchDrag,
    TouchDragEnd,
    /// The gesture was abandoned; no click follows.
    Cancel,
}

/// A semantic event as a handler sees it.
#[derive(Clone, Copy, Debug, PartialEq, Eq, Structural)]
pub struct Event {
    pub kind: EventKind,
    /// Where the pointer or the touch point is, in logical units.
    pub position: Point,
    /// Where the gesture began.
    pub origin: Point,
    /// Movement since the previous event of the gesture, or the scroll step.
    pub delta: Point,
    /// The key, for keyboard events.
    pub key: u32,
    /// When the input happened, in milliseconds.
    pub time_ms: u64,
    /// The factor between logical and physical units.
    pub scale_factor: i64,
    /// The box of the node whose handler runs.
    pub current_aabb: AABB,
    /// What the children in flow of the node whose handler runs take up together.
    pub current_inner_scale: Option<Scale>,
}

impl Event {
    pub open spec fn plain(kind: EventKind, position: Point) -> Event {
        Event {
            kind,
            position,
            origin: position,
            delta: Point { x: 0, y: 0 },
            key: 0,
            time_ms: 0,
            scale_factor: 1,
            current_aabb: AABB::zero(),
            current_inner_scale: None,
        }
    }

    /// An event of `kind` at `position` with nothing else set.
    pub fn new(kind: EventKind, position: Point) -> (e: Event)
        ensures
            e == Event::plain(kind, position),
    {
        Event {
            kind,
            position,
            origin: position,
            delta: Point { x: 0, y: 0 },
            key: 0,
            time_ms: 0,
            scale_factor: 1,
            current_aabb: AABB::empty(),
            current_inner_scale: None,
        }
    }

    /// The same event as the node with box `aabb` and content size `inner` sees it.
    pub open spec fn at(self, aabb: AABB, inner: Option<Scale>) -> Event {
        Event { current_aabb: aabb, current_inner_scale: inner, ..self }
    }

    pub fn for_node(&self, aabb: AABB, inner: Option<Scale>) -> (e: Event)
        ensures
            e == self.at(aabb, inner),
    {
        Event { current_aabb: aabb, current_inner_scale: inner, ..*self }
    }

    /// The pointer position relative to the corner of the current node,
    /// both brought into range first.
    pub open spec fn spec_relative(self) -> Point {
        Point {
            x: (coord(self.position.x as int) - coord(self.current_aabb.pos.x as int)) as i64,
            y: (coord(self.position.y as int) - coord(self.current_aabb.pos.y as int)) as i64,
        }
    }

    /// The pointer position relative to the corner of the current node.
    pub fn relative_logical_position(&self) -> (p: Point)
        ensures
            p == self.spec_relative(),
    {
        Point {
            x: to_coord(self.position.x) - to_coord(self.current_aabb.pos.x),
            y: to_coord(self.position.y) - to_coord(self.current_aabb.pos.y),
        }
    }

    pub fn current_logical_aabb(&self) -> (a: AABB)
        ensures
            a == self.current_aabb,
    {
        self.current_aabb
    }
}

/// What a handler answers: whether the event stops here, whether the node
/// has to be drawn again, whether it asks for keyboard focus, and the
/// messages it emits.
#[derive(Debug)]
pub struct Reaction {
    pub stop_bubbling: bool,
    pub dirty: bool,
    pub focus: bool,
    pub messages: Vec<Message>,
}

/// The mathematical value of a `Reaction`.
pub struct ReactionModel {
    pub stop_bubbling: bool,
    pub dirty: bool,
    pub focus: bool,
    pub messages: Seq<Message>,
}

impl ReactionModel {
    /// The answer of a handler that ignores the event.
    pub open spec fn ignored() -> ReactionModel {
        ReactionModel { stop_bubbling: false, dirty: false, focus: false, messages: Seq::empty() }
    }

    pub open spec fn stopped(self) -> ReactionModel {
        ReactionModel { stop_bubbling: true, ..self }
    }

    pub open spec fn emitted(self, m: Message) -> ReactionModel {
        ReactionModel { messages: self.messages.push(m), ..self }
    }

    pub open spec fn dirtied(self) -> ReactionModel {
        ReactionModel { dirty: true, ..self }
    }

    pub open spec fn focused(self) -> ReactionModel {
        ReactionModel { focus: true, ..self }
    }
}

impl View for Reaction {
    type V = ReactionModel;

    open spec fn view(&self) -> ReactionModel {
        ReactionModel {
            stop_bubbling: self.stop_bubbling,
            dirty: self.dirty,
            focus: self.focus,
            messages: self.messages@,
        }
    }
}

impl Reaction {
    /// The answer of a handler that ignores the event: it bubbles on.
    pub fn new() -> (r: Reaction)
        ensures
            r@ == ReactionModel::ignored(),
    {
        Reaction { stop_bubbling: false, dirty: false, focus: false, messages: Vec::new() }
    }

    /// Keeps the event from reaching the ancestors.
    pub fn stop_bubbling(&mut self)
        ensures
            final(self)@ == old(self)@.stopped(),
    {
        self.stop_bubbling = true;
    }

    /// Adds a message for the application.
    pub fn emit(&mut self, m: Message)
        ensures
            final(self)@ == old(self)@.emitted(m),
    {
        self.messages.push(m);
    }

    /// Marks the node as needing to be drawn again.
    pub fn dirty(&mut self)
        ensures
            final(self)@ == old(self)@.dirtied(),
    {
        self.dirty = true;
    }

    /// Asks for keyboard focus.
    pub fn focus(&mut self)
        ensures
            final(self)@ == old(self)@.focused(),
    {
        self.focus = true;
    }
}

} // verus!
