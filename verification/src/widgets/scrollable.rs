//! A container that shows a window of its content and scrolls it by dragging.
use vstd::prelude::*;
use crate::component::BoxContext;
use crate::event::{Event, EventKind, MessageFactory, Reaction, ReactionModel};
use crate::layout::{Dimension, Direction, Layout, PositionType, Rect, ScrollPosition, Size};
use crate::node::{Modeled, Node, NodeModel};
use crate::render::{to_word, word};
use crate::renderables::types::{Borders, Corners};
use crate::style::Styled;
use crate::types::{
    coord, extent, offset, round_div, rounded, to_coord, to_extent, to_offset, Color, Point, AABB,
    MAX_EXTENT,
};
use crate::widgets::button::{fire, fired};
use crate::widgets::div::{Div, RoundedRect};
use crate::widgets::{Widget, WidgetModel};

verus! {

/// What a scrolling container remembers from frame to frame.
#[derive(Clone, Copy, Debug, PartialEq, Eq, Structural)]
pub struct ScrollableState {
    /// How far the content is scrolled.
    pub scroll_position: Point,
    /// How far it was scrolled when the drag began.
    pub drag_start_position: Point,
    pub aabb: Option<AABB>,
}

impl ScrollableState {
    pub open spec fn initial() -> ScrollableState {
        ScrollableState {
            scroll_position: Point { x: 0, y: 0 },
            drag_start_position: Point { x: 0, y: 0 },
            aabb: None,
        }
    }
}

#[derive(Clone, Copy, Debug, PartialEq, Eq, Structural)]
pub struct Scrollable {
    pub size: Size,
    pub on_scroll_end: Option<MessageFactory>,
    pub state: ScrollableState,
    pub dirty: bool,
    pub styled: Styled,
}

/// The scroll position after a drag.  The drag moves the content the other
/// way, scaled by the ratio of the height of the content to the height of
/// the window; the sum is rounded to the nearest whole unit, a half away
/// from zero, and then kept between zero and the overhang of the content.
/// A window without height shows the end of the content, or its start
/// where the drag goes down.
pub open spec fn scrolled_to(start: i64, moved: i64, inner: i64, window: i64) -> i64 {
    let inner_h = extent(inner as int);
    let window_h = extent(window as int);
    let drag = -offset(moved as int);
    let target = if window_h > 0 {
        rounded(coord(start as int) * window_h + drag * inner_h, window_h)
    } else if drag < 0 {
        0
    } else {
        inner_h
    };
    let most = inner_h - window_h;
    let capped = if target > most {
        most
    } else {
        target
    };
    (if capped < 0 {
        0
    } else {
        capped
    }) as i64
}

pub fn scroll_to(start: i64, moved: i64, inner: i64, window: i64) -> (r: i64)
    ensures
        r == scrolled_to(start, moved, inner, window),
        0 <= r <= MAX_EXTENT,
{
    let inner_h = to_extent(inner);
    let window_h = to_extent(window);
    let drag = -to_offset(moved);
    let from = to_coord(start);
    let most = inner_h - window_h;
    if window_h > 0 {
        assert(-0x1000_0000_0000_0000 <= drag * inner_h <= 0x1000_0000_0000_0000)
            by (nonlinear_arith)
            requires
                -0x4000_0000 <= drag <= 0x4000_0000,
                0 <= inner_h <= 0x4000_0000,
        ;
        assert(-0x400_0000_0000_0000_0000 <= from * window_h <= 0x400_0000_0000_0000_0000)
            by (nonlinear_arith)
            requires
                -0x100_0000_0000 <= from <= 0x100_0000_0000,
                0 <= window_h <= 0x4000_0000,
        ;
        let n: i128 = (from as i128) * (window_h as i128) + (drag as i128) * (inner_h as i128);
        let target = round_div(n, window_h as i128);
        let most_wide: i128 = most as i128;
        let capped = if target > most_wide {
            most_wide
        } else {
            target
        };
        if capped < 0 {
            0
        } else {
            capped as i64
        }
    } else if drag < 0 {
        0
    } else {
        inner_h
    }
}

impl Scrollable {
    pub open spec fn plain(s: Size) -> Scrollable {
        Scrollable {
            state: ScrollableState::initial(),
            dirty: false,
            size: s,
            styled: Styled::plain(),
            on_scroll_end: None,
        }
    }

    /// A container with a window of size `s`.
    pub fn new(s: Size) -> (r: Scrollable)
        ensures
            r == Scrollable::plain(s),
    {
        Scrollable {
            state: ScrollableState {
                scroll_position: Point { x: 0, y: 0 },
                drag_start_position: Point { x: 0, y: 0 },
                aabb: None,
            },
            dirty: false,
            size: s,
            styled: Styled::new(),
            on_scroll_end: None,
        }
    }

    /// Sets the message that the end of a scroll sends.
    pub fn on_scroll_end(self, f: MessageFactory) -> (r: Scrollable)
        ensures
            r == (Scrollable { on_scroll_end: Some(f), ..self }),
    {
        Scrollable { on_scroll_end: Some(f), ..self }
    }

    /// The container after a drag event.
    pub open spec fn scrolled_by(self, event: Event) -> Scrollable {
        match event.current_inner_scale {
            Some(inner) => Scrollable {
                state: ScrollableState {
                    scroll_position: Point {
                        x: self.state.scroll_position.x,
                        y: scrolled_to(
                            self.state.drag_start_position.y,
                            (coord(event.position.y as int) - coord(event.origin.y as int)) as i64,
                            inner.height,
                            event.current_aabb.size.height,
                        ),
                    },
                    ..self.state
                },
                dirty: true,
                ..self
            },
            None => self,
        }
    }

    /// One step of a drag: the content is scrolled from where it was when
    /// the drag began.  The event carries the size of the content, which
    /// the container has once it was laid out; a step without it has
    /// nothing to scroll by and is left out.
    pub fn on_drag(&mut self, event: &Event)
        requires
            event.current_inner_scale is Some,
        ensures
            *final(self) == old(self).scrolled_by(*event),
    {
        let inner = event.current_inner_scale.unwrap();
        let moved = to_coord(event.position.y) - to_coord(event.origin.y);
        self.state.scroll_position.y = scroll_to(
            self.state.drag_start_position.y,
            moved,
            inner.height,
            event.current_aabb.size.height,
        );
        self.dirty = true;
    }

    /// The container after `event`, and its answer.  The start of a drag
    /// is claimed and stopped, and the scroll position noted; every drag
    /// step scrolls from that position; the end of the drag is reported.
    /// A drag step that reaches a container before it was ever laid out
    /// is not handed to the drag handler and changes nothing.
    pub open spec fn handled(self, event: Event) -> (Scrollable, ReactionModel) {
        let quiet = ReactionModel::ignored();
        match event.kind {
            EventKind::DragEnd => (self, fired(self.on_scroll_end, 0, quiet)),
            EventKind::DragStart | EventKind::TouchDragStart => (
                Scrollable {
                    state: ScrollableState {
                        drag_start_position: self.state.scroll_position,
                        ..self.state
                    },
                    dirty: true,
                    ..self
                },
                quiet.dirtied().stopped(),
            ),
            EventKind::Drag | EventKind::TouchDrag => (
                self.scrolled_by(event),
                if event.current_inner_scale is Some {
                    quiet.dirtied()
                } else {
                    quiet
                },
            ),
            _ => (self, quiet),
        }
    }

    pub fn on_event(&mut self, event: &Event) -> (r: Reaction)
        ensures
            (*final(self), r@) == old(self).handled(*event),
    {
        let mut r = Reaction::new();
        match event.kind {
            EventKind::DragEnd => {
                fire(&self.on_scroll_end, 0, &mut r);
            },
            EventKind::DragStart | EventKind::TouchDragStart => {
                self.state.drag_start_position = self.state.scroll_position;
                self.dirty = true;
                r.dirty();
                r.stop_bubbling();
            },
            EventKind::Drag | EventKind::TouchDrag => {
                if event.current_inner_scale.is_some() {
                    self.on_drag(event);
                    r.dirty();
                }
            },
            _ => {},
        }
        r
    }

    /// The children that take part in hit testing: the backdrop and the content.
    pub open spec fn contained() -> Seq<usize> {
        seq![0usize, 1usize]
    }

    pub fn container(&self) -> (r: Option<Vec<usize>>)
        ensures
            r matches Some(v) && v@ == Self::contained(),
    {
        let mut v: Vec<usize> = Vec::new();
        v.push(0);
        v.push(1);
        assert(v@ =~= Self::contained());
        Some(v)
    }

    /// The content is scrolled vertically only.
    pub open spec fn scrolled(self) -> Option<ScrollPosition> {
        Some(ScrollPosition { x: None, y: Some(self.state.scroll_position.y) })
    }

    pub fn scroll_position(&self) -> (r: Option<ScrollPosition>)
        ensures
            r == self.scrolled(),
    {
        Some(ScrollPosition { x: None, y: Some(self.state.scroll_position.y) })
    }

    pub fn full_control(&self) -> (r: bool)
        ensures
            r,
    {
        true
    }

    /// The box of the container: where the engine put it, of the size of the window.
    pub open spec fn boxed(self, aabb: AABB) -> AABB {
        AABB {
            pos: aabb.pos,
            size: crate::types::Scale {
                width: extent(self.size.spec_fixed().0) as i64,
                height: extent(self.size.spec_fixed().1) as i64,
            },
        }
    }

    pub fn set_aabb(&mut self, aabb: &mut AABB, children: &Vec<AABB>, context: BoxContext)
        ensures
            *final(self) == *old(self),
            *final(aabb) == old(self).boxed(*old(aabb)),
    {
        let (w, h) = self.size.fixed();
        aabb.set_scale(w, h);
    }

    /// A transparent box of the size of the window that switches clipping.
    pub open spec fn shutter(self, on: bool) -> NodeModel<Widget> {
        let size = self.size.spec_fixed();
        NodeModel::<Widget>::leaf(
            WidgetModel::RoundedRect(
                RoundedRect {
                    scissor: Some(on),
                    background_color: Color::transparent(),
                    border_color: Color::transparent(),
                    border_width: Borders::zero(),
                    radius: Corners::zero(),
                    swipe: 0,
                },
            ),
            Layout {
                size: Size { width: Dimension::Px(size.0 as i64), height: Dimension::Px(size.1 as i64) },
                position_type: PositionType::Absolute,
                position: Rect {
                    top: Dimension::Px(0),
                    right: Dimension::Px(0),
                    bottom: Dimension::Px(0),
                    left: Dimension::Px(0),
                },
                ..Layout::initial()
            },
        )
    }

    /// What the container projects itself into: a box keyed by the scroll
    /// position, holding a shutter that lifts the clipping, a column for
    /// the content, and a shutter that clips to the window.
    pub open spec fn viewed(self) -> NodeModel<Widget> {
        NodeModel::<Widget>::leaf(
            WidgetModel::Div(Div::plain()),
            Layout { size: Size::auto_size(), ..Layout::initial() },
        ).keyed(word(self.state.scroll_position.y)).pushed(self.shutter(false)).pushed(
            NodeModel::<Widget>::leaf(
                WidgetModel::Div(Div::plain()),
                Layout { direction: Direction::Column, ..Layout::initial() },
            ),
        ).pushed(self.shutter(true))
    }

    fn make_shutter(&self, on: bool) -> (n: Node<Widget>)
        ensures
            n@ == self.shutter(on),
    {
        let (w, h) = self.size.fixed();
        Node::new(
            Widget::RoundedRect(
                RoundedRect {
                    scissor: Some(on),
                    background_color: Color::clear(),
                    border_color: Color::clear(),
                    border_width: Borders::none(),
                    radius: Corners::none(),
                    swipe: 0,
                },
            ),
            Layout::new().size(Size::px(w, h)).position_type(PositionType::Absolute).position(
                Rect::px(0, 0, 0, 0),
            ),
        )
    }

    pub fn view(&self) -> (r: Option<Node<Widget>>)
        ensures
            r matches Some(n) && n@ == self.viewed(),
    {
        Some(
            Node::new(Widget::Div(Div::new()), Layout::new().size(Size::auto())).key(
                to_word(self.state.scroll_position.y),
            ).push(self.make_shutter(false)).push(
                Node::new(Widget::Div(Div::new()), Layout::new().direction(Direction::Column)),
            ).push(self.make_shutter(true)),
        )
    }
}

} // verus!
