//! A push button with a text label.
use vstd::prelude::*;
use crate::event::{Event, EventKind, MessageFactory, Reaction, ReactionModel};
use crate::layout::{Alignment, Layout, Rect, Size};
use crate::node::{Node, NodeModel};
use crate::renderables::types::{Borders, Corners};
use crate::style::{StyleKey, Styled};
use crate::types::{extent, to_extent, Color, Point};
use crate::widgets::div::{RoundedRect, Text, TextModel};
use crate::widgets::{Widget, WidgetModel};

verus! {

/// What a button remembers from frame to frame.
#[derive(Clone, Copy, Debug, PartialEq, Eq, Structural)]
pub struct ButtonState {
    pub hover: bool,
    pub pressed: bool,
    pub tool_tip_open: Option<Point>,
    /// When the pointer last moved over the button, in milliseconds.
    pub hover_start: Option<u64>,
}

impl ButtonState {
    pub open spec fn initial() -> ButtonState {
        ButtonState { hover: false, pressed: false, tool_tip_open: None, hover_start: None }
    }

    pub fn new() -> (s: ButtonState)
        ensures
            s == ButtonState::initial(),
    {
        ButtonState { hover: false, pressed: false, tool_tip_open: None, hover_start: None }
    }
}

/// The reaction `r` with the message of `factory` added, if there is a factory.
pub open spec fn fired(factory: Option<MessageFactory>, value: i64, r: ReactionModel) -> ReactionModel {
    match factory {
        Some(f) => r.emitted(f.made(value)),
        None => r,
    }
}

pub fn fire(factory: &Option<MessageFactory>, value: i64, r: &mut Reaction)
    ensures
        final(r)@ == fired(*factory, value, old(r)@),
{
    match factory {
        Some(f) => {
            r.emit(f.make(value));
        },
        None => {},
    }
}

#[derive(Debug)]
pub struct Button {
    pub label: String,
    pub on_click: Option<MessageFactory>,
    pub on_press: Option<MessageFactory>,
    pub on_release: Option<MessageFactory>,
    pub on_double_click: Option<MessageFactory>,
    pub tool_tip: Option<String>,
    pub state: ButtonState,
    pub dirty: bool,
    pub styled: Styled,
}

impl Button {
    pub open spec fn plain(label: String) -> Button {
        Button {
            label,
            on_click: None,
            on_press: None,
            on_release: None,
            on_double_click: None,
            tool_tip: None,
            state: ButtonState::initial(),
            dirty: false,
            styled: Styled::plain(),
        }
    }

    /// A button that sends nothing yet.
    pub fn new(label: String) -> (b: Button)
        ensures
            b == Button::plain(label),
    {
        Button {
            label,
            on_click: None,
            on_double_click: None,
            tool_tip: None,
            on_press: None,
            on_release: None,
            state: ButtonState::new(),
            dirty: false,
            styled: Styled::new(),
        }
    }

    /// Sets the message that a click sends.
    pub fn on_click(self, f: MessageFactory) -> (b: Button)
        ensures
            b == (Button { on_click: Some(f), ..self }),
    {
        let mut b = self;
        b.on_click = Some(f);
        b
    }

    /// Sets the message that pressing the button sends.
    pub fn on_press(self, f: MessageFactory) -> (b: Button)
        ensures
            b == (Button { on_press: Some(f), ..self }),
    {
        let mut b = self;
        b.on_press = Some(f);
        b
    }

    /// Sets the message that letting go of the button sends.
    pub fn on_release(self, f: MessageFactory) -> (b: Button)
        ensures
            b == (Button { on_release: Some(f), ..self }),
    {
        let mut b = self;
        b.on_release = Some(f);
        b
    }

    /// Sets the message that a double click sends.
    pub fn on_double_click(self, f: MessageFactory) -> (b: Button)
        ensures
            b == (Button { on_double_click: Some(f), ..self }),
    {
        let mut b = self;
        b.on_double_click = Some(f);
        b
    }

    /// Sets the text of the tool tip.
    pub fn tool_tip(self, t: String) -> (b: Button)
        ensures
            b == (Button { tool_tip: Some(t), ..self }),
    {
        let mut b = self;
        b.tool_tip = Some(t);
        b
    }

    /// The button with `pressed` set.
    pub open spec fn pressed(self, pressed: bool) -> Button {
        Button { state: ButtonState { pressed, ..self.state }, dirty: true, ..self }
    }

    /// The button after `event`, and its answer.  A press and a release
    /// send their messages and change the look.  The start of a drag is
    /// claimed by the button and stopped.  A click sends its message and
    /// bubbles on.  Pointer motion is only noted.
    pub open spec fn handled(self, event: Event) -> (Button, ReactionModel) {
        let quiet = ReactionModel::ignored();
        match event.kind {
            EventKind::MouseMotion => (
                Button {
                    state: ButtonState { hover_start: Some(event.time_ms), ..self.state },
                    ..self
                },
                quiet,
            ),
            EventKind::DragStart | EventKind::TouchDragStart => (
                self.pressed(false),
                quiet.dirtied().stopped(),
            ),
            EventKind::DragEnd | EventKind::TouchDragEnd => (self.pressed(false), quiet.dirtied()),
            EventKind::MouseDown | EventKind::TouchDown => (
                self.pressed(true),
                fired(self.on_press, 0, quiet.dirtied()),
            ),
            EventKind::MouseUp | EventKind::TouchUp => (
                self.pressed(false),
                fired(self.on_release, 0, quiet.dirtied()),
            ),
            EventKind::Click => (self, fired(self.on_click, 0, quiet)),
            EventKind::DoubleClick => (self, fired(self.on_double_click, 0, quiet)),
            _ => (self, quiet),
        }
    }

    pub fn on_event(&mut self, event: &Event) -> (r: Reaction)
        ensures
            (*final(self), r@) == old(self).handled(*event),
    {
        let mut r = Reaction::new();
        match event.kind {
            EventKind::MouseMotion => {
                self.state.hover_start = Some(event.time_ms);
            },
            EventKind::DragStart | EventKind::TouchDragStart => {
                self.state.pressed = false;
                self.dirty = true;
                r.dirty();
                r.stop_bubbling();
            },
            EventKind::DragEnd | EventKind::TouchDragEnd => {
                self.state.pressed = false;
                self.dirty = true;
                r.dirty();
            },
            EventKind::MouseDown | EventKind::TouchDown => {
                self.state.pressed = true;
                self.dirty = true;
                r.dirty();
                fire(&self.on_press, 0, &mut r);
            },
            EventKind::MouseUp | EventKind::TouchUp => {
                self.state.pressed = false;
                self.dirty = true;
                r.dirty();
                fire(&self.on_release, 0, &mut r);
            },
            EventKind::Click => {
                fire(&self.on_click, 0, &mut r);
            },
            EventKind::DoubleClick => {
                fire(&self.on_double_click, 0, &mut r);
            },
            _ => {},
        }
        r
    }

    /// The colour of the face of the button in its present state.
    pub open spec fn face(state: ButtonState, styled: Styled) -> Color {
        if state.pressed {
            styled.spec_color(StyleKey::ActiveColor)
        } else if state.hover {
            styled.spec_color(StyleKey::HighlightColor)
        } else {
            styled.spec_color(StyleKey::BackgroundColor)
        }
    }

    /// The frame of a button-like component: a rounded box in the colour
    /// of the state, with the border and radius of the style.
    pub open spec fn frame(state: ButtonState, styled: Styled) -> RoundedRect {
        let bw = styled.spec_number(StyleKey::BorderWidth);
        let radius = styled.spec_number(StyleKey::Radius);
        RoundedRect {
            background_color: Self::face(state, styled),
            border_color: styled.spec_color(StyleKey::BorderColor),
            border_width: Borders { top: bw, left: bw, bottom: bw, right: bw },
            radius: Corners {
                top_left: radius,
                top_right: radius,
                bottom_right: radius,
                bottom_left: radius,
            },
            scissor: None,
            swipe: 0,
        }
    }

    /// The layout of the frame of a button-like component of size `size`:
    /// padded, with half the border width as margin, its content centred.
    pub open spec fn frame_layout(styled: Styled, size: Size) -> Layout {
        let padding = styled.spec_number(StyleKey::Padding);
        let half = (extent(styled.spec_number(StyleKey::BorderWidth) as int) / 2) as i64;
        Layout {
            size,
            padding: Rect {
                top: crate::layout::Dimension::Px(padding),
                right: crate::layout::Dimension::Px(padding),
                bottom: crate::layout::Dimension::Px(padding),
                left: crate::layout::Dimension::Px(padding),
            },
            margin: Rect {
                top: crate::layout::Dimension::Px(half),
                right: crate::layout::Dimension::Px(half),
                bottom: crate::layout::Dimension::Px(half),
                left: crate::layout::Dimension::Px(half),
            },
            cross_alignment: Alignment::Center,
            axis_alignment: Alignment::Center,
            ..Layout::initial()
        }
    }

    /// The style of the text of a labelled component: size, colour and
    /// alignment as resolved, and the font settings if any layer has them.
    pub open spec fn text_style(styled: Styled) -> Styled {
        Styled::plain().maybe(StyleKey::FontSize, styled.resolved(StyleKey::FontSize)).maybe(
            StyleKey::TextColor,
            styled.resolved(StyleKey::TextColor),
        ).maybe(StyleKey::HAlignment, styled.resolved(StyleKey::HAlignment)).maybe(
            StyleKey::Font,
            styled.resolved(StyleKey::Font),
        ).maybe(StyleKey::FontWeight, styled.resolved(StyleKey::FontWeight)).maybe(
            StyleKey::LineHeight,
            styled.resolved(StyleKey::LineHeight),
        )
    }

    /// What the button projects itself into: its frame, filling the node,
    /// with the label inside.
    pub open spec fn viewed(self) -> NodeModel<Widget> {
        NodeModel::<Widget>::leaf(
            WidgetModel::RoundedRect(Self::frame(self.state, self.styled)),
            Self::frame_layout(
                self.styled,
                Size {
                    width: crate::layout::Dimension::Pct(100),
                    height: crate::layout::Dimension::Pct(100),
                },
            ),
        ).pushed(
            NodeModel::<Widget>::leaf(
                WidgetModel::Text(
                    TextModel { label: self.label@, styled: Self::text_style(self.styled) },
                ),
                Layout::initial(),
            ),
        )
    }

    pub fn make_frame(state: &ButtonState, styled: &Styled) -> (r: RoundedRect)
        ensures
            r == Self::frame(*state, *styled),
    {
        let face = if state.pressed {
            styled.color(StyleKey::ActiveColor)
        } else if state.hover {
            styled.color(StyleKey::HighlightColor)
        } else {
            styled.color(StyleKey::BackgroundColor)
        };
        RoundedRect {
            background_color: face,
            border_color: styled.color(StyleKey::BorderColor),
            border_width: Borders::all(styled.number(StyleKey::BorderWidth)),
            radius: Corners::all(styled.number(StyleKey::Radius)),
            scissor: None,
            swipe: 0,
        }
    }

    pub fn make_frame_layout(styled: &Styled, size: Size) -> (r: Layout)
        ensures
            r == Self::frame_layout(*styled, size),
    {
        let padding = styled.number(StyleKey::Padding);
        let half = to_extent(styled.number(StyleKey::BorderWidth)) / 2;
        Layout::new().size(size).padding(Rect::all(padding)).margin(
            Rect::all(half),
        ).cross_alignment(Alignment::Center).axis_alignment(Alignment::Center)
    }

    pub fn make_text_style(styled: &Styled) -> (r: Styled)
        ensures
            r == Self::text_style(*styled),
    {
        Styled::new().maybe_style(StyleKey::FontSize, styled.style_val(StyleKey::FontSize)).maybe_style(
            StyleKey::TextColor,
            styled.style_val(StyleKey::TextColor),
        ).maybe_style(StyleKey::HAlignment, styled.style_val(StyleKey::HAlignment)).maybe_style(
            StyleKey::Font,
            styled.style_val(StyleKey::Font),
        ).maybe_style(StyleKey::FontWeight, styled.style_val(StyleKey::FontWeight)).maybe_style(
            StyleKey::LineHeight,
            styled.style_val(StyleKey::LineHeight),
        )
    }

    pub fn view(&self) -> (r: Option<Node<Widget>>)
        ensures
            r matches Some(n) && n@ == self.viewed(),
    {
        let frame = Self::make_frame(&self.state, &self.styled);
        let text = Text { label: self.label.clone(), styled: Self::make_text_style(&self.styled) };
        let base = Node::new(
            Widget::RoundedRect(frame),
            Self::make_frame_layout(&self.styled, Size::pct(100, 100)),
        ).push(Node::new(Widget::Text(text), Layout::new()));
        Some(base)
    }
}

} // verus!
