//! A push button that shows an icon.
use vstd::prelude::*;
use crate::event::{Event, EventKind, MessageFactory, Reaction, ReactionModel};
use crate::layout::{Dimension, Layout, Size};
use crate::node::{Node, NodeModel};
use crate::style::{StyleKey, Styled};
use crate::types::{extent, to_extent};
use crate::widgets::button::{fire, fired, Button, ButtonState};
use crate::widgets::image::Image;
use crate::widgets::svg::Svg;
use crate::widgets::{Widget, WidgetModel};

verus! {

/// The kind of image an icon is.
#[derive(Clone, Copy, Debug, PartialEq, Eq, Structural)]
pub enum IconType {
    Svg,
    Png,
}

/// What an icon button remembers from frame to frame.
pub type IconButtonState = ButtonState;

#[derive(Debug)]
pub struct IconButton {
    pub icon: String,
    pub icon_type: IconType,
    pub on_click: Option<MessageFactory>,
    pub tool_tip: Option<String>,
    pub on_press: Option<MessageFactory>,
    pub on_release: Option<MessageFactory>,
    pub disabled: bool,
    pub dynamic_load_icon: Option<String>,
    pub state: ButtonState,
    pub dirty: bool,
    pub styled: Styled,
}

impl IconButton {
    pub open spec fn plain(icon: String) -> IconButton {
        IconButton {
            icon,
            icon_type: IconType::Svg,
            on_click: None,
            tool_tip: None,
            on_press: None,
            on_release: None,
            disabled: false,
            dynamic_load_icon: None,
            state: ButtonState::initial(),
            dirty: false,
            styled: Styled::plain(),
        }
    }

    /// A button with the registered vector image `icon`, which sends nothing yet.
    pub fn new(icon: String) -> (b: IconButton)
        ensures
            b == IconButton::plain(icon),
    {
        IconButton {
            icon,
            icon_type: IconType::Svg,
            on_click: None,
            tool_tip: None,
            on_press: None,
            on_release: None,
            disabled: false,
            dynamic_load_icon: None,
            state: ButtonState::new(),
            dirty: false,
            styled: Styled::new(),
        }
    }

    /// Sets the message that a click sends.
    pub fn on_click(self, f: MessageFactory) -> (b: IconButton)
        ensures
            b == (IconButton { on_click: Some(f), ..self }),
    {
        let mut b = self;
        b.on_click = Some(f);
        b
    }

    /// Sets the message that pressing the button sends.
    pub fn on_press(self, f: MessageFactory) -> (b: IconButton)
        ensures
            b == (IconButton { on_press: Some(f), ..self }),
    {
        let mut b = self;
        b.on_press = Some(f);
        b
    }

    /// Sets the message that letting go of the button sends.
    pub fn on_release(self, f: MessageFactory) -> (b: IconButton)
        ensures
            b == (IconButton { on_release: Some(f), ..self }),
    {
        let mut b = self;
        b.on_release = Some(f);
        b
    }

    /// Sets the text of the tool tip.
    pub fn tool_tip(self, t: String) -> (b: IconButton)
        ensures
            b == (IconButton { tool_tip: Some(t), ..self }),
    {
        let mut b = self;
        b.tool_tip = Some(t);
        b
    }

    /// Says what kind of image the icon is.
    pub fn icon_type(self, it: IconType) -> (b: IconButton)
        ensures
            b == (IconButton { icon_type: it, ..self }),
    {
        let mut b = self;
        b.icon_type = it;
        b
    }

    /// Switches the button off or on.
    pub fn disabled(self, d: bool) -> (b: IconButton)
        ensures
            b == (IconButton { disabled: d, ..self }),
    {
        let mut b = self;
        b.disabled = d;
        b
    }

    /// Has the icon loaded from the path `p` each time it is drawn.
    pub fn dynamic_load_icon(self, p: String) -> (b: IconButton)
        ensures
            b == (IconButton { dynamic_load_icon: Some(p), ..self }),
    {
        let mut b = self;
        b.dynamic_load_icon = Some(p);
        b
    }

    /// The button with `pressed` set.
    pub open spec fn pressed(self, pressed: bool) -> IconButton {
        IconButton { state: ButtonState { pressed, ..self.state }, dirty: true, ..self }
    }

    /// The button after `event`, and its answer.  A disabled button ignores
    /// everything but pointer motion; otherwise it behaves as a `Button`
    /// does, without a double click.
    pub open spec fn handled(self, event: Event) -> (IconButton, ReactionModel) {
        let quiet = ReactionModel::ignored();
        match event.kind {
            EventKind::MouseMotion => (
                IconButton {
                    state: ButtonState { hover_start: Some(event.time_ms), ..self.state },
                    ..self
                },
                quiet,
            ),
            _ => if self.disabled {
                (self, quiet)
            } else {
                match event.kind {
                    EventKind::DragStart | EventKind::TouchDragStart => (
                        self.pressed(false),
                        quiet.dirtied().stopped(),
                    ),
                    EventKind::DragEnd | EventKind::TouchDragEnd => (
                        self.pressed(false),
                        quiet.dirtied(),
                    ),
                    EventKind::MouseDown | EventKind::TouchDown => (
                        self.pressed(true),
                        fired(self.on_press, 0, quiet.dirtied()),
                    ),
                    EventKind::MouseUp | EventKind::TouchUp => (
                        self.pressed(false),
                        fired(self.on_release, 0, quiet.dirtied()),
                    ),
                    EventKind::Click => (self, fired(self.on_click, 0, quiet)),
                    _ => (self, quiet),
                }
            },
        }
    }

    pub fn on_event(&mut self, event: &Event) -> (r: Reaction)
        ensures
            (*final(self), r@) == old(self).handled(*event),
    {
        let mut r = Reaction::new();
        if let EventKind::MouseMotion = event.kind {
            self.state.hover_start = Some(event.time_ms);
            return r;
        }
        if self.disabled {
            return r;
        }
        match event.kind {
            EventKind::DragStart | EventKind::TouchDragStart => {
                self.state.pressed = false;
                self.dirty = true;
                r.dirty();
                r.stop_bubbling();
            },
            EventKind::DragEnd | EventKind::TouchDragEnd => {
                self.state.pressed = false;
                self.dirty = true;
                r.dirty();
            },
            EventKind::MouseDown | EventKind::TouchDown => {
                self.state.pressed = true;
                self.dirty = true;
                r.dirty();
                fire(&self.on_press, 0, &mut r);
            },
            EventKind::MouseUp | EventKind::TouchUp => {
                self.state.pressed = false;
                self.dirty = true;
                r.dirty();
                fire(&self.on_release, 0, &mut r);
            },
            EventKind::Click => {
                fire(&self.on_click, 0, &mut r);
            },
            _ => {},
        }
        r
    }

    /// The fixed size of the button, from its style.
    pub open spec fn fixed_size(self) -> (int, int) {
        self.styled.spec_size(StyleKey::Size).spec_fixed()
    }

    /// The layout of the icon: the size of the button less the padding.
    pub open spec fn icon_layout(self) -> Layout {
        let padding = self.styled.spec_number(StyleKey::Padding);
        let size = self.fixed_size();
        Layout {
            size: Size {
                width: Dimension::Px((size.0 - crate::types::offset(padding as int)) as i64),
                height: Dimension::Px((size.1 - crate::types::offset(padding as int)) as i64),
            },
            ..Layout::initial()
        }
    }

    /// The icon itself: a vector image or a bitmap.
    pub open spec fn icon_widget(self) -> WidgetModel {
        match self.icon_type {
            IconType::Svg => WidgetModel::Svg(
                Svg { name: self.icon, dynamic_load_from: self.dynamic_load_icon },
            ),
            IconType::Png => WidgetModel::Image(
                Image {
                    name: self.icon,
                    dynamic_load_from: self.dynamic_load_icon,
                    styled: Styled::plain(),
                },
            ),
        }
    }

    /// What the button projects itself into: its frame, of the fixed size
    /// from the style, with the icon inside.
    pub open spec fn viewed(self) -> NodeModel<Widget> {
        let size = self.fixed_size();
        NodeModel::<Widget>::leaf(
            WidgetModel::RoundedRect(Button::frame(self.state, self.styled)),
            Button::frame_layout(
                self.styled,
                Size { width: Dimension::Px(size.0 as i64), height: Dimension::Px(size.1 as i64) },
            ),
        ).pushed(NodeModel::<Widget>::leaf(self.icon_widget(), self.icon_layout()))
    }

    pub fn view(&self) -> (r: Option<Node<Widget>>)
        ensures
            r matches Some(n) && n@ == self.viewed(),
    {
        let padding = crate::types::to_offset(self.styled.number(StyleKey::Padding));
        let (width, height) = self.styled.size(StyleKey::Size).fixed();
        let source = match &self.dynamic_load_icon {
            Some(p) => Some(p.clone()),
            None => None,
        };
        let icon = match self.icon_type {
            IconType::Svg => Widget::Svg(Svg::new(self.icon.clone()).dynamic_load_from(source)),
            IconType::Png => Widget::Image(Image::new(self.icon.clone()).dynamic_load_from(source)),
        };
        let icon_node = Node::new(
            icon,
            Layout::new().size(Size::px(width - padding, height - padding)),
        );
        let base = Node::new(
            Widget::RoundedRect(Button::make_frame(&self.state, &self.styled)),
            Button::make_frame_layout(&self.styled, Size::px(width, height)),
        ).push(icon_node);
        Some(base)
    }
}

} // verus!
