//! An on/off switch in three looks.
use vstd::prelude::*;
use crate::component::{mixed, ComponentHasher};
use crate::event::{Event, EventKind, MessageFactory, Reaction, ReactionModel};
use crate::layout::{Alignment, Dimension, Layout, PositionType, Rect, Size};
use crate::node::{Modeled, Node, NodeModel};
use crate::renderables::types::Corners;
use crate::style::{FontWeight, Style, StyleKey, StyleVal, Styled};
use crate::types::Color;
use crate::widgets::button::{fire, fired};
use crate::widgets::div::{Div, Text, TextModel};
use crate::widgets::{Widget, WidgetModel};

verus! {

/// The number under which the font of the switch labels is registered.
pub const LABEL_FONT: u32 = 1;

/// What a switch remembers from frame to frame.
#[derive(Clone, Copy, Debug, PartialEq, Eq, Structural)]
pub struct ToggleState {
    pub pressed: bool,
}

#[derive(Clone, Copy, Debug, PartialEq, Eq, Structural)]
pub enum ToggleType {
    Type1,
    Type2,
    Type3,
}

#[derive(Clone, Copy, Debug, PartialEq, Eq, Structural)]
pub struct Toggle {
    pub active: bool,
    pub toggle_type: ToggleType,
    pub on_change: Option<MessageFactory>,
    pub state: ToggleState,
    pub dirty: bool,
    pub styled: Styled,
}

/// The number that stands for a truth value in a message.
pub open spec fn flag(b: bool) -> i64 {
    if b {
        1
    } else {
        0
    }
}

/// Where the knob is pinned: to the top, bottom and left edges when on,
/// to all four when off.
pub open spec fn knob_position(active: bool) -> Rect {
    Rect {
        top: Dimension::Px(0),
        right: if active {
            Dimension::Auto
        } else {
            Dimension::Px(0)
        },
        bottom: Dimension::Px(0),
        left: Dimension::Px(0),
    }
}

pub fn make_knob_position(active: bool) -> (r: Rect)
    ensures
        r == knob_position(active),
{
    if active {
        Rect::new(Dimension::Px(0), Dimension::Auto, Dimension::Px(0), Dimension::Px(0))
    } else {
        Rect::px(0, 0, 0, 0)
    }
}

/// Which way the track pushes its content.
pub open spec fn track_alignment(active: bool) -> Alignment {
    if active {
        Alignment::Start
    } else {
        Alignment::End
    }
}

pub fn make_track_alignment(active: bool) -> (r: Alignment)
    ensures
        r == track_alignment(active),
{
    if active {
        Alignment::Start
    } else {
        Alignment::End
    }
}

pub open spec fn rgb(r: u8, g: u8, b: u8) -> Color {
    Color { r, g, b, a: 255 }
}

/// `on` if the switch is on, else `off`.
pub open spec fn pick(active: bool, on: Color, off: Color) -> Color {
    if active {
        on
    } else {
        off
    }
}

pub fn choose_color(active: bool, on: Color, off: Color) -> (c: Color)
    ensures
        c == pick(active, on, off),
{
    if active {
        on
    } else {
        off
    }
}

pub open spec fn px_size(width: i64, height: i64) -> Size {
    Size { width: Dimension::Px(width), height: Dimension::Px(height) }
}

pub open spec fn px_rect(top: i64, right: i64, bottom: i64, left: i64) -> Rect {
    Rect {
        top: Dimension::Px(top),
        right: Dimension::Px(right),
        bottom: Dimension::Px(bottom),
        left: Dimension::Px(left),
    }
}

pub open spec fn all_corners(r: i64) -> Corners {
    Corners { top_left: r, top_right: r, bottom_right: r, bottom_left: r }
}

/// A box with background `bg` and a border.
pub open spec fn panel(bg: Color, border: Color, width: i64, radius: i64) -> WidgetModel {
    WidgetModel::Div(
        Div {
            background: Some(bg),
            border_color: border,
            border_width: width,
            radius: all_corners(radius),
        },
    )
}

pub fn make_panel(bg: Color, border: Color, width: i64, radius: i64) -> (w: Widget)
    ensures
        w.model() == panel(bg, border, width, radius),
{
    Widget::Div(Div::new().bg(bg).border(border, width, Corners::all(radius)))
}

/// The style of the class of small, white, semibold labels.
pub open spec fn small_label_class() -> Style {
    Style::empty().with(StyleKey::FontSize, Some(StyleVal::Number(14))).with(
        StyleKey::TextColor,
        Some(StyleVal::Color(rgb(255, 255, 255))),
    ).with(StyleKey::FontWeight, Some(StyleVal::FontWeight(FontWeight::Semibold))).with(
        StyleKey::LineHeight,
        Some(StyleVal::Number(12)),
    )
}

/// The style of the class of white, bold labels.
pub open spec fn bold_label_class() -> Style {
    Style::empty().with(StyleKey::TextColor, Some(StyleVal::Color(rgb(255, 255, 255)))).with(
        StyleKey::FontWeight,
        Some(StyleVal::FontWeight(FontWeight::Bold)),
    ).with(StyleKey::LineHeight, Some(StyleVal::Number(12)))
}

pub fn make_small_label_class() -> (s: Style)
    ensures
        s == small_label_class(),
{
    Style::new().set(StyleKey::FontSize, Some(StyleVal::Number(14))).set(
        StyleKey::TextColor,
        Some(StyleVal::Color(Color::rgb(255, 255, 255))),
    ).set(StyleKey::FontWeight, Some(StyleVal::FontWeight(FontWeight::Semibold))).set(
        StyleKey::LineHeight,
        Some(StyleVal::Number(12)),
    )
}

pub fn make_bold_label_class() -> (s: Style)
    ensures
        s == bold_label_class(),
{
    Style::new().set(StyleKey::TextColor, Some(StyleVal::Color(Color::rgb(255, 255, 255)))).set(
        StyleKey::FontWeight,
        Some(StyleVal::FontWeight(FontWeight::Bold)),
    ).set(StyleKey::LineHeight, Some(StyleVal::Number(12)))
}

/// The label of the switch, "ON" or "OFF", in the class `class` and the
/// label font, inside a box with the margin `margin`.
pub open spec fn label(active: bool, class: Style, margin: Rect) -> NodeModel<Widget> {
    NodeModel::<Widget>::leaf(
        WidgetModel::Div(Div::plain()),
        Layout { margin, ..Layout::initial() },
    ).pushed(
        NodeModel::<Widget>::leaf(
            WidgetModel::Text(
                TextModel {
                    label: if active {
                        "ON"@
                    } else {
                        "OFF"@
                    },
                    styled: (Styled { class, style_overrides: Style::empty() }).set_to(
                        StyleKey::Font,
                        StyleVal::Font(LABEL_FONT),
                    ),
                },
            ),
            Layout::initial(),
        ),
    )
}

pub fn make_label(active: bool, class: Style, margin: Rect) -> (n: Node<Widget>)
    ensures
        n@ == label(active, class, margin),
{
    let text = if active {
        "ON".to_owned()
    } else {
        "OFF".to_owned()
    };
    Node::new(Widget::Div(Div::new()), Layout::new().margin(margin)).push(
        Node::new(
            Widget::Text(
                Text::new(text).with_class(class).style(StyleKey::Font, StyleVal::Font(LABEL_FONT)),
            ),
            Layout::new(),
        ),
    )
}

/// The outer box of the switch: transparent, of size `size`, its content
/// centred across, with a unit of padding left and right.
pub open spec fn housing(size: Size) -> NodeModel<Widget> {
    NodeModel::<Widget>::leaf(
        WidgetModel::Div(Div { background: Some(Color::transparent()), ..Div::plain() }),
        Layout {
            size,
            cross_alignment: Alignment::Center,
            padding: px_rect(0, 1, 0, 1),
            ..Layout::initial()
        },
    )
}

pub fn make_housing(size: Size) -> (n: Node<Widget>)
    ensures
        n@ == housing(size),
{
    Node::new(
        Widget::Div(Div::new().bg(Color::clear())),
        Layout::new().size(size).cross_alignment(Alignment::Center).padding(Rect::px(0, 1, 0, 1)),
    )
}

/// The layout of the track: of size `size`, its content centred across
/// and pushed to the side that the knob has left free.
pub open spec fn track_layout(active: bool, size: Size) -> Layout {
    Layout {
        size,
        cross_alignment: Alignment::Center,
        axis_alignment: track_alignment(active),
        ..Layout::initial()
    }
}

pub fn make_track_layout(active: bool, size: Size) -> (l: Layout)
    ensures
        l == track_layout(active, size),
{
    Layout::new().size(size).cross_alignment(Alignment::Center).axis_alignment(
        make_track_alignment(active),
    )
}

/// The layout of the knob: taken out of the flow and pinned to the track.
pub open spec fn knob_layout(active: bool, size: Size, margin: Rect, cross: Alignment) -> Layout {
    Layout {
        position_type: PositionType::Absolute,
        position: knob_position(active),
        margin,
        size,
        cross_alignment: cross,
        ..Layout::initial()
    }
}

pub fn make_knob_layout(active: bool, size: Size, margin: Rect, cross: Alignment) -> (l: Layout)
    ensures
        l == knob_layout(active, size, margin, cross),
{
    Layout::new().position_type(PositionType::Absolute).position(
        make_knob_position(active),
    ).margin(margin).size(size).cross_alignment(cross)
}

impl Toggle {
    pub open spec fn plain(active: bool) -> Toggle {
        Toggle {
            active,
            toggle_type: ToggleType::Type3,
            on_change: None,
            state: ToggleState { pressed: active },
            dirty: false,
            styled: Styled::plain(),
        }
    }

    /// A switch in the third look that starts on if `active`.
    pub fn new(active: bool) -> (t: Toggle)
        ensures
            t == Toggle::plain(active),
    {
        Toggle {
            active,
            toggle_type: ToggleType::Type3,
            on_change: None,
            state: ToggleState { pressed: active },
            dirty: false,
            styled: Styled::new(),
        }
    }

    /// Sets the message that a change sends; its payload is 1 for on, 0 for off.
    pub fn on_change(self, change_fn: MessageFactory) -> (t: Toggle)
        ensures
            t == (Toggle { on_change: Some(change_fn), ..self }),
    {
        Toggle { on_change: Some(change_fn), ..self }
    }

    /// Chooses the look.
    pub fn toggle_type(self, t: ToggleType) -> (r: Toggle)
        ensures
            r == (Toggle { toggle_type: t, ..self }),
    {
        Toggle { toggle_type: t, ..self }
    }

    /// The first look: a pill with a round knob.
    pub open spec fn viewed_1(self) -> NodeModel<Widget> {
        let active = self.state.pressed;
        housing(px_size(58, 38)).pushed(
            NodeModel::<Widget>::leaf(
                panel(
                    pick(active, rgb(255, 255, 255), rgb(97, 97, 97)),
                    Color::transparent(),
                    1,
                    50,
                ),
                knob_layout(
                    active,
                    px_size(28, 28),
                    if active {
                        px_rect(5, 0, 0, 5)
                    } else {
                        px_rect(5, 2, 0, 0)
                    },
                    Alignment::Start,
                ),
            ),
        ).pushed(
            NodeModel::<Widget>::leaf(
                panel(
                    pick(active, rgb(45, 138, 255), rgb(255, 255, 255)),
                    Color::transparent(),
                    1,
                    16,
                ),
                track_layout(active, px_size(58, 30)),
            ),
        )
    }

    /// The second look: a bordered bar with a square knob and a label.
    pub open spec fn viewed_2(self) -> NodeModel<Widget> {
        let active = self.state.pressed;
        housing(px_size(80, 40)).pushed(
            NodeModel::<Widget>::leaf(
                WidgetModel::Div(
                    Div {
                        background: Some(pick(active, rgb(45, 138, 255), rgb(132, 132, 132))),
                        ..Div::plain()
                    },
                ),
                knob_layout(active, px_size(38, 38), Rect::none(), Alignment::Start),
            ),
        ).pushed(
            NodeModel::<Widget>::leaf(
                panel(
                    pick(active, rgb(2, 19, 55), rgb(25, 25, 25)),
                    pick(active, rgb(45, 138, 255), rgb(132, 132, 132)),
                    3,
                    0,
                ),
                track_layout(active, px_size(76, 28)),
            ).pushed(label(active, small_label_class(), px_rect(0, 8, 0, 10))),
        )
    }

    /// The third look: a small bordered bar with a small knob and a label.
    pub open spec fn viewed_3(self) -> NodeModel<Widget> {
        let active = self.state.pressed;
        housing(px_size(58, 26)).pushed(
            NodeModel::<Widget>::leaf(
                panel(
                    pick(active, rgb(45, 138, 255), rgb(219, 219, 219)),
                    Color::transparent(),
                    1,
                    2,
                ),
                knob_layout(
                    active,
                    px_size(18, 18),
                    if active {
                        px_rect(4, 0, 0, 8)
                    } else {
                        px_rect(4, 4, 0, 4)
                    },
                    Alignment::Center,
                ),
            ),
        ).pushed(
            NodeModel::<Widget>::leaf(
                panel(
                    pick(active, rgb(2, 19, 55), rgb(25, 25, 25)),
                    pick(active, rgb(45, 138, 255), rgb(219, 219, 219)),
                    3,
                    0,
                ),
                track_layout(active, px_size(60, 26)),
            ).pushed(
                label(
                    active,
                    bold_label_class(),
                    if active {
                        px_rect(0, 8, 0, 0)
                    } else {
                        px_rect(0, 0, 0, 10)
                    },
                ),
            ),
        )
    }

    /// What the switch projects itself into, by its look.
    pub open spec fn viewed(self) -> NodeModel<Widget> {
        match self.toggle_type {
            ToggleType::Type1 => self.viewed_1(),
            ToggleType::Type2 => self.viewed_2(),
            ToggleType::Type3 => self.viewed_3(),
        }
    }

    pub fn toogle_type_1(&self) -> (r: Option<Node<Widget>>)
        ensures
            r matches Some(n) && n@ == self.viewed_1(),
    {
        let active = self.state.pressed;
        let knob = Node::new(
            make_panel(
                choose_color(active, Color::rgb(255, 255, 255), Color::rgb(97, 97, 97)),
                Color::clear(),
                1,
                50,
            ),
            make_knob_layout(
                active,
                Size::px(28, 28),
                if active {
                    Rect::px(5, 0, 0, 5)
                } else {
                    Rect::px(5, 2, 0, 0)
                },
                Alignment::Start,
            ),
        );
        let track = Node::new(
            make_panel(
                choose_color(active, Color::rgb(45, 138, 255), Color::rgb(255, 255, 255)),
                Color::clear(),
                1,
                16,
            ),
            make_track_layout(active, Size::px(58, 30)),
        );
        Some(make_housing(Size::px(58, 38)).push(knob).push(track))
    }

    pub fn toggle_type_2(&self) -> (r: Option<Node<Widget>>)
        ensures
            r matches Some(n) && n@ == self.viewed_2(),
    {
        let active = self.state.pressed;
        let knob = Node::new(
            Widget::Div(
                Div::new().bg(
                    choose_color(active, Color::rgb(45, 138, 255), Color::rgb(132, 132, 132)),
                ),
            ),
            make_knob_layout(active, Size::px(38, 38), Rect::auto(), Alignment::Start),
        );
        let track = Node::new(
            make_panel(
                choose_color(active, Color::rgb(2, 19, 55), Color::rgb(25, 25, 25)),
                choose_color(active, Color::rgb(45, 138, 255), Color::rgb(132, 132, 132)),
                3,
                0,
            ),
            make_track_layout(active, Size::px(76, 28)),
        ).push(make_label(active, make_small_label_class(), Rect::px(0, 8, 0, 10)));
        Some(make_housing(Size::px(80, 40)).push(knob).push(track))
    }

    pub fn toggle_type_3(&self) -> (r: Option<Node<Widget>>)
        ensures
            r matches Some(n) && n@ == self.viewed_3(),
    {
        let active = self.state.pressed;
        let knob = Node::new(
            make_panel(
                choose_color(active, Color::rgb(45, 138, 255), Color::rgb(219, 219, 219)),
                Color::clear(),
                1,
                2,
            ),
            make_knob_layout(
                active,
                Size::px(18, 18),
                if active {
                    Rect::px(4, 0, 0, 8)
                } else {
                    Rect::px(4, 4, 0, 4)
                },
                Alignment::Center,
            ),
        );
        let track = Node::new(
            make_panel(
                choose_color(active, Color::rgb(2, 19, 55), Color::rgb(25, 25, 25)),
                choose_color(active, Color::rgb(45, 138, 255), Color::rgb(219, 219, 219)),
                3,
                0,
            ),
            make_track_layout(active, Size::px(60, 26)),
        ).push(
            make_label(
                active,
                make_bold_label_class(),
                if active {
                    Rect::px(0, 8, 0, 0)
                } else {
                    Rect::px(0, 0, 0, 10)
                },
            ),
        );
        Some(make_housing(Size::px(58, 26)).push(knob).push(track))
    }

    pub fn view(&self) -> (r: Option<Node<Widget>>)
        ensures
            r matches Some(n) && n@ == self.viewed(),
    {
        match self.toggle_type {
            ToggleType::Type1 => self.toogle_type_1(),
            ToggleType::Type2 => self.toggle_type_2(),
            ToggleType::Type3 => self.toggle_type_3(),
        }
    }

    /// The switch after `event`, and its answer: a press flips the switch;
    /// a click or a double click reports where it stands.
    pub open spec fn handled(self, event: Event) -> (Toggle, ReactionModel) {
        let quiet = ReactionModel::ignored();
        match event.kind {
            EventKind::MouseDown | EventKind::TouchDown => (
                Toggle { state: ToggleState { pressed: !self.state.pressed }, dirty: true, ..self },
                quiet.dirtied(),
            ),
            EventKind::Click | EventKind::DoubleClick => (
                self,
                fired(self.on_change, flag(self.state.pressed), quiet),
            ),
            _ => (self, quiet),
        }
    }

    pub fn on_event(&mut self, event: &Event) -> (r: Reaction)
        ensures
            (*final(self), r@) == old(self).handled(*event),
    {
        let mut r = Reaction::new();
        match event.kind {
            EventKind::MouseDown | EventKind::TouchDown => {
                self.state.pressed = !self.state.pressed;
                self.dirty = true;
                r.dirty();
            },
            EventKind::Click | EventKind::DoubleClick => {
                fire(
                    &self.on_change,
                    if self.state.pressed {
                        1
                    } else {
                        0
                    },
                    &mut r,
                );
            },
            _ => {},
        }
        r
    }

    /// What decides the pixels: the property and the state.
    pub open spec fn render_digest(self, seed: u64) -> Option<u64> {
        Some(mixed(mixed(seed, flag(self.active) as u64), flag(self.state.pressed) as u64))
    }

    pub fn render_hash(&self, hasher: &mut ComponentHasher) -> (declared: bool)
        ensures
            declared && self.render_digest(old(hasher).state) == Some(final(hasher).state),
    {
        hasher.write_bool(self.active);
        hasher.write_bool(self.state.pressed);
        true
    }

    /// What decides the subtree: the property.
    pub open spec fn props_digest(self, seed: u64) -> Option<u64> {
        Some(mixed(seed, flag(self.active) as u64))
    }

    pub fn props_hash(&self, hasher: &mut ComponentHasher) -> (declared: bool)
        ensures
            declared && self.props_digest(old(hasher).state) == Some(final(hasher).state),
    {
        hasher.write_bool(self.active);
        true
    }

    /// The switch after its properties have changed: it stands where the
    /// property says.
    pub open spec fn refreshed(self) -> Toggle {
        Toggle { state: ToggleState { pressed: self.active }, dirty: true, ..self }
    }

    pub fn new_props(&mut self)
        ensures
            *final(self) == old(self).refreshed(),
    {
        self.state.pressed = self.active;
        self.dirty = true;
    }
}

} // verus!
