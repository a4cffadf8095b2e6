//! A group of buttons of which one is selected.
use vstd::prelude::*;
use crate::component::{mixed, ComponentHasher, RenderContext};
use crate::event::{Event, EventKind, Message, MessageFactory, Reaction, ReactionModel};
use crate::layout::{Alignment, Dimension, Direction, Layout, Rect, Size};
use crate::node::{Modeled, Node, NodeModel};
use crate::renderables::circle::Instance as CircleInstance;
use crate::renderables::types::{Borders, Corners};
use crate::renderables::{renderable_models, Circle, Renderable, RenderableModel};
use crate::style::{FontWeight, HorizontalPosition, Style, StyleKey, StyleVal, Styled};
use crate::types::{coord, extent, to_coord, to_extent, Color, Pos};
use crate::widgets::div::{Div, RoundedRect, Text, TextModel};
use crate::widgets::h_divider::HDivider;
use crate::widgets::{Widget, WidgetModel};

verus! {

/// The tag of the message by which a radio button tells its group that it was clicked.
pub const RADIO_CLICKED: u64 = 0x7261_6469_6f5f_636c;

/// How many buttons go into one row or column when no limit is set.
pub const DEFAULT_LIMIT: usize = 10000;

#[derive(Clone, Copy, Debug, PartialEq, Eq, Structural)]
pub enum RadioButtonsType {
    Basic,
    Group,
    Block,
}

/// What a group remembers from frame to frame.
#[derive(Clone, Copy, Debug, PartialEq, Eq, Structural)]
pub struct RadioButtonsState {
    pub selected: usize,
}

#[derive(Debug)]
pub struct RadioButtons {
    pub buttons: Vec<String>,
    pub selected: usize,
    pub direction: Direction,
    pub max_rows: Option<usize>,
    pub max_columns: Option<usize>,
    pub on_change: Option<MessageFactory>,
    pub radio_buttons_type: RadioButtonsType,
    pub state: RadioButtonsState,
    pub dirty: bool,
    pub styled: Styled,
}

/// The mathematical value of a `RadioButtons`.
pub struct RadioButtonsModel {
    pub buttons: Seq<String>,
    pub selected: usize,
    pub direction: Direction,
    pub max_rows: Option<usize>,
    pub max_columns: Option<usize>,
    pub on_change: Option<MessageFactory>,
    pub radio_buttons_type: RadioButtonsType,
    pub state: RadioButtonsState,
    pub dirty: bool,
    pub styled: Styled,
}

impl RadioButtons {
    /// The value of the group.
    pub open spec fn model(&self) -> RadioButtonsModel {
        RadioButtonsModel {
            buttons: self.buttons@,
            selected: self.selected,
            direction: self.direction,
            max_rows: self.max_rows,
            max_columns: self.max_columns,
            on_change: self.on_change,
            radio_buttons_type: self.radio_buttons_type,
            state: self.state,
            dirty: self.dirty,
            styled: self.styled,
        }
    }
}

/// One button of a group.
#[derive(Debug)]
pub struct RadioButton {
    pub label: String,
    pub position: usize,
    pub selected: bool,
    pub radius: Corners,
    pub radio_button_type: RadioButtonsType,
    pub styled: Styled,
}

/// The width of the parent and the height of the content.
pub open spec fn full_width() -> Size {
    Size { width: Dimension::Pct(100), height: Dimension::Auto }
}

pub open spec fn all_px(v: i64) -> Rect {
    Rect {
        top: Dimension::Px(v),
        right: Dimension::Px(v),
        bottom: Dimension::Px(v),
        left: Dimension::Px(v),
    }
}

/// The key of the `k`-th entry of a run, counted from `first`.
pub open spec fn entry_key(j: nat, first: u64) -> u64 {
    ((j as u64).wrapping_mul(2)).wrapping_add(first)
}

pub fn make_entry_key(j: usize, first: u64) -> (k: u64)
    ensures
        k == entry_key(j as nat, first),
{
    ((j as u64).wrapping_mul(2)).wrapping_add(first)
}

impl RadioButton {
    /// What decides the subtree: whether the button is selected.
    pub open spec fn props_digest(self, seed: u64) -> Option<u64> {
        Some(
            mixed(
                seed,
                if self.selected {
                    1
                } else {
                    0
                },
            ),
        )
    }

    pub fn props_hash(&self, hasher: &mut ComponentHasher) -> (declared: bool)
        ensures
            declared && self.props_digest(old(hasher).state) == Some(final(hasher).state),
    {
        hasher.write_bool(self.selected);
        true
    }

    /// What a button answers to a click: the click goes no further up,
    /// and the group is told the place of the button.
    pub open spec fn chosen(self) -> ReactionModel {
        ReactionModel::ignored().stopped().emitted(
            Message { tag: RADIO_CLICKED, value: self.position as i64 },
        )
    }

    /// The button after `event`, and its answer: a click or double click
    /// is stopped here and reported to the group with the place of the button.
    pub open spec fn handled(self, event: Event) -> (RadioButton, ReactionModel) {
        match event.kind {
            EventKind::Click | EventKind::DoubleClick => (self, self.chosen()),
            _ => (self, ReactionModel::ignored()),
        }
    }

    /// Answers a click: stops it and sends the one message that names
    /// this button to the group.
    pub fn on_click(&mut self, event: &Event) -> (r: Reaction)
        ensures
            *final(self) == *old(self),
            r@ == old(self).chosen(),
    {
        let mut r = Reaction::new();
        r.stop_bubbling();
        r.emit(Message::new(RADIO_CLICKED, self.position as i64));
        r
    }

    /// Answers a double click as a click.
    pub fn on_double_click(&mut self, event: &Event) -> (r: Reaction)
        ensures
            *final(self) == *old(self),
            r@ == old(self).chosen(),
    {
        self.on_click(event)
    }

    pub fn on_event(&mut self, event: &Event) -> (r: Reaction)
        ensures
            (*final(self), r@) == old(self).handled(*event),
    {
        match event.kind {
            EventKind::Click => self.on_click(event),
            EventKind::DoubleClick => self.on_double_click(event),
            _ => Reaction::new(),
        }
    }

    /// The centre of the mark: near the right edge, half way down.
    pub open spec fn mark_origin(context: RenderContext) -> Pos {
        Pos {
            x: (coord(context.aabb.pos.x as int) + extent(context.aabb.size.width as int) - 14) as i64,
            y: (coord(context.aabb.pos.y as int) + extent(context.aabb.size.height as int) / 2) as i64,
            z: 0,
        }
    }

    /// The ring of the mark, in the active colour if the button is selected.
    pub open spec fn ring(self, context: RenderContext) -> CircleInstance {
        CircleInstance {
            origin: Self::mark_origin(context),
            radius: 9,
            color: None,
            border_color: Some(
                if self.selected {
                    self.styled.spec_color(StyleKey::ActiveColor)
                } else {
                    self.styled.spec_color(StyleKey::BorderColor)
                },
            ),
            border_width: 2,
            bg_image: None,
        }
    }

    /// The dot of the mark.
    pub open spec fn dot(self, context: RenderContext) -> CircleInstance {
        CircleInstance {
            origin: Self::mark_origin(context),
            radius: 7,
            color: Some(self.styled.spec_color(StyleKey::ActiveColor)),
            border_color: None,
            border_width: 1,
            bg_image: None,
        }
    }

    /// What the button draws: a ring, and a dot inside it if it is selected.
    pub open spec fn rendered(self, context: RenderContext) -> Option<Seq<RenderableModel>> {
        if self.selected {
            Some(
                seq![
                    RenderableModel::Circle(Circle { instance_data: self.ring(context) }),
                    RenderableModel::Circle(Circle { instance_data: self.dot(context) }),
                ],
            )
        } else {
            Some(seq![RenderableModel::Circle(Circle { instance_data: self.ring(context) })])
        }
    }

    pub fn render(&self, context: RenderContext) -> (r: Option<Vec<Renderable>>)
        ensures
            r matches Some(v) && self.rendered(context) == Some(renderable_models(v@)),
    {
        let active = self.styled.color(StyleKey::ActiveColor);
        let origin = Pos {
            x: to_coord(context.aabb.pos.x) + to_extent(context.aabb.size.width) - 14,
            y: to_coord(context.aabb.pos.y) + to_extent(context.aabb.size.height) / 2,
            z: 0,
        };
        let mut rs: Vec<Renderable> = Vec::new();
        rs.push(
            Renderable::Circle(
                Circle::from_instance_data(
                    CircleInstance {
                        origin,
                        radius: 9,
                        color: None,
                        border_color: Some(
                            if self.selected {
                                active
                            } else {
                                self.styled.color(StyleKey::BorderColor)
                            },
                        ),
                        border_width: 2,
                        bg_image: None,
                    },
                ),
            ),
        );
        if self.selected {
            rs.push(
                Renderable::Circle(
                    Circle::from_instance_data(
                        CircleInstance {
                            origin,
                            radius: 7,
                            color: Some(active),
                            border_color: None,
                            border_width: 1,
                            bg_image: None,
                        },
                    ),
                ),
            );
        }
        assert(renderable_models(rs@) =~= self.rendered(context).unwrap());
        Some(rs)
    }

    /// The face of the button: a rounded box in the active colour if the
    /// button is selected.
    pub open spec fn face(self) -> RoundedRect {
        let bw = self.styled.spec_number(StyleKey::BorderWidth);
        RoundedRect {
            background_color: if self.selected {
                self.styled.spec_color(StyleKey::ActiveColor)
            } else {
                self.styled.spec_color(StyleKey::BackgroundColor)
            },
            border_color: self.styled.spec_color(StyleKey::BorderColor),
            border_width: Borders { top: bw, left: bw, bottom: bw, right: bw },
            radius: self.radius,
            scissor: None,
            swipe: 0,
        }
    }

    /// The layout of the face: filling the node, padded, content centred.
    pub open spec fn face_layout(self) -> Layout {
        Layout {
            size: Size { width: Dimension::Pct(100), height: Dimension::Pct(100) },
            padding: all_px(self.styled.spec_number(StyleKey::Padding)),
            cross_alignment: Alignment::Center,
            axis_alignment: Alignment::Center,
            ..Layout::initial()
        }
    }

    /// The style of the label on a face: size and colour as resolved,
    /// centred, and the font if any layer sets one.
    pub open spec fn caption_style(self) -> Styled {
        Styled::plain().maybe(StyleKey::FontSize, self.styled.resolved(StyleKey::FontSize)).maybe(
            StyleKey::TextColor,
            self.styled.resolved(StyleKey::TextColor),
        ).set_to(
            StyleKey::HAlignment,
            StyleVal::HorizontalPosition(HorizontalPosition::Center),
        ).maybe(StyleKey::Font, self.styled.resolved(StyleKey::Font))
    }

    pub open spec fn caption(self) -> NodeModel<Widget> {
        NodeModel::<Widget>::leaf(
            WidgetModel::Text(TextModel { label: self.label@, styled: self.caption_style() }),
            Layout::initial(),
        )
    }

    /// The class of the labels of a grouped button.
    pub open spec fn group_class() -> Style {
        Style::empty().with(StyleKey::FontSize, Some(StyleVal::Number(18))).with(
            StyleKey::FontWeight,
            Some(StyleVal::FontWeight(FontWeight::Light)),
        )
    }

    /// What the button projects itself into, by the look of its group.
    pub open spec fn viewed(self) -> NodeModel<Widget> {
        match self.radio_button_type {
            RadioButtonsType::Basic => NodeModel::<Widget>::leaf(
                WidgetModel::Div(Div::plain()),
                Layout {
                    size: Size { width: Dimension::Pct(100), height: Dimension::Pct(100) },
                    direction: Direction::Row,
                    cross_alignment: Alignment::Center,
                    axis_alignment: Alignment::Stretch,
                    ..Layout::initial()
                },
            ).pushed(
                NodeModel::<Widget>::leaf(WidgetModel::RoundedRect(self.face()), self.face_layout()),
            ).pushed(self.caption()),
            RadioButtonsType::Group => NodeModel::<Widget>::leaf(
                WidgetModel::Div(Div::plain()),
                Layout {
                    direction: Direction::Row,
                    cross_alignment: Alignment::Center,
                    padding: Rect {
                        top: Dimension::Px(22),
                        right: Dimension::Px(10),
                        bottom: Dimension::Px(22),
                        left: Dimension::Px(10),
                    },
                    size: full_width(),
                    axis_alignment: Alignment::Stretch,
                    ..Layout::initial()
                },
            ).pushed(
                NodeModel::<Widget>::leaf(
                    WidgetModel::Div(Div { background: Some(Color::transparent()), ..Div::plain() }),
                    Layout::initial(),
                ).pushed(
                    NodeModel::<Widget>::leaf(
                        WidgetModel::Text(
                            TextModel {
                                label: self.label@,
                                styled: (Styled {
                                    class: Self::group_class(),
                                    style_overrides: Style::empty(),
                                }).maybe(
                                    StyleKey::Font,
                                    self.styled.resolved(StyleKey::Font),
                                ).set_to(
                                    StyleKey::FontWeight,
                                    StyleVal::FontWeight(FontWeight::Bold),
                                ),
                            },
                        ),
                        Layout::initial(),
                    ),
                ),
            ),
            RadioButtonsType::Block => NodeModel::<Widget>::leaf(
                WidgetModel::RoundedRect(self.face()),
                self.face_layout(),
            ).pushed(self.caption()),
        }
    }

    fn make_face(&self) -> (n: Node<Widget>)
        ensures
            n@ == NodeModel::<Widget>::leaf(
                WidgetModel::RoundedRect(self.face()),
                self.face_layout(),
            ),
    {
        let face = RoundedRect {
            background_color: if self.selected {
                self.styled.color(StyleKey::ActiveColor)
            } else {
                self.styled.color(StyleKey::BackgroundColor)
            },
            border_color: self.styled.color(StyleKey::BorderColor),
            border_width: Borders::all(self.styled.number(StyleKey::BorderWidth)),
            radius: self.radius,
            scissor: None,
            swipe: 0,
        };
        Node::new(
            Widget::RoundedRect(face),
            Layout::new().size(Size::pct(100, 100)).padding(
                Rect::all(self.styled.number(StyleKey::Padding)),
            ).cross_alignment(Alignment::Center).axis_alignment(Alignment::Center),
        )
    }

    fn make_caption(&self) -> (n: Node<Widget>)
        ensures
            n@ == self.caption(),
    {
        let styled = Styled::new().maybe_style(
            StyleKey::FontSize,
            self.styled.style_val(StyleKey::FontSize),
        ).maybe_style(StyleKey::TextColor, self.styled.style_val(StyleKey::TextColor)).style(
            StyleKey::HAlignment,
            StyleVal::HorizontalPosition(HorizontalPosition::Center),
        ).maybe_style(StyleKey::Font, self.styled.style_val(StyleKey::Font));
        Node::new(Widget::Text(Text { label: self.label.clone(), styled }), Layout::new())
    }

    pub fn view(&self) -> (r: Option<Node<Widget>>)
        ensures
            r matches Some(n) && n@ == self.viewed(),
    {
        match self.radio_button_type {
            RadioButtonsType::Basic => {
                let base = Node::new(
                    Widget::Div(Div::new()),
                    Layout::new().size(Size::pct(100, 100)).direction(
                        Direction::Row,
                    ).cross_alignment(Alignment::Center).axis_alignment(Alignment::Stretch),
                );
                Some(base.push(self.make_face()).push(self.make_caption()))
            },
            RadioButtonsType::Group => {
                let base = Node::new(
                    Widget::Div(Div::new()),
                    Layout::new().direction(Direction::Row).cross_alignment(
                        Alignment::Center,
                    ).padding(Rect::px(22, 10, 22, 10)).size(
                        Size::new(Dimension::Pct(100), Dimension::Auto),
                    ).axis_alignment(Alignment::Stretch),
                );
                let class = Style::new().set(StyleKey::FontSize, Some(StyleVal::Number(18))).set(
                    StyleKey::FontWeight,
                    Some(StyleVal::FontWeight(FontWeight::Light)),
                );
                let styled = Styled::new().with_class(class).maybe_style(
                    StyleKey::Font,
                    self.styled.style_val(StyleKey::Font),
                ).style(StyleKey::FontWeight, StyleVal::FontWeight(FontWeight::Bold));
                let text = Node::new(
                    Widget::Div(Div::new().bg(Color::clear())),
                    Layout::new(),
                ).push(
                    Node::new(
                        Widget::Text(Text { label: self.label.clone(), styled }),
                        Layout::new(),
                    ),
                );
                Some(base.push(text))
            },
            RadioButtonsType::Block => Some(self.make_face().push(self.make_caption())),
        }
    }
}

/// Where the loop over the buttons stands.
pub struct Rows {
    /// The outer box, holding the runs that are complete.
    pub base: NodeModel<Widget>,
    /// The run that is being filled.
    pub container: NodeModel<Widget>,
    /// The number of the run that is being filled.
    pub run: nat,
    /// How many buttons the run holds.
    pub filled: nat,
}

pub open spec fn other(direction: Direction) -> Direction {
    match direction {
        Direction::Row => Direction::Column,
        Direction::Column => Direction::Row,
    }
}

/// `len` divided by `limit`, rounded up.
pub open spec fn runs(len: nat, limit: nat) -> nat {
    if len == 0 || limit == 0 {
        0
    } else {
        ((len - 1) / limit as int + 1) as nat
    }
}

pub open spec fn smaller(a: nat, b: nat) -> nat {
    if a > b {
        b
    } else {
        a
    }
}

impl RadioButtonsModel {
    /// How many buttons go into one run: the limit that is set for the
    /// direction, at least one.
    pub open spec fn limit(self) -> nat {
        let l = match self.direction {
            Direction::Row => match self.max_columns {
                Some(n) => n,
                None => DEFAULT_LIMIT,
            },
            Direction::Column => match self.max_rows {
                Some(n) => n,
                None => DEFAULT_LIMIT,
            },
        };
        if l == 0 {
            1
        } else {
            l as nat
        }
    }

    pub open spec fn n_rows(self) -> nat {
        match self.direction {
            Direction::Column => smaller(self.buttons.len(), self.limit()),
            Direction::Row => runs(self.buttons.len(), self.limit()),
        }
    }

    pub open spec fn n_columns(self) -> nat {
        match self.direction {
            Direction::Column => runs(self.buttons.len(), self.limit()),
            Direction::Row => smaller(self.buttons.len(), self.limit()),
        }
    }

    /// The corner radii of the button at `position`, which stands at `row`
    /// and `col`: fixed for the basic and the grouped look; for the block
    /// look only the outer corners of the block are rounded.
    pub open spec fn corner_radii(self, position: nat, row: nat, col: nat) -> Corners {
        let radius = self.styled.spec_number(StyleKey::Radius);
        let last = position + 1 == self.buttons.len();
        match self.radio_buttons_type {
            RadioButtonsType::Basic => Corners {
                top_left: 14,
                top_right: 14,
                bottom_right: 14,
                bottom_left: 14,
            },
            RadioButtonsType::Group => Corners {
                top_left: 10,
                top_right: 10,
                bottom_right: 10,
                bottom_left: 10,
            },
            RadioButtonsType::Block => Corners {
                top_left: if row == 0 && col == 0 {
                    radius
                } else {
                    0
                },
                top_right: if row == 0 && (col + 1 == self.n_columns() || last) {
                    radius
                } else {
                    0
                },
                bottom_right: if last {
                    radius
                } else {
                    0
                },
                bottom_left: if col == 0 && (row + 1 == self.n_rows() || last) {
                    radius
                } else {
                    0
                },
            },
        }
    }

    /// The button at `position`, which is entry `filled` of run `run`.
    pub open spec fn button(self, position: nat, run: nat, filled: nat) -> RadioButton {
        let row = match self.direction {
            Direction::Row => run,
            Direction::Column => filled,
        };
        let col = match self.direction {
            Direction::Row => filled,
            Direction::Column => run,
        };
        RadioButton {
            label: self.buttons[position as int],
            radio_button_type: self.radio_buttons_type,
            position: position as usize,
            selected: self.state.selected == position,
            radius: self.corner_radii(position, row, col),
            styled: self.styled,
        }
    }

    /// The outer box: it runs across the direction of the buttons.
    pub open spec fn outer(self) -> NodeModel<Widget> {
        NodeModel::<Widget>::leaf(
            WidgetModel::Div(Div::plain()),
            Layout { direction: other(self.direction), size: full_width(), ..Layout::initial() },
        )
    }

    /// The box of run `run`.
    pub open spec fn run_box(self, run: nat) -> NodeModel<Widget> {
        if run == 0 {
            NodeModel::<Widget>::leaf(
                WidgetModel::Div(Div::plain()),
                Layout { direction: self.direction, size: full_width(), ..Layout::initial() },
            ).keyed(0)
        } else {
            NodeModel::<Widget>::leaf(
                WidgetModel::Div(Div::plain()),
                Layout {
                    direction: self.direction,
                    cross_alignment: Alignment::Stretch,
                    ..Layout::initial()
                },
            ).keyed(run as u64)
        }
    }

    /// The rule that follows every button.
    pub open spec fn rule() -> WidgetModel {
        WidgetModel::HDivider(HDivider { size: 2, color: Color { r: 83, g: 83, b: 83, a: 255 } })
    }

    /// The state of the loop after the first `n` buttons: a button goes
    /// into the current run unless that is full, in which case the run is
    /// added to the outer box and a new one begun.  Every button is
    /// followed by a rule.
    pub open spec fn laid(self, n: nat) -> Rows
        decreases n,
    {
        if n == 0 || n > self.buttons.len() {
            Rows { base: self.outer(), container: self.run_box(0), run: 0, filled: 0 }
        } else {
            let before = self.laid((n - 1) as nat);
            let position = (n - 1) as nat;
            let wraps = before.filled >= self.limit();
            let run = if wraps {
                before.run + 1
            } else {
                before.run
            };
            let filled = if wraps {
                0
            } else {
                before.filled
            };
            Rows {
                base: if wraps {
                    before.base.pushed(before.container)
                } else {
                    before.base
                },
                container: if wraps {
                    self.run_box(run)
                } else {
                    before.container
                }.pushed(
                    NodeModel::<Widget>::leaf(
                        WidgetModel::RadioButton(self.button(position, run, filled)),
                        Layout { size: full_width(), ..Layout::initial() },
                    ).keyed(entry_key(filled, 1)),
                ).pushed(
                    NodeModel::<Widget>::leaf(
                        Self::rule(),
                        Layout { size: full_width(), ..Layout::initial() },
                    ).keyed(entry_key(filled, 2)),
                ),
                run,
                filled: filled + 1,
            }
        }
    }

    /// The entry of the button at `position`, which is entry `j` of run `run`.
    pub open spec fn entry(self, position: nat, run: nat, j: nat) -> NodeModel<Widget> {
        NodeModel::<Widget>::leaf(
            WidgetModel::RadioButton(self.button(position, run, j)),
            Layout { size: full_width(), ..Layout::initial() },
        ).keyed(entry_key(j, 1))
    }

    /// The rule that follows entry `j` of a run.
    pub open spec fn rule_entry(j: nat) -> NodeModel<Widget> {
        NodeModel::<Widget>::leaf(
            Self::rule(),
            Layout { size: full_width(), ..Layout::initial() },
        ).keyed(entry_key(j, 2))
    }

    /// Run `run` with its first `count` buttons in it: the buttons at the
    /// places `run * limit`, `run * limit + 1` and so on, each followed
    /// by a rule.
    pub open spec fn run_of(self, run: nat, count: nat) -> NodeModel<Widget> {
        NodeModel {
            children: Seq::new(
                2 * count,
                |i: int|
                    if i % 2 == 0 {
                        self.entry((run * self.limit() + i / 2) as nat, run, (i / 2) as nat)
                    } else {
                        Self::rule_entry((i / 2) as nat)
                    },
            ),
            ..self.run_box(run)
        }
    }

    /// What the group projects itself into: the outer box with all runs.
    pub open spec fn viewed(self) -> NodeModel<Widget> {
        let all = self.laid(self.buttons.len());
        all.base.pushed(all.container)
    }

    /// Whether `message` is the report of a click by a radio button.
    pub open spec fn reports_click(message: Message) -> bool {
        message.tag == RADIO_CLICKED && 0 <= message.value <= usize::MAX
    }

    /// The group after a click that one of its buttons reports: that
    /// button is selected, and the change is passed on.
    pub open spec fn updated(self, message: Message) -> (RadioButtonsModel, Seq<Message>) {
        (
            RadioButtonsModel {
                state: RadioButtonsState { selected: message.value as usize },
                dirty: true,
                ..self
            },
            match self.on_change {
                Some(f) => seq![f.made(message.value)],
                None => Seq::empty(),
            },
        )
    }

    /// The group after its properties have changed: the selection is the
    /// one the properties name.
    pub open spec fn refreshed(self) -> RadioButtonsModel {
        RadioButtonsModel {
            state: RadioButtonsState { selected: self.selected },
            dirty: true,
            ..self
        }
    }

    /// What decides the subtree: the selection that the properties name.
    pub open spec fn props_digest(self, seed: u64) -> Option<u64> {
        Some(mixed(seed, self.selected as u64))
    }

    /// What decides the pixels: the selection.
    pub open spec fn render_digest(self, seed: u64) -> Option<u64> {
        Some(mixed(seed, self.state.selected as u64))
    }
}

impl RadioButtons {
    /// A group of buttons with the given labels, in a row, of which the
    /// one at `selected` is selected.
    pub fn new(buttons: Vec<String>, selected: usize) -> (r: RadioButtons)
        ensures
            r.model() == (RadioButtonsModel {
                buttons: buttons@,
                selected,
                direction: Direction::Row,
                max_rows: None,
                max_columns: None,
                on_change: None,
                radio_buttons_type: RadioButtonsType::Group,
                state: RadioButtonsState { selected },
                dirty: false,
                styled: Styled::plain(),
            }),
    {
        RadioButtons {
            buttons,
            selected,
            direction: Direction::Row,
            max_rows: None,
            max_columns: None,
            on_change: None,
            styled: Styled::new(),
            radio_buttons_type: RadioButtonsType::Group,
            dirty: false,
            state: RadioButtonsState { selected },
        }
    }

    /// Sets the direction in which the buttons follow each other.
    pub fn direction(self, direction: Direction) -> (r: RadioButtons)
        ensures
            r.model() == (RadioButtonsModel { direction, ..self.model() }),
    {
        let mut r = self;
        r.direction = direction;
        r
    }

    /// Limits the number of buttons in a column.
    pub fn max_rows(self, max_rows: usize) -> (r: RadioButtons)
        ensures
            r.model() == (RadioButtonsModel { max_rows: Some(max_rows), ..self.model() }),
    {
        let mut r = self;
        r.max_rows = Some(max_rows);
        r
    }

    /// Limits the number of buttons in a row.
    pub fn max_columns(self, max_columns: usize) -> (r: RadioButtons)
        ensures
            r.model() == (RadioButtonsModel { max_columns: Some(max_columns), ..self.model() }),
    {
        let mut r = self;
        r.max_columns = Some(max_columns);
        r
    }

    /// Sets the message that a change of selection sends; its payload is
    /// the place of the button.
    pub fn on_change(self, change_fn: MessageFactory) -> (r: RadioButtons)
        ensures
            r.model() == (RadioButtonsModel { on_change: Some(change_fn), ..self.model() }),
    {
        let mut r = self;
        r.on_change = Some(change_fn);
        r
    }

    /// Chooses the look.
    pub fn radio_buttons_type(self, t: RadioButtonsType) -> (r: RadioButtons)
        ensures
            r.model() == (RadioButtonsModel { radio_buttons_type: t, ..self.model() }),
    {
        let mut r = self;
        r.radio_buttons_type = t;
        r
    }

    fn limit(&self) -> (l: usize)
        ensures
            l == self.model().limit(),
            l >= 1,
    {
        let l = match self.direction {
            Direction::Row => match self.max_columns {
                Some(n) => n,
                None => DEFAULT_LIMIT,
            },
            Direction::Column => match self.max_rows {
                Some(n) => n,
                None => DEFAULT_LIMIT,
            },
        };
        if l == 0 {
            1
        } else {
            l
        }
    }

    fn count_runs(len: usize, limit: usize) -> (r: usize)
        requires
            limit >= 1,
        ensures
            r == runs(len as nat, limit as nat),
    {
        if len == 0 {
            0
        } else {
            (len - 1) / limit + 1
        }
    }

    fn corner_radii(&self, position: usize, row: usize, col: usize) -> (c: Corners)
        requires
            position < self.buttons@.len(),
        ensures
            c == self.model().corner_radii(position as nat, row as nat, col as nat),
    {
        let radius = self.styled.number(StyleKey::Radius);
        let len = self.buttons.len();
        let limit = self.limit();
        let last = position + 1 == len;
        match self.radio_buttons_type {
            RadioButtonsType::Basic => Corners::all(14),
            RadioButtonsType::Group => Corners::all(10),
            RadioButtonsType::Block => {
                let (n_rows, n_columns) = match self.direction {
                    Direction::Column => (
                        if len > limit {
                            limit
                        } else {
                            len
                        },
                        Self::count_runs(len, limit),
                    ),
                    Direction::Row => (
                        Self::count_runs(len, limit),
                        if len > limit {
                            limit
                        } else {
                            len
                        },
                    ),
                };
                Corners {
                    top_left: if row == 0 && col == 0 {
                        radius
                    } else {
                        0
                    },
                    top_right: if row == 0 && (col == n_columns - 1 && n_columns > 0 || last) {
                        radius
                    } else {
                        0
                    },
                    bottom_right: if last {
                        radius
                    } else {
                        0
                    },
                    bottom_left: if col == 0 && (row == n_rows - 1 && n_rows > 0 || last) {
                        radius
                    } else {
                        0
                    },
                }
            },
        }
    }

    fn run_box(&self, run: usize) -> (n: Node<Widget>)
        ensures
            n@ == self.model().run_box(run as nat),
    {
        if run == 0 {
            Node::new(
                Widget::Div(Div::new()),
                Layout::new().direction(self.direction).size(
                    Size::new(Dimension::Pct(100), Dimension::Auto),
                ),
            ).key(0)
        } else {
            Node::new(
                Widget::Div(Div::new()),
                Layout::new().direction(self.direction).cross_alignment(Alignment::Stretch),
            ).key(run as u64)
        }
    }

    pub fn view(&self) -> (r: Option<Node<Widget>>)
        ensures
            r matches Some(n) && n@ == self.model().viewed(),
    {
        let mut base = Node::new(
            Widget::Div(Div::new()),
            Layout::new().direction(
                match self.direction {
                    Direction::Row => Direction::Column,
                    Direction::Column => Direction::Row,
                },
            ).size(Size::new(Dimension::Pct(100), Dimension::Auto)),
        );
        let limit = self.limit();
        let len = self.buttons.len();
        let mut i: usize = 0;
        let mut j: usize = 0;
        let mut container = self.run_box(0);
        let mut position: usize = 0;
        while position < len
            invariant
                position <= len,
                len == self.buttons@.len(),
                limit == self.model().limit(),
                i <= position,
                j <= position,
                base@ == self.model().laid(position as nat).base,
                container@ == self.model().laid(position as nat).container,
                i == self.model().laid(position as nat).run,
                j == self.model().laid(position as nat).filled,
            decreases len - position,
        {
            if j >= limit {
                j = 0;
                i += 1;
                let full = container;
                container = self.run_box(i);
                base = base.push(full);
            }
            let row = match self.direction {
                Direction::Row => i,
                Direction::Column => j,
            };
            let col = match self.direction {
                Direction::Row => j,
                Direction::Column => i,
            };
            let button = RadioButton {
                label: self.buttons[position].clone(),
                radio_button_type: self.radio_buttons_type,
                position,
                selected: self.state.selected == position,
                radius: self.corner_radii(position, row, col),
                styled: self.styled,
            };
            container = container.push(
                Node::new(
                    Widget::RadioButton(button),
                    Layout::new().size(Size::new(Dimension::Pct(100), Dimension::Auto)),
                ).key(make_entry_key(j, 1)),
            );
            container = container.push(
                Node::new(
                    Widget::HDivider(HDivider { size: 2, color: Color::rgb(83, 83, 83) }),
                    Layout::new().size(Size::new(Dimension::Pct(100), Dimension::Auto)),
                ).key(make_entry_key(j, 2)),
            );
            j += 1;
            position += 1;
        }
        Some(base.push(container))
    }

    /// Whether `message` is the report of a click by a radio button.
    pub fn is_click_report(message: &Message) -> (r: bool)
        ensures
            r == RadioButtonsModel::reports_click(*message),
    {
        message.tag == RADIO_CLICKED && message.value >= 0 && message.value as u64
            <= usize::MAX as u64
    }

    /// Takes the report of a click from one of the buttons.  The group
    /// understands no other message: the message names a button by its
    /// place, a number that is not negative and fits the machine.
    pub fn update(&mut self, message: Message) -> (r: Vec<Message>)
        requires
            message.tag == RADIO_CLICKED,
            0 <= message.value <= usize::MAX,
        ensures
            (final(self).model(), r@) == old(self).model().updated(message),
    {
        let mut m: Vec<Message> = Vec::new();
        self.state.selected = message.value as usize;
        self.dirty = true;
        if let Some(f) = &self.on_change {
            m.push(f.make(message.value));
        }
        assert(m@ =~= old(self).model().updated(message).1);
        m
    }

    pub fn new_props(&mut self)
        ensures
            final(self).model() == old(self).model().refreshed(),
    {
        self.state.selected = self.selected;
        self.dirty = true;
    }

    pub fn props_hash(&self, hasher: &mut ComponentHasher) -> (declared: bool)
        ensures
            declared && self.model().props_digest(old(hasher).state) == Some(final(hasher).state),
    {
        hasher.write_u64(self.selected as u64);
        true
    }

    pub fn render_hash(&self, hasher: &mut ComponentHasher) -> (declared: bool)
        ensures
            declared && self.model().render_digest(old(hasher).state) == Some(final(hasher).state),
    {
        hasher.write_u64(self.state.selected as u64);
        true
    }
}

/// Which buttons each run holds.  After the first `n` buttons have been
/// placed, button `n - 1` is the last one of the run in the making, which
/// is run `(n - 1) / limit` and holds the buttons from `run * limit` on,
/// in order; every run before it is full and holds `limit` buttons.
pub proof fn lemma_runs_hold_their_buttons(group: RadioButtonsModel, n: nat)
    requires
        1 <= n <= group.buttons.len(),
    ensures
        group.laid(n).run == (n - 1) / (group.limit() as int),
        group.laid(n).filled == (n - 1) % (group.limit() as int) + 1,
        group.laid(n).container == group.run_of(group.laid(n).run, group.laid(n).filled),
        group.laid(n).base == (NodeModel {
            children: Seq::new(group.laid(n).run, |k: int| group.run_of(k as nat, group.limit())),
            ..group.outer()
        }),
    decreases n,
{
    let l = group.limit();
    let after = group.laid(n);
    if n == 1 {
        assert(group.laid(0).filled == 0);
        assert(0int / (l as int) == 0 && 0int % (l as int) == 0) by (nonlinear_arith)
            requires
                l >= 1,
        ;
        assert(0 * l == 0) by (nonlinear_arith);
        assert(after.container.children =~= group.run_of(0, 1).children);
        assert(after.base.children =~= Seq::new(0, |k: int| group.run_of(k as nat, l)));
    } else {
        lemma_runs_hold_their_buttons(group, (n - 1) as nat);
        let before = group.laid((n - 1) as nat);
        let r = before.run;
        let f = before.filled;
        vstd::arithmetic::div_mod::lemma_fundamental_div_mod(n - 2, l as int);
        assert(n - 2 == r * l + (f - 1)) by (nonlinear_arith)
            requires
                n - 2 == l * ((n - 2) / (l as int)) + ((n - 2) % (l as int)),
                r == (n - 2) / (l as int),
                f == (n - 2) % (l as int) + 1,
        ;
        if f >= l {
            assert(n - 1 == (r + 1) * l + 0) by (nonlinear_arith)
                requires
                    n - 2 == r * l + (f - 1),
                    f == l,
            ;
            vstd::arithmetic::div_mod::lemma_fundamental_div_mod_converse(
                n - 1,
                l as int,
                (r + 1) as int,
                0,
            );
            assert(after.container.children =~= group.run_of(r + 1, 1).children);
            assert(after.base.children =~= Seq::new(
                (r + 1) as nat,
                |k: int| group.run_of(k as nat, l),
            ));
        } else {
            vstd::arithmetic::div_mod::lemma_fundamental_div_mod_converse(
                n - 1,
                l as int,
                r as int,
                f as int,
            );
            assert(after.container.children =~= group.run_of(r, f + 1).children);
        }
    }
}

/// The runs of a group: the group projects itself into as many runs as
/// its buttons need, every run but the last one full, and the last one
/// with the buttons that are left.
pub proof fn lemma_group_is_its_runs(group: RadioButtonsModel)
    requires
        group.buttons.len() >= 1,
    ensures
        group.viewed().children.len() == runs(group.buttons.len(), group.limit()),
        forall|k: int|
            0 <= k < runs(group.buttons.len(), group.limit()) - 1 ==> group.viewed().children[k]
                == group.run_of(k as nat, group.limit()),
        group.viewed().children.last() == group.run_of(
            (runs(group.buttons.len(), group.limit()) - 1) as nat,
            ((group.buttons.len() - 1) % (group.limit() as int) + 1) as nat,
        ),
{
    lemma_runs_hold_their_buttons(group, group.buttons.len());
}

/// A click on a radio button stays with the button.  Wherever in a tree
/// the button stands, delivering a click or a double click to it runs its
/// handler and no other, stops there, and brings about the one message
/// that names the button; the node at the top of the tree, whichever
/// ancestor of the button that is, keeps its component.
pub proof fn lemma_radio_click_stays(node: NodeModel<Widget>, path: Seq<usize>, event: Event)
    requires
        node.at(path) is Some,
        node.at(path)->Some_0.component is RadioButton,
        event.kind is Click || event.kind is DoubleClick,
    ensures
        node.dispatched(path, event).1.handlers == 1,
        node.dispatched(path, event).1.stopped,
        node.dispatched(path, event).1.messages == seq![
            Message {
                tag: RADIO_CLICKED,
                value: node.at(path)->Some_0.component->RadioButton_0.position as i64,
            },
        ],
        path.len() > 0 ==> node.dispatched(path, event).0.component == node.component,
    decreases path.len(),
{
    if path.len() == 0 {
        let button = node.component->RadioButton_0;
        assert(node.dispatched(path, event).1.messages =~= seq![
            Message { tag: RADIO_CLICKED, value: button.position as i64 },
        ]);
    } else {
        lemma_radio_click_stays(node.children[path[0] as int], path.skip(1), event);
    }
}

} // verus!
