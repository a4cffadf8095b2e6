//! The built-in components.
use vstd::prelude::*;
use crate::component::{BoxContext, Component, ComponentHasher, RenderContext};
use crate::event::{Event, Message, Reaction, ReactionModel};
use crate::layout::ScrollPosition;
use crate::node::{Modeled, Node, NodeModel};
use crate::renderables::{renderable_models, Renderable, RenderableModel};
use crate::types::{Scale, AABB};

pub mod button;
pub mod div;
pub mod grid;
pub mod h_divider;
pub mod icon_button;
pub mod image;
pub mod radio_buttons;
pub mod scrollable;
pub mod slide_bar;
pub mod svg;
pub mod toggle;
pub mod v_divider;

pub use button::Button;
pub use div::Div;
pub use div::RoundedRect;
pub use div::Text;
pub use div::TextModel;
pub use h_divider::HDivider;
pub use icon_button::IconButton;
pub use icon_button::IconType;
pub use image::Image;
pub use radio_buttons::RadioButton;
pub use radio_buttons::RadioButtons;
pub use radio_buttons::RadioButtonsModel;
pub use radio_buttons::RadioButtonsType;
pub use scrollable::Scrollable;
pub use scrollable::ScrollableState;
pub use slide_bar::SlideBar;
pub use slide_bar::SlideBarModel;
pub use slide_bar::SlideBarState;
pub use slide_bar::SlideBarType;
pub use svg::Svg;
pub use toggle::Toggle;
pub use toggle::ToggleType;
pub use v_divider::VDivider;

verus! {

/// One of the built-in components.
#[derive(Debug)]
pub enum Widget {
    Div(Div),
    RoundedRect(RoundedRect),
    Text(Text),
    Button(Button),
    IconButton(IconButton),
    Image(Image),
    Svg(Svg),
    HDivider(HDivider),
    VDivider(VDivider),
    Toggle(Toggle),
    RadioButtons(RadioButtons),
    RadioButton(RadioButton),
    Scrollable(Scrollable),
    SlideBar(SlideBar),
}

/// The mathematical value of a built-in component.
pub enum WidgetModel {
    Div(Div),
    RoundedRect(RoundedRect),
    Text(TextModel),
    Button(Button),
    IconButton(IconButton),
    Image(Image),
    Svg(Svg),
    HDivider(HDivider),
    VDivider(VDivider),
    Toggle(Toggle),
    RadioButtons(RadioButtonsModel),
    RadioButton(RadioButton),
    Scrollable(Scrollable),
    SlideBar(SlideBarModel),
}

impl Modeled for Widget {
    type Model = WidgetModel;

    open spec fn model(&self) -> WidgetModel {
        match self {
            Widget::Div(w) => WidgetModel::Div(*w),
            Widget::RoundedRect(w) => WidgetModel::RoundedRect(*w),
            Widget::Text(w) => WidgetModel::Text(w@),
            Widget::Button(w) => WidgetModel::Button(*w),
            Widget::IconButton(w) => WidgetModel::IconButton(*w),
            Widget::Image(w) => WidgetModel::Image(*w),
            Widget::Svg(w) => WidgetModel::Svg(*w),
            Widget::HDivider(w) => WidgetModel::HDivider(*w),
            Widget::VDivider(w) => WidgetModel::VDivider(*w),
            Widget::Toggle(w) => WidgetModel::Toggle(*w),
            Widget::RadioButtons(w) => WidgetModel::RadioButtons(w.model()),
            Widget::RadioButton(w) => WidgetModel::RadioButton(*w),
            Widget::Scrollable(w) => WidgetModel::Scrollable(*w),
            Widget::SlideBar(w) => WidgetModel::SlideBar(w.model()),
        }
    }
}

impl WidgetModel {
    /// Whether both are components of the same kind.
    pub open spec fn same_kind(self, other: WidgetModel) -> bool {
        match (self, other) {
            (WidgetModel::Div(_), WidgetModel::Div(_)) => true,
            (WidgetModel::RoundedRect(_), WidgetModel::RoundedRect(_)) => true,
            (WidgetModel::Text(_), WidgetModel::Text(_)) => true,
            (WidgetModel::Button(_), WidgetModel::Button(_)) => true,
            (WidgetModel::IconButton(_), WidgetModel::IconButton(_)) => true,
            (WidgetModel::Image(_), WidgetModel::Image(_)) => true,
            (WidgetModel::Svg(_), WidgetModel::Svg(_)) => true,
            (WidgetModel::HDivider(_), WidgetModel::HDivider(_)) => true,
            (WidgetModel::VDivider(_), WidgetModel::VDivider(_)) => true,
            (WidgetModel::Toggle(_), WidgetModel::Toggle(_)) => true,
            (WidgetModel::RadioButtons(_), WidgetModel::RadioButtons(_)) => true,
            (WidgetModel::RadioButton(_), WidgetModel::RadioButton(_)) => true,
            (WidgetModel::Scrollable(_), WidgetModel::Scrollable(_)) => true,
            (WidgetModel::SlideBar(_), WidgetModel::SlideBar(_)) => true,
            _ => false,
        }
    }
}

impl Component for Widget {
    /// A component can take over the state of a component of its own kind.
    open spec fn compatible(this: WidgetModel, previous: WidgetModel) -> bool {
        this.same_kind(previous)
    }

    /// Only a slide bar has state to set up; every other component is
    /// made with its default state.
    open spec fn initialized(this: WidgetModel) -> WidgetModel {
        match this {
            WidgetModel::SlideBar(w) => WidgetModel::SlideBar(w.initialized()),
            w => w,
        }
    }

    /// The properties of `this` with the state of `previous`.
    open spec fn adopted(this: WidgetModel, previous: WidgetModel) -> WidgetModel {
        match (this, previous) {
            (WidgetModel::Button(a), WidgetModel::Button(b)) => WidgetModel::Button(
                Button { state: b.state, ..a },
            ),
            (WidgetModel::IconButton(a), WidgetModel::IconButton(b)) => WidgetModel::IconButton(
                IconButton { state: b.state, ..a },
            ),
            (WidgetModel::Toggle(a), WidgetModel::Toggle(b)) => WidgetModel::Toggle(
                Toggle { state: b.state, ..a },
            ),
            (WidgetModel::RadioButtons(a), WidgetModel::RadioButtons(b)) => WidgetModel::RadioButtons(
                RadioButtonsModel { state: b.state, ..a },
            ),
            (WidgetModel::Scrollable(a), WidgetModel::Scrollable(b)) => WidgetModel::Scrollable(
                Scrollable { state: b.state, ..a },
            ),
            (WidgetModel::SlideBar(a), WidgetModel::SlideBar(b)) => WidgetModel::SlideBar(
                SlideBarModel { state: b.state, ..a },
            ),
            (a, _) => a,
        }
    }

    /// Two components hold the same state when they are of the same kind
    /// and their states are equal; a kind without state always does.
    open spec fn same_state(this: WidgetModel, other: WidgetModel) -> bool {
        match (this, other) {
            (WidgetModel::Button(a), WidgetModel::Button(b)) => a.state == b.state,
            (WidgetModel::IconButton(a), WidgetModel::IconButton(b)) => a.state == b.state,
            (WidgetModel::Toggle(a), WidgetModel::Toggle(b)) => a.state == b.state,
            (WidgetModel::RadioButtons(a), WidgetModel::RadioButtons(b)) => a.state == b.state,
            (WidgetModel::Scrollable(a), WidgetModel::Scrollable(b)) => a.state == b.state,
            (WidgetModel::SlideBar(a), WidgetModel::SlideBar(b)) => a.state == b.state,
            (a, b) => a.same_kind(b),
        }
    }

    proof fn lemma_adopted_keeps_state(this: WidgetModel, previous: WidgetModel) {
    }

    open spec fn refreshed(this: WidgetModel) -> WidgetModel {
        match this {
            WidgetModel::Toggle(w) => WidgetModel::Toggle(w.refreshed()),
            WidgetModel::RadioButtons(w) => WidgetModel::RadioButtons(w.refreshed()),
            WidgetModel::SlideBar(w) => WidgetModel::SlideBar(w.refreshed()),
            w => w,
        }
    }

    /// Only a slide bar leaves anything to chance: the cells that it
    /// lights at random.
    open spec fn randomized(before: WidgetModel, after: WidgetModel) -> bool {
        match before {
            WidgetModel::SlideBar(w) => after matches WidgetModel::SlideBar(a) && w.randomized(a),
            _ => after == before,
        }
    }

    proof fn lemma_undeclared_keeps_state(this: WidgetModel, previous: WidgetModel) {
    }

    open spec fn props_digest(this: WidgetModel, seed: u64) -> Option<u64> {
        match this {
            WidgetModel::HDivider(w) => w.props_digest(seed),
            WidgetModel::VDivider(w) => w.props_digest(seed),
            WidgetModel::Toggle(w) => w.props_digest(seed),
            WidgetModel::RadioButtons(w) => w.props_digest(seed),
            WidgetModel::RadioButton(w) => w.props_digest(seed),
            WidgetModel::SlideBar(w) => w.props_digest(seed),
            _ => None,
        }
    }

    /// A scrolling container declares that nothing of its own decides its
    /// pixels; the plain boxes, text and buttons declare nothing at all.
    open spec fn render_digest(this: WidgetModel, seed: u64) -> Option<u64> {
        match this {
            WidgetModel::Image(w) => w.render_digest(seed),
            WidgetModel::Svg(w) => w.render_digest(seed),
            WidgetModel::Toggle(w) => w.render_digest(seed),
            WidgetModel::RadioButtons(w) => w.render_digest(seed),
            WidgetModel::Scrollable(_) => Some(seed),
            WidgetModel::SlideBar(w) => w.render_digest(seed),
            _ => None,
        }
    }

    open spec fn viewed(this: WidgetModel) -> Option<NodeModel<Widget>> {
        match this {
            WidgetModel::Button(w) => Some(w.viewed()),
            WidgetModel::IconButton(w) => Some(w.viewed()),
            WidgetModel::HDivider(w) => Some(w.viewed()),
            WidgetModel::VDivider(w) => Some(w.viewed()),
            WidgetModel::Toggle(w) => Some(w.viewed()),
            WidgetModel::RadioButtons(w) => Some(w.viewed()),
            WidgetModel::RadioButton(w) => Some(w.viewed()),
            WidgetModel::Scrollable(w) => Some(w.viewed()),
            WidgetModel::SlideBar(w) => Some(w.viewed()),
            _ => None,
        }
    }

    /// Only text has a size of its own.
    open spec fn natural(this: WidgetModel) -> Scale {
        match this {
            WidgetModel::Text(w) => w.natural(),
            _ => Scale { width: 0, height: 0 },
        }
    }

    open spec fn controls(this: WidgetModel) -> bool {
        this is Scrollable || this is SlideBar
    }

    open spec fn boxed(this: WidgetModel, aabb: AABB, children: Seq<AABB>, context: BoxContext) -> (
        WidgetModel,
        AABB,
    ) {
        match this {
            WidgetModel::Scrollable(w) => (this, w.boxed(aabb)),
            WidgetModel::SlideBar(w) => (WidgetModel::SlideBar(w.boxed(aabb)), aabb),
            _ => (this, aabb),
        }
    }

    open spec fn contained(this: WidgetModel) -> Option<Seq<usize>> {
        match this {
            WidgetModel::Scrollable(_) => Some(Scrollable::contained()),
            _ => None,
        }
    }

    open spec fn scrolled(this: WidgetModel) -> Option<ScrollPosition> {
        match this {
            WidgetModel::Scrollable(w) => w.scrolled(),
            _ => None,
        }
    }

    open spec fn handled(this: WidgetModel, event: Event) -> (WidgetModel, ReactionModel) {
        match this {
            WidgetModel::Button(w) => (WidgetModel::Button(w.handled(event).0), w.handled(event).1),
            WidgetModel::IconButton(w) => (
                WidgetModel::IconButton(w.handled(event).0),
                w.handled(event).1,
            ),
            WidgetModel::Toggle(w) => (WidgetModel::Toggle(w.handled(event).0), w.handled(event).1),
            WidgetModel::RadioButton(w) => (
                WidgetModel::RadioButton(w.handled(event).0),
                w.handled(event).1,
            ),
            WidgetModel::Scrollable(w) => (
                WidgetModel::Scrollable(w.handled(event).0),
                w.handled(event).1,
            ),
            WidgetModel::SlideBar(w) => (
                WidgetModel::SlideBar(w.handled(event).0),
                w.handled(event).1,
            ),
            _ => (this, ReactionModel::ignored()),
        }
    }

    /// Only a group of radio buttons takes messages, and it is handed
    /// nothing but the report of a click by one of its buttons.
    open spec fn updated(this: WidgetModel, message: Message) -> (WidgetModel, Seq<Message>) {
        match this {
            WidgetModel::RadioButtons(w) => if RadioButtonsModel::reports_click(message) {
                (WidgetModel::RadioButtons(w.updated(message).0), w.updated(message).1)
            } else {
                (this, Seq::empty())
            },
            _ => (this, Seq::empty()),
        }
    }

    open spec fn rendered(this: WidgetModel, context: RenderContext) -> (
        WidgetModel,
        Option<Seq<RenderableModel>>,
    ) {
        (
            this,
            match this {
                WidgetModel::Div(w) => w.rendered(context),
                WidgetModel::RoundedRect(w) => w.rendered(context),
                WidgetModel::Text(w) => w.rendered(context),
                WidgetModel::Image(w) => w.rendered(context),
                WidgetModel::Svg(w) => w.rendered(context),
                WidgetModel::RadioButton(w) => w.rendered(context),
                _ => None,
            },
        )
    }

    fn init(&mut self) {
        match self {
            Widget::SlideBar(w) => {
                w.init();
            },
            _ => {},
        }
    }

    fn accepts(&self, previous: &Widget) -> (r: bool) {
        match (self, previous) {
            (Widget::Div(_), Widget::Div(_)) => true,
            (Widget::RoundedRect(_), Widget::RoundedRect(_)) => true,
            (Widget::Text(_), Widget::Text(_)) => true,
            (Widget::Button(_), Widget::Button(_)) => true,
            (Widget::IconButton(_), Widget::IconButton(_)) => true,
            (Widget::Image(_), Widget::Image(_)) => true,
            (Widget::Svg(_), Widget::Svg(_)) => true,
            (Widget::HDivider(_), Widget::HDivider(_)) => true,
            (Widget::VDivider(_), Widget::VDivider(_)) => true,
            (Widget::Toggle(_), Widget::Toggle(_)) => true,
            (Widget::RadioButtons(_), Widget::RadioButtons(_)) => true,
            (Widget::RadioButton(_), Widget::RadioButton(_)) => true,
            (Widget::Scrollable(_), Widget::Scrollable(_)) => true,
            (Widget::SlideBar(_), Widget::SlideBar(_)) => true,
            _ => false,
        }
    }

    fn adopt(&mut self, previous: Widget) {
        match (self, previous) {
            (Widget::Button(a), Widget::Button(b)) => {
                a.state = b.state;
            },
            (Widget::IconButton(a), Widget::IconButton(b)) => {
                a.state = b.state;
            },
            (Widget::Toggle(a), Widget::Toggle(b)) => {
                a.state = b.state;
            },
            (Widget::RadioButtons(a), Widget::RadioButtons(b)) => {
                a.state = b.state;
            },
            (Widget::Scrollable(a), Widget::Scrollable(b)) => {
                a.state = b.state;
            },
            (Widget::SlideBar(a), Widget::SlideBar(b)) => {
                a.state = b.state;
            },
            _ => {},
        }
    }

    fn new_props(&mut self) {
        match self {
            Widget::Toggle(w) => {
                w.new_props();
            },
            Widget::RadioButtons(w) => {
                w.new_props();
            },
            Widget::SlideBar(w) => {
                w.new_props();
            },
            _ => {},
        }
    }

    fn props_hash(&self, hasher: &mut ComponentHasher) -> (declared: bool) {
        match self {
            Widget::HDivider(w) => w.props_hash(hasher),
            Widget::VDivider(w) => w.props_hash(hasher),
            Widget::Toggle(w) => w.props_hash(hasher),
            Widget::RadioButtons(w) => w.props_hash(hasher),
            Widget::RadioButton(w) => w.props_hash(hasher),
            Widget::SlideBar(w) => w.props_hash(hasher),
            _ => false,
        }
    }

    fn render_hash(&self, hasher: &mut ComponentHasher) -> (declared: bool) {
        match self {
            Widget::Image(w) => w.render_hash(hasher),
            Widget::Svg(w) => w.render_hash(hasher),
            Widget::Toggle(w) => w.render_hash(hasher),
            Widget::RadioButtons(w) => w.render_hash(hasher),
            Widget::Scrollable(_) => true,
            Widget::SlideBar(w) => w.render_hash(hasher),
            _ => false,
        }
    }

    fn view(&self) -> (r: Option<Node<Widget>>) {
        match self {
            Widget::Button(w) => w.view(),
            Widget::IconButton(w) => w.view(),
            Widget::HDivider(w) => w.view(),
            Widget::VDivider(w) => w.view(),
            Widget::Toggle(w) => w.view(),
            Widget::RadioButtons(w) => w.view(),
            Widget::RadioButton(w) => w.view(),
            Widget::Scrollable(w) => w.view(),
            Widget::SlideBar(w) => w.view(),
            _ => None,
        }
    }

    fn natural_size(&self) -> (r: Scale) {
        match self {
            Widget::Text(w) => w.natural_size(),
            _ => Scale { width: 0, height: 0 },
        }
    }

    fn full_control(&self) -> (r: bool) {
        match self {
            Widget::Scrollable(w) => w.full_control(),
            Widget::SlideBar(w) => w.full_control(),
            _ => false,
        }
    }

    fn set_aabb(&mut self, aabb: &mut AABB, children: &Vec<AABB>, context: BoxContext) {
        match self {
            Widget::Scrollable(w) => {
                w.set_aabb(aabb, children, context);
            },
            Widget::SlideBar(w) => {
                w.set_aabb(aabb, children, context);
            },
            _ => {},
        }
    }

    fn container(&self) -> (r: Option<Vec<usize>>) {
        match self {
            Widget::Scrollable(w) => w.container(),
            _ => None,
        }
    }

    fn scroll_position(&self) -> (r: Option<ScrollPosition>) {
        match self {
            Widget::Scrollable(w) => w.scroll_position(),
            _ => None,
        }
    }

    fn on_event(&mut self, event: &Event) -> (r: Reaction) {
        match self {
            Widget::Button(w) => w.on_event(event),
            Widget::IconButton(w) => w.on_event(event),
            Widget::Toggle(w) => w.on_event(event),
            Widget::RadioButton(w) => w.on_event(event),
            Widget::Scrollable(w) => w.on_event(event),
            Widget::SlideBar(w) => w.on_event(event),
            _ => Reaction::new(),
        }
    }

    fn randomize(&mut self) {
        match self {
            Widget::SlideBar(w) => w.randomize(),
            _ => {},
        }
    }

    fn update(&mut self, message: Message) -> (r: Vec<Message>) {
        match self {
            Widget::RadioButtons(w) => {
                if RadioButtons::is_click_report(&message) {
                    w.update(message)
                } else {
                    Vec::new()
                }
            },
            _ => Vec::new(),
        }
    }

    fn render(&mut self, context: RenderContext) -> (r: Option<Vec<Renderable>>) {
        match self {
            Widget::Div(w) => w.render(context),
            Widget::RoundedRect(w) => w.render(context),
            Widget::Text(w) => w.render(context),
            Widget::Image(w) => w.render(context),
            Widget::Svg(w) => w.render(context),
            Widget::RadioButton(w) => w.render(context),
            _ => None,
        }
    }
}

/// Whether a slide bar of the subtree has cells waiting to be lit at random.
pub open spec fn awaits_chance(node: NodeModel<Widget>) -> bool
    decreases node,
{
    ||| (node.component matches WidgetModel::SlideBar(w) && w.state.pending_fill is Some)
    ||| exists|j: int| 0 <= j < node.children.len() && awaits_chance(#[trigger] node.children[j])
}

/// Chance touches nothing but the slide bars that wait for it: a tree in
/// which none does comes out as it went in.
pub proof fn lemma_chance_touches_only_what_waits(node: NodeModel<Widget>, after: NodeModel<Widget>)
    requires
        node.randomized(after),
        !awaits_chance(node),
    ensures
        after == node,
    decreases node,
{
    assert forall|j: int| 0 <= j < node.children.len() implies after.children[j]
        == node.children[j] by {
        assert(node.children[j].randomized(after.children[j]));
        assert(!awaits_chance(node.children[j]));
        lemma_chance_touches_only_what_waits(node.children[j], after.children[j]);
    }
    assert(after.children =~= node.children);
}

} // verus!
