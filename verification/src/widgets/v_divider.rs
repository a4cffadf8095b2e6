//! A vertical rule.
use vstd::prelude::*;
use crate::component::{mixed, ComponentHasher};
use crate::layout::{Alignment, Dimension, Direction, Layout, Size};
use crate::node::{Node, NodeModel};
use crate::render::{to_word, word};
use crate::renderables::types::Corners;
use crate::types::Color;
use crate::widgets::div::Div;
use crate::widgets::{Widget, WidgetModel};

verus! {

#[derive(Clone, Copy, Debug, PartialEq, Eq, Structural)]
pub struct VDivider {
    pub size: i64,
    pub color: Color,
}

impl VDivider {
    /// What decides the subtree: the thickness.
    pub open spec fn props_digest(self, seed: u64) -> Option<u64> {
        Some(mixed(seed, word(self.size)))
    }

    pub fn props_hash(&self, hasher: &mut ComponentHasher) -> (declared: bool)
        ensures
            declared && self.props_digest(old(hasher).state) == Some(final(hasher).state),
    {
        hasher.write_u64(to_word(self.size));
        true
    }

    /// What the rule projects itself into: a bordered column as high as its
    /// parent, holding a box one unit wide.
    pub open spec fn viewed(self) -> NodeModel<Widget> {
        NodeModel::<Widget>::leaf(
            WidgetModel::Div(
                Div {
                    border_color: self.color,
                    border_width: self.size,
                    radius: Corners::zero(),
                    ..Div::plain()
                },
            ),
            Layout {
                direction: Direction::Column,
                size: Size { width: Dimension::Auto, height: Dimension::Pct(100) },
                axis_alignment: Alignment::Stretch,
                ..Layout::initial()
            },
        ).pushed(
            NodeModel::<Widget>::leaf(
                WidgetModel::Div(Div::plain()),
                Layout {
                    size: Size { width: Dimension::Px(1), height: Dimension::Auto },
                    ..Layout::initial()
                },
            ),
        )
    }

    pub fn view(&self) -> (r: Option<Node<Widget>>)
        ensures
            r matches Some(n) && n@ == self.viewed(),
    {
        Some(
            Node::new(
                Widget::Div(Div::new().border(self.color, self.size, Corners::none())),
                Layout::new().direction(Direction::Column).size(
                    Size::new(Dimension::Auto, Dimension::Pct(100)),
                ).axis_alignment(Alignment::Stretch),
            ).push(
                Node::new(
                    Widget::Div(Div::new()),
                    Layout::new().size(Size::new(Dimension::Px(1), Dimension::Auto)),
                ),
            ),
        )
    }
}

} // verus!
