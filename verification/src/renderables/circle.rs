//! A circle, filled, outlined or both.
use vstd::prelude::*;
use crate::types::{Color, Pos};
use crate::renderables::types::CanvasOp;

verus! {

#[derive(Clone, Copy, Debug, PartialEq, Eq, Structural)]
pub struct Instance {
    pub origin: Pos,
    pub radius: i64,
    pub color: Option<Color>,
    pub border_color: Option<Color>,
    pub border_width: i64,
    pub bg_image: Option<u64>,
}

impl Instance {
    pub open spec fn plain(origin: Pos, radius: i64) -> Instance {
        Instance {
            origin,
            radius,
            color: None,
            border_color: None,
            border_width: 1,
            bg_image: None,
        }
    }

    /// A fill if a colour is set, then an outline if a border colour is set.
    pub open spec fn ops(self) -> Seq<CanvasOp> {
        let fill = match self.color {
            Some(color) => seq![
                CanvasOp::FillCircle { x: self.origin.x, y: self.origin.y, radius: self.radius, color },
            ],
            None => Seq::empty(),
        };
        let stroke = match self.border_color {
            Some(color) => seq![
                CanvasOp::StrokeCircle {
                    x: self.origin.x,
                    y: self.origin.y,
                    radius: self.radius,
                    color,
                    width: self.border_width,
                },
            ],
            None => Seq::empty(),
        };
        fill + stroke
    }
}

#[derive(Clone, Copy, Debug, PartialEq, Eq, Structural)]
pub struct Circle {
    pub instance_data: Instance,
}

impl Circle {
    pub fn new(origin: Pos, radius: i64) -> (c: Circle)
        ensures
            c.instance_data == Instance::plain(origin, radius),
    {
        Circle {
            instance_data: Instance {
                origin,
                radius,
                color: None,
                bg_image: None,
                border_color: None,
                border_width: 1,
            },
        }
    }

    pub fn from_instance_data(instance_data: Instance) -> (c: Circle)
        ensures
            c.instance_data == instance_data,
    {
        Circle { instance_data }
    }

    /// The instructions that draw this circle, in order.
    pub fn render(&self) -> (out: Vec<CanvasOp>)
        ensures
            out@ == self.instance_data.ops(),
    {
        let d = self.instance_data;
        let mut out: Vec<CanvasOp> = Vec::new();
        if let Some(color) = d.color {
            out.push(CanvasOp::FillCircle { x: d.origin.x, y: d.origin.y, radius: d.radius, color });
        }
        if let Some(color) = d.border_color {
            out.push(
                CanvasOp::StrokeCircle {
                    x: d.origin.x,
                    y: d.origin.y,
                    radius: d.radius,
                    color,
                    width: d.border_width,
                },
            );
        }
        assert(out@ =~= d.ops());
        out
    }
}

} // verus!
