//! A filled rectangle with optional borders and clipping.
use vstd::prelude::*;
use crate::types::{coord, extent, to_coord, to_extent, Color, Point, Pos, Scale};
use crate::renderables::types::{Borders, CanvasOp, CompositeOperation, Corners, Paint};

verus! {

/// One colour of a gradient and where it sits, in thousandths of the way.
#[derive(Clone, Copy, Debug, PartialEq, Eq, Structural)]
pub struct GradientStop {
    pub at: i64,
    pub color: Color,
}

/// A colour gradient.
#[derive(Clone, Debug)]
pub enum Gradient {
    Linear { start: Point, end: Point, stops: Vec<GradientStop> },
    Radial { center: Point, inner: i64, outer: i64, stops: Vec<GradientStop> },
}

/// The mathematical value of a gradient.
pub enum GradientModel {
    Linear { start: Point, end: Point, stops: Seq<GradientStop> },
    Radial { center: Point, inner: i64, outer: i64, stops: Seq<GradientStop> },
}

impl View for Gradient {
    type V = GradientModel;

    open spec fn view(&self) -> GradientModel {
        match self {
            Gradient::Linear { start, end, stops } => GradientModel::Linear {
                start: *start,
                end: *end,
                stops: stops@,
            },
            Gradient::Radial { center, inner, outer, stops } => GradientModel::Radial {
                center: *center,
                inner: *inner,
                outer: *outer,
                stops: stops@,
            },
        }
    }
}

/// The mathematical value of an `Instance`.
pub struct InstanceModel {
    pub pos: Pos,
    pub scale: Scale,
    pub color: Color,
    pub radius: Corners,
    pub border_color: Color,
    pub border_size: Borders,
    pub bg_image: Option<u64>,
    pub gradient: Option<GradientModel>,
    pub composite_operation: CompositeOperation,
    pub scissor: Option<bool>,
}

impl View for Instance {
    type V = InstanceModel;

    open spec fn view(&self) -> InstanceModel {
        InstanceModel {
            pos: self.pos,
            scale: self.scale,
            color: self.color,
            radius: self.radius,
            border_color: self.border_color,
            border_size: self.border_size,
            bg_image: self.bg_image,
            gradient: match self.gradient {
                Some(g) => Some(g@),
                None => None,
            },
            composite_operation: self.composite_operation,
            scissor: self.scissor,
        }
    }
}

#[derive(Clone, Debug)]
pub struct Instance {
    pub pos: Pos,
    pub scale: Scale,
    pub color: Color,
    pub radius: Corners,
    pub border_color: Color,
    pub border_size: Borders,
    pub bg_image: Option<u64>,
    pub gradient: Option<Gradient>,
    pub composite_operation: CompositeOperation,
    pub scissor: Option<bool>,
}

impl Instance {
    pub open spec fn plain(pos: Pos, scale: Scale, color: Color) -> Instance {
        Instance {
            pos,
            scale,
            color,
            radius: Corners::zero(),
            border_color: Color::transparent(),
            border_size: Borders::zero(),
            bg_image: None,
            gradient: None,
            composite_operation: CompositeOperation::SourceOver,
            scissor: None,
        }
    }

    /// An instance with nothing but place, size and colour.
    pub fn new(pos: Pos, scale: Scale, color: Color) -> (i: Instance)
        ensures
            i == Instance::plain(pos, scale, color),
    {
        Instance {
            pos,
            scale,
            color,
            radius: Corners::none(),
            border_color: Color::clear(),
            border_size: Borders::none(),
            bg_image: None,
            gradient: None,
            composite_operation: CompositeOperation::SourceOver,
            scissor: None,
        }
    }

    pub open spec fn fill(self) -> CanvasOp {
        CanvasOp::FillRoundedRect {
            x: self.pos.x,
            y: self.pos.y,
            width: self.scale.width,
            height: self.scale.height,
            radius: self.radius,
            paint: match self.bg_image {
                Some(id) => Paint::Image(id),
                None => Paint::Color(self.color),
            },
        }
    }

    /// The right edge: the left edge plus the width, each brought into range.
    pub open spec fn right(self) -> i64 {
        (coord(self.pos.x as int) + extent(self.scale.width as int)) as i64
    }

    /// The bottom edge: the top edge plus the height, each brought into range.
    pub open spec fn bottom(self) -> i64 {
        (coord(self.pos.y as int) + extent(self.scale.height as int)) as i64
    }

    pub open spec fn border(self, from: Point, to: Point, width: i64) -> Seq<CanvasOp> {
        if width > 0 {
            seq![CanvasOp::StrokeLine { from, to, color: self.border_color, width }]
        } else {
            Seq::empty()
        }
    }

    pub open spec fn clip(self) -> Seq<CanvasOp> {
        match self.scissor {
            Some(true) => seq![
                CanvasOp::Scissor {
                    x: self.pos.x,
                    y: self.pos.y,
                    width: self.scale.width,
                    height: self.scale.height,
                },
            ],
            Some(false) => seq![CanvasOp::ResetScissor],
            None => Seq::empty(),
        }
    }

    /// The instructions that draw the rectangle: the blend mode, the fill,
    /// one line for each border of positive width (top, left, bottom,
    /// right), the blend mode put back, and the clipping change if any.
    pub open spec fn ops(self) -> Seq<CanvasOp> {
        let tl = Point { x: self.pos.x, y: self.pos.y };
        let tr = Point { x: self.right(), y: self.pos.y };
        let bl = Point { x: self.pos.x, y: self.bottom() };
        let br = Point { x: self.right(), y: self.bottom() };
        seq![CanvasOp::SetCompositeOperation(self.composite_operation), self.fill()]
            + self.border(tl, tr, self.border_size.top) + self.border(
            tl,
            bl,
            self.border_size.left,
        ) + self.border(bl, br, self.border_size.bottom) + self.border(
            tr,
            br,
            self.border_size.right,
        ) + seq![CanvasOp::SetCompositeOperation(CompositeOperation::SourceOver)] + self.clip()
    }

    fn push_border(&self, out: &mut Vec<CanvasOp>, from: Point, to: Point, width: i64)
        ensures
            final(out)@ == old(out)@ + self.border(from, to, width),
    {
        if width > 0 {
            out.push(CanvasOp::StrokeLine { from, to, color: self.border_color, width });
            assert(out@ =~= old(out)@ + self.border(from, to, width));
        } else {
            assert(out@ =~= old(out)@ + self.border(from, to, width));
        }
    }

    fn push_clip(&self, out: &mut Vec<CanvasOp>)
        ensures
            final(out)@ == old(out)@ + self.clip(),
    {
        match self.scissor {
            Some(true) => {
                out.push(
                    CanvasOp::Scissor {
                        x: self.pos.x,
                        y: self.pos.y,
                        width: self.scale.width,
                        height: self.scale.height,
                    },
                );
            },
            Some(false) => {
                out.push(CanvasOp::ResetScissor);
            },
            None => {},
        }
        assert(out@ =~= old(out)@ + self.clip());
    }
}

#[derive(Clone, Debug)]
pub struct Rect {
    pub instance_data: Instance,
}

impl Rect {
    pub fn new(pos: Pos, scale: Scale, color: Color) -> (r: Rect)
        ensures
            r.instance_data == Instance::plain(pos, scale, color),
    {
        Rect { instance_data: Instance::new(pos, scale, color) }
    }

    pub fn from_instance_data(instance_data: Instance) -> (r: Rect)
        ensures
            r.instance_data == instance_data,
    {
        Rect { instance_data }
    }

    /// The instructions that draw this rectangle, in order.
    pub fn render(&self) -> (out: Vec<CanvasOp>)
        ensures
            out@ == self.instance_data.ops(),
    {
        let d = &self.instance_data;
        let mut out: Vec<CanvasOp> = Vec::new();
        out.push(CanvasOp::SetCompositeOperation(d.composite_operation));
        let paint = match d.bg_image {
            Some(id) => Paint::Image(id),
            None => Paint::Color(d.color),
        };
        out.push(
            CanvasOp::FillRoundedRect {
                x: d.pos.x,
                y: d.pos.y,
                width: d.scale.width,
                height: d.scale.height,
                radius: d.radius,
                paint,
            },
        );
        assert(out@ =~= seq![CanvasOp::SetCompositeOperation(d.composite_operation), d.fill()]);
        let right = to_coord(d.pos.x) + to_extent(d.scale.width);
        let bottom = to_coord(d.pos.y) + to_extent(d.scale.height);
        let tl = Point { x: d.pos.x, y: d.pos.y };
        let tr = Point { x: right, y: d.pos.y };
        let bl = Point { x: d.pos.x, y: bottom };
        let br = Point { x: right, y: bottom };
        d.push_border(&mut out, tl, tr, d.border_size.top);
        d.push_border(&mut out, tl, bl, d.border_size.left);
        d.push_border(&mut out, bl, br, d.border_size.bottom);
        d.push_border(&mut out, tr, br, d.border_size.right);
        let ghost before = out@;
        out.push(CanvasOp::SetCompositeOperation(CompositeOperation::SourceOver));
        assert(out@ =~= before + seq![
            CanvasOp::SetCompositeOperation(CompositeOperation::SourceOver),
        ]);
        d.push_clip(&mut out);
        out
    }
}

} // verus!
