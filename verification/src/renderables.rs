//! Drawing instructions with resolved geometry, as handed to the rasterizer.
use vstd::prelude::*;

pub mod circle;
pub mod image;
pub mod line;
pub mod raw_image;
pub mod rect;
pub mod svg;
pub mod text;
pub mod types;

pub use circle::Circle;
pub use image::Image;
pub use line::Curve;
pub use line::Line;
pub use line::RadialGradient;
pub use raw_image::RawImage;
pub use rect::Rect;
pub use svg::Svg;
pub use text::Text;

verus! {

/// One drawing instruction of a node.
#[derive(Clone, Debug)]
pub enum Renderable {
    Rect(Rect),
    Line(Line),
    Circle(Circle),
    Image(Image),
    RawImage(RawImage),
    Text(Text),
    Svg(Svg),
    RadialGradient(RadialGradient),
    Curve(Curve),
}

/// The mathematical value of a `Renderable`.
pub enum RenderableModel {
    Rect(rect::InstanceModel),
    Line(Line),
    Circle(Circle),
    Image(image::InstanceModel),
    RawImage(raw_image::InstanceModel),
    Text(text::InstanceModel),
    Svg(svg::InstanceModel),
    RadialGradient(RadialGradient),
    Curve(Curve),
}

impl View for Renderable {
    type V = RenderableModel;

    open spec fn view(&self) -> RenderableModel {
        match self {
            Renderable::Rect(r) => RenderableModel::Rect(r.instance_data@),
            Renderable::Line(l) => RenderableModel::Line(*l),
            Renderable::Circle(c) => RenderableModel::Circle(*c),
            Renderable::Image(i) => RenderableModel::Image(i.instance_data@),
            Renderable::RawImage(r) => RenderableModel::RawImage(r.instance_data@),
            Renderable::Text(t) => RenderableModel::Text(t.instance_data@),
            Renderable::Svg(s) => RenderableModel::Svg(s.instance_data@),
            Renderable::RadialGradient(g) => RenderableModel::RadialGradient(*g),
            Renderable::Curve(c) => RenderableModel::Curve(*c),
        }
    }
}

/// The values of the elements of `list`, in order.
pub open spec fn renderable_models(list: Seq<Renderable>) -> Seq<RenderableModel> {
    Seq::new(list.len(), |i: int| list[i]@)
}

} // verus!
