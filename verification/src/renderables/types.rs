//! The vocabulary in which a renderable tells the rasterizer what to draw.
use vstd::prelude::*;
use crate::types::{Color, Point};

verus! {

/// How new pixels are combined with those already drawn.
#[derive(Clone, Copy, Debug, PartialEq, Eq, Structural)]
pub enum CompositeOperation {
    SourceOver,
    SourceIn,
    SourceOut,
    Atop,
    DestinationOver,
    DestinationIn,
    DestinationOut,
    DestinationAtop,
    Lighter,
    Copy,
    Xor,
}

/// What a shape is filled with.
#[derive(Clone, Copy, Debug, PartialEq, Eq, Structural)]
pub enum Paint {
    Color(Color),
    /// An image that the rasterizer already holds, by its handle.
    Image(u64),
    /// The image made by the latest `CreateImage` instruction.
    Created,
}

/// The four corner radii of a rectangle: top-left, top-right, bottom-right, bottom-left.
#[derive(Clone, Copy, Debug, PartialEq, Eq, Structural)]
pub struct Corners {
    pub top_left: i64,
    pub top_right: i64,
    pub bottom_right: i64,
    pub bottom_left: i64,
}

impl Corners {
    pub open spec fn zero() -> Corners {
        Corners { top_left: 0, top_right: 0, bottom_right: 0, bottom_left: 0 }
    }

    pub fn none() -> (c: Corners)
        ensures
            c == Corners::zero(),
    {
        Corners { top_left: 0, top_right: 0, bottom_right: 0, bottom_left: 0 }
    }

    pub fn all(r: i64) -> (c: Corners)
        ensures
            c == (Corners { top_left: r, top_right: r, bottom_right: r, bottom_left: r }),
    {
        Corners { top_left: r, top_right: r, bottom_right: r, bottom_left: r }
    }
}

/// The widths of the four borders of a rectangle: top, left, bottom, right.
#[derive(Clone, Copy, Debug, PartialEq, Eq, Structural)]
pub struct Borders {
    pub top: i64,
    pub left: i64,
    pub bottom: i64,
    pub right: i64,
}

impl Borders {
    pub open spec fn zero() -> Borders {
        Borders { top: 0, left: 0, bottom: 0, right: 0 }
    }

    pub fn none() -> (b: Borders)
        ensures
            b == Borders::zero(),
    {
        Borders { top: 0, left: 0, bottom: 0, right: 0 }
    }

    pub fn all(w: i64) -> (b: Borders)
        ensures
            b == (Borders { top: w, left: w, bottom: w, right: w }),
    {
        Borders { top: w, left: w, bottom: w, right: w }
    }
}

/// One instruction for the rasterizer.
#[allow(inconsistent_fields)]
#[derive(Clone, Copy, Debug, PartialEq, Eq, Structural)]
pub enum CanvasOp {
    SetCompositeOperation(CompositeOperation),
    FillRoundedRect { x: i64, y: i64, width: i64, height: i64, radius: Corners, paint: Paint },
    StrokeLine { from: Point, to: Point, color: Color, width: i64 },
    FillCircle { x: i64, y: i64, radius: i64, color: Color },
    StrokeCircle { x: i64, y: i64, radius: i64, color: Color, width: i64 },
    /// Uploads the pixel buffer of the renderable as an image of the given size.
    CreateImage { width: usize, height: usize },
    Scissor { x: i64, y: i64, width: i64, height: i64 },
    ResetScissor,
}

} // verus!
