//! Strokes: a straight line, a curve through a control point, and a radial gradient.
use vstd::prelude::*;
use crate::types::{Color, Point, Pos, Scale};

verus! {

#[derive(Clone, Copy, Debug, PartialEq, Eq, Structural)]
pub struct Line {
    pub from: Pos,
    pub to: Pos,
    pub color: Color,
    pub width: i64,
}

#[derive(Clone, Copy, Debug, PartialEq, Eq, Structural)]
pub struct Curve {
    pub from: Pos,
    pub control: Point,
    pub to: Pos,
    pub color: Color,
    pub width: i64,
}

#[derive(Clone, Copy, Debug, PartialEq, Eq, Structural)]
pub struct RadialGradient {
    pub pos: Pos,
    pub scale: Scale,
    pub inner: i64,
    pub outer: i64,
    pub from: Color,
    pub to: Color,
}

} // verus!
