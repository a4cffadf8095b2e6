//! Layout intent: what a node asks of the layout engine, and how a single
//! dimension is resolved against the size of the enclosing box.
use vstd::prelude::*;
use crate::types::{clamp, extent, offset, to_extent, to_offset, clamp_i64, MAX_EXTENT};

verus! {

/// The largest percentage that is honoured; larger ones are cut to it.
pub const MAX_PCT: i64 = 1_000_000;

/// One dimension of a size, an edge or an offset.
#[derive(Clone, Copy, Debug, PartialEq, Eq, Structural)]
pub enum Dimension {
    /// Driven by content (for a size) or left out (for an edge).
    Auto,
    /// A fixed number of layout units.
    Px(i64),
    /// A percentage of the enclosing box.
    Pct(i64),
}

impl Dimension {
    pub open spec fn is_auto(self) -> bool {
        self is Auto
    }

    /// The length this dimension stands for inside a box of length
    /// `reference`; `None` for `Auto`.  A fixed length ignores `reference`;
    /// a percentage is taken of `reference` and rounded down.
    pub open spec fn resolved(self, reference: int) -> Option<int> {
        match self {
            Dimension::Auto => None,
            Dimension::Px(v) => Some(extent(v as int)),
            Dimension::Pct(p) => Some(
                extent(extent(reference) * clamp(p as int, 0, MAX_PCT as int) / 100),
            ),
        }
    }

    /// The signed length of an edge (margin, padding or offset); an edge
    /// that is left out has length zero.
    pub open spec fn edge(self, reference: int) -> int {
        match self {
            Dimension::Auto => 0,
            Dimension::Px(v) => offset(v as int),
            Dimension::Pct(p) => offset(
                extent(reference) * clamp(p as int, -(MAX_PCT as int), MAX_PCT as int) / 100,
            ),
        }
    }

    pub fn auto(&self) -> (r: bool)
        ensures
            r == self.is_auto(),
    {
        match self {
            Dimension::Auto => true,
            _ => false,
        }
    }

    pub fn resolve(&self, reference: i64) -> (r: Option<i64>)
        ensures
            r.is_some() == self.resolved(reference as int).is_some(),
            r matches Some(v) ==> self.resolved(reference as int) == Some(v as int) && 0 <= v
                <= MAX_EXTENT,
    {
        match self {
            Dimension::Auto => None,
            Dimension::Px(v) => Some(to_extent(*v)),
            Dimension::Pct(p) => {
                let base = to_extent(reference);
                let pct = clamp_i64(*p, 0, MAX_PCT);
                assert(0 <= base * pct <= MAX_EXTENT * MAX_PCT) by (nonlinear_arith)
                    requires
                        0 <= base <= MAX_EXTENT,
                        0 <= pct <= MAX_PCT,
                ;
                Some(to_extent(base * pct / 100))
            },
        }
    }

    pub fn resolve_edge(&self, reference: i64) -> (r: i64)
        ensures
            r == self.edge(reference as int),
            -MAX_EXTENT <= r <= MAX_EXTENT,
    {
        match self {
            Dimension::Auto => 0,
            Dimension::Px(v) => to_offset(*v),
            Dimension::Pct(p) => {
                let base = to_extent(reference);
                let pct = clamp_i64(*p, -MAX_PCT, MAX_PCT);
                assert(-(MAX_EXTENT * MAX_PCT) <= base * pct <= MAX_EXTENT * MAX_PCT)
                    by (nonlinear_arith)
                    requires
                        0 <= base <= MAX_EXTENT,
                        -MAX_PCT <= pct <= MAX_PCT,
                ;
                let prod = base * pct;
                let q = if prod >= 0 {
                    prod / 100
                } else {
                    // rounds towards minus infinity, as the quotient of integers does
                    let m = -prod;
                    let up = (m + 99) / 100;
                    assert(prod as int / 100 == -(up as int)) by (nonlinear_arith)
                        requires
                            prod < 0,
                            m == -prod,
                            up == (m + 99) / 100,
                    ;
                    -up
                };
                to_offset(q)
            },
        }
    }
}

/// A percentage is that share of the length it is taken of, rounded down:
/// half of 400 is 200.
pub proof fn lemma_percentage_is_proportional(pct: i64, parent: int)
    requires
        0 <= pct <= MAX_PCT,
        0 <= parent <= MAX_EXTENT,
        parent * pct / 100 <= MAX_EXTENT,
    ensures
        Dimension::Pct(pct).resolved(parent) == Some(parent * pct / 100),
{
    assert(0 <= parent * pct) by (nonlinear_arith)
        requires
            0 <= pct,
            0 <= parent,
    ;
}

/// A requested width and height.
#[derive(Clone, Copy, Debug, PartialEq, Eq, Structural)]
pub struct Size {
    pub width: Dimension,
    pub height: Dimension,
}

impl Size {
    pub fn new(width: Dimension, height: Dimension) -> (r: Size)
        ensures
            r == (Size { width, height }),
    {
        Size { width, height }
    }

    pub open spec fn auto_size() -> Size {
        Size { width: Dimension::Auto, height: Dimension::Auto }
    }

    /// Both dimensions content-driven.
    pub fn auto() -> (r: Size)
        ensures
            r == Size::auto_size(),
    {
        Size { width: Dimension::Auto, height: Dimension::Auto }
    }

    /// Both dimensions fixed.
    pub fn px(width: i64, height: i64) -> (r: Size)
        ensures
            r == (Size { width: Dimension::Px(width), height: Dimension::Px(height) }),
    {
        Size { width: Dimension::Px(width), height: Dimension::Px(height) }
    }

    /// Both dimensions a percentage of the parent.
    pub fn pct(width: i64, height: i64) -> (r: Size)
        ensures
            r == (Size { width: Dimension::Pct(width), height: Dimension::Pct(height) }),
    {
        Size { width: Dimension::Pct(width), height: Dimension::Pct(height) }
    }

    pub open spec fn spec_fixed(self) -> (int, int) {
        (
            match self.width {
                Dimension::Px(v) => extent(v as int),
                _ => 0,
            },
            match self.height {
                Dimension::Px(v) => extent(v as int),
                _ => 0,
            },
        )
    }

    /// The fixed part of the size: a dimension that is not fixed counts as zero.
    pub fn fixed(&self) -> (r: (i64, i64))
        ensures
            r.0 == self.spec_fixed().0,
            r.1 == self.spec_fixed().1,
    {
        let w = match self.width {
            Dimension::Px(v) => to_extent(v),
            _ => 0,
        };
        let h = match self.height {
            Dimension::Px(v) => to_extent(v),
            _ => 0,
        };
        (w, h)
    }
}

/// Four edges, in the order top, right, bottom, left.
#[derive(Clone, Copy, Debug, PartialEq, Eq, Structural)]
pub struct Rect {
    pub top: Dimension,
    pub right: Dimension,
    pub bottom: Dimension,
    pub left: Dimension,
}

impl Rect {
    pub open spec fn none() -> Rect {
        Rect {
            top: Dimension::Auto,
            right: Dimension::Auto,
            bottom: Dimension::Auto,
            left: Dimension::Auto,
        }
    }

    /// No edge given.
    pub fn auto() -> (r: Rect)
        ensures
            r == Rect::none(),
    {
        Rect {
            top: Dimension::Auto,
            right: Dimension::Auto,
            bottom: Dimension::Auto,
            left: Dimension::Auto,
        }
    }

    pub fn new(top: Dimension, right: Dimension, bottom: Dimension, left: Dimension) -> (r: Rect)
        ensures
            r == (Rect { top, right, bottom, left }),
    {
        Rect { top, right, bottom, left }
    }

    /// The same fixed length on all four edges.
    pub fn all(v: i64) -> (r: Rect)
        ensures
            r == (Rect {
                top: Dimension::Px(v),
                right: Dimension::Px(v),
                bottom: Dimension::Px(v),
                left: Dimension::Px(v),
            }),
    {
        Rect {
            top: Dimension::Px(v),
            right: Dimension::Px(v),
            bottom: Dimension::Px(v),
            left: Dimension::Px(v),
        }
    }

    /// Four fixed lengths.
    pub fn px(top: i64, right: i64, bottom: i64, left: i64) -> (r: Rect)
        ensures
            r == (Rect {
                top: Dimension::Px(top),
                right: Dimension::Px(right),
                bottom: Dimension::Px(bottom),
                left: Dimension::Px(left),
            }),
    {
        Rect {
            top: Dimension::Px(top),
            right: Dimension::Px(right),
            bottom: Dimension::Px(bottom),
            left: Dimension::Px(left),
        }
    }

    /// The four edges as lengths inside a box of size `(w, h)`: horizontal
    /// edges are taken of the width, vertical ones of the height.
    pub open spec fn edges(self, w: int, h: int) -> Edges {
        Edges {
            top: self.top.edge(h) as i64,
            right: self.right.edge(w) as i64,
            bottom: self.bottom.edge(h) as i64,
            left: self.left.edge(w) as i64,
        }
    }

    pub fn resolve(&self, w: i64, h: i64) -> (r: Edges)
        ensures
            r == self.edges(w as int, h as int),
            r.wf(),
    {
        Edges {
            top: self.top.resolve_edge(h),
            right: self.right.resolve_edge(w),
            bottom: self.bottom.resolve_edge(h),
            left: self.left.resolve_edge(w),
        }
    }
}

/// Four resolved edge lengths.
#[derive(Clone, Copy, Debug, PartialEq, Eq, Structural)]
pub struct Edges {
    pub top: i64,
    pub right: i64,
    pub bottom: i64,
    pub left: i64,
}

impl Edges {
    pub open spec fn wf(self) -> bool {
        &&& -MAX_EXTENT <= self.top <= MAX_EXTENT
        &&& -MAX_EXTENT <= self.right <= MAX_EXTENT
        &&& -MAX_EXTENT <= self.bottom <= MAX_EXTENT
        &&& -MAX_EXTENT <= self.left <= MAX_EXTENT
    }

    /// Left plus right.
    pub open spec fn horizontal(self) -> int {
        self.left + self.right
    }

    /// Top plus bottom.
    pub open spec fn vertical(self) -> int {
        self.top + self.bottom
    }

    /// The edges with negative lengths raised to zero, as padding needs them.
    pub open spec fn inward(self) -> Edges {
        Edges {
            top: extent(self.top as int) as i64,
            right: extent(self.right as int) as i64,
            bottom: extent(self.bottom as int) as i64,
            left: extent(self.left as int) as i64,
        }
    }

    pub fn non_negative(&self) -> (r: Edges)
        ensures
            r == self.inward(),
            r.wf(),
            r.top >= 0 && r.right >= 0 && r.bottom >= 0 && r.left >= 0,
    {
        Edges {
            top: to_extent(self.top),
            right: to_extent(self.right),
            bottom: to_extent(self.bottom),
            left: to_extent(self.left),
        }
    }
}

/// The axis along which a node places its children.
#[derive(Clone, Copy, Debug, PartialEq, Eq, Structural)]
pub enum Direction {
    Row,
    Column,
}

/// Where children go along an axis.
#[derive(Clone, Copy, Debug, PartialEq, Eq, Structural)]
pub enum Alignment {
    Start,
    Center,
    End,
    Stretch,
}

/// Whether a node takes part in the flow of its siblings.
#[derive(Clone, Copy, Debug, PartialEq, Eq, Structural)]
pub enum PositionType {
    Relative,
    Absolute,
}

/// How far the content of a scrolling container is moved.
#[derive(Clone, Copy, Debug, PartialEq, Eq, Structural)]
pub struct ScrollPosition {
    pub x: Option<i64>,
    pub y: Option<i64>,
}

/// Everything a node asks of the layout engine.
#[derive(Clone, Copy, Debug, PartialEq, Eq, Structural)]
pub struct Layout {
    pub direction: Direction,
    pub size: Size,
    pub min_size: Size,
    pub max_size: Size,
    pub margin: Rect,
    pub padding: Rect,
    pub position: Rect,
    pub position_type: PositionType,
    pub axis_alignment: Alignment,
    pub cross_alignment: Alignment,
    pub z_index: Option<i64>,
    pub z_index_increment: i64,
}

impl Layout {
    pub open spec fn initial() -> Layout {
        Layout {
            direction: Direction::Row,
            size: Size::auto_size(),
            min_size: Size::auto_size(),
            max_size: Size::auto_size(),
            margin: Rect::none(),
            padding: Rect::none(),
            position: Rect::none(),
            position_type: PositionType::Relative,
            axis_alignment: Alignment::Start,
            cross_alignment: Alignment::Start,
            z_index: None,
            z_index_increment: 0,
        }
    }

    /// A row of content-sized children without margin or padding.
    pub fn new() -> (r: Layout)
        ensures
            r == Layout::initial(),
    {
        Layout {
            direction: Direction::Row,
            size: Size::auto(),
            min_size: Size::auto(),
            max_size: Size::auto(),
            margin: Rect::auto(),
            padding: Rect::auto(),
            position: Rect::auto(),
            position_type: PositionType::Relative,
            axis_alignment: Alignment::Start,
            cross_alignment: Alignment::Start,
            z_index: None,
            z_index_increment: 0,
        }
    }

    pub fn direction(self, direction: Direction) -> (r: Layout)
        ensures
            r == (Layout { direction, ..self }),
    {
        Layout { direction, ..self }
    }

    pub fn size(self, size: Size) -> (r: Layout)
        ensures
            r == (Layout { size, ..self }),
    {
        Layout { size, ..self }
    }

    pub fn min_size(self, min_size: Size) -> (r: Layout)
        ensures
            r == (Layout { min_size, ..self }),
    {
        Layout { min_size, ..self }
    }

    pub fn max_size(self, max_size: Size) -> (r: Layout)
        ensures
            r == (Layout { max_size, ..self }),
    {
        Layout { max_size, ..self }
    }

    pub fn margin(self, margin: Rect) -> (r: Layout)
        ensures
            r == (Layout { margin, ..self }),
    {
        Layout { margin, ..self }
    }

    pub fn padding(self, padding: Rect) -> (r: Layout)
        ensures
            r == (Layout { padding, ..self }),
    {
        Layout { padding, ..self }
    }

    pub fn position(self, position: Rect) -> (r: Layout)
        ensures
            r == (Layout { position, ..self }),
    {
        Layout { position, ..self }
    }

    pub fn position_type(self, position_type: PositionType) -> (r: Layout)
        ensures
            r == (Layout { position_type, ..self }),
    {
        Layout { position_type, ..self }
    }

    pub fn axis_alignment(self, axis_alignment: Alignment) -> (r: Layout)
        ensures
            r == (Layout { axis_alignment, ..self }),
    {
        Layout { axis_alignment, ..self }
    }

    pub fn cross_alignment(self, cross_alignment: Alignment) -> (r: Layout)
        ensures
            r == (Layout { cross_alignment, ..self }),
    {
        Layout { cross_alignment, ..self }
    }

    pub fn z_index(self, z_index: i64) -> (r: Layout)
        ensures
            r == (Layout { z_index: Some(z_index), ..self }),
    {
        Layout { z_index: Some(z_index), ..self }
    }

    pub fn z_index_increment(self, z_index_increment: i64) -> (r: Layout)
        ensures
            r == (Layout { z_index_increment, ..self }),
    {
        Layout { z_index_increment, ..self }
    }

    /// Whether the node is laid out in the flow of its siblings.
    pub open spec fn in_flow(self) -> bool {
        self.position_type is Relative
    }

    /// `len` kept between the minimum and the maximum that the layout asks
    /// for along one axis; the minimum wins where the two disagree.
    pub open spec fn limited(min: Dimension, max: Dimension, len: int, reference: int) -> int {
        let capped = match max.resolved(reference) {
            Some(m) => if len > m {
                m
            } else {
                len
            },
            None => len,
        };
        match min.resolved(reference) {
            Some(m) => if capped < m {
                m
            } else {
                capped
            },
            None => capped,
        }
    }

    pub(crate) fn limit(min: &Dimension, max: &Dimension, len: i64, reference: i64) -> (r: i64)
        requires
            0 <= len <= MAX_EXTENT,
        ensures
            r == Layout::limited(*min, *max, len as int, reference as int),
            0 <= r <= MAX_EXTENT,
    {
        let capped = match max.resolve(reference) {
            Some(m) => if len > m {
                m
            } else {
                len
            },
            None => len,
        };
        match min.resolve(reference) {
            Some(m) => if capped < m {
                m
            } else {
                capped
            },
            None => capped,
        }
    }
}

/// The offset of a block of length `used` inside a span of length `span`.
pub open spec fn aligned_offset(alignment: Alignment, span: int, used: int) -> int {
    match alignment {
        Alignment::Start => 0,
        Alignment::Stretch => 0,
        Alignment::Center => (span - used) / 2,
        Alignment::End => span - used,
    }
}

pub(crate) fn align_offset(alignment: Alignment, span: i64, used: i64) -> (r: i64)
    requires
        0 <= span <= MAX_EXTENT,
        0 <= used <= MAX_EXTENT,
    ensures
        r == aligned_offset(alignment, span as int, used as int),
        -MAX_EXTENT <= r <= MAX_EXTENT,
{
    match alignment {
        Alignment::Start => 0,
        Alignment::Stretch => 0,
        Alignment::Center => {
            let d = span - used;
            if d >= 0 {
                d / 2
            } else {
                let m = -d;
                let up = (m + 1) / 2;
                assert(d as int / 2 == -(up as int)) by (nonlinear_arith)
                    requires
                        d < 0,
                        m == -d,
                        up == (m + 1) / 2,
                ;
                -up
            }
        },
        Alignment::End => span - used,
    }
}

} // verus!
