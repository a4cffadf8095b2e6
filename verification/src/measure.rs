//! The measure pass of the layout engine: the size of a node, given the
//! size of the box that its parent offers.
//!
//! A fixed or percentage dimension is resolved from above.  An `Auto`
//! dimension is resolved from below: it is the extent of the children in
//! flow, or that of the content of the component itself where that is
//! larger, plus the padding.  While such a node is measured its own size is
//! not known yet, so a percentage in a child is taken of the size the node
//! had after the previous layout.
use vstd::prelude::*;
use crate::component::Component;
use crate::layout::{Dimension, Direction, Edges, Layout};
use crate::node::{lemma_view_children, Modeled, Node, NodeModel};
use crate::types::{extent, to_extent, Scale, MAX_EXTENT};

verus! {

pub open spec fn larger(a: int, b: int) -> int {
    if a >= b {
        a
    } else {
        b
    }
}

/// The extent of a run of boxes after one more box of outer size `next`
/// has been placed: lengths add up along the direction and the largest
/// counts across it.
pub open spec fn stacked(run: Scale, next: Scale, direction: Direction) -> Scale {
    match direction {
        Direction::Row => Scale {
            width: extent(run.width + next.width) as i64,
            height: larger(run.height as int, next.height as int) as i64,
        },
        Direction::Column => Scale {
            width: larger(run.width as int, next.width as int) as i64,
            height: extent(run.height + next.height) as i64,
        },
    }
}

pub(crate) fn stack(run: Scale, next: Scale, direction: Direction) -> (r: Scale)
    requires
        run.in_range(),
        next.in_range(),
    ensures
        r == stacked(run, next, direction),
        r.in_range(),
{
    match direction {
        Direction::Row => Scale {
            width: to_extent(run.width + next.width),
            height: if run.height >= next.height {
                run.height
            } else {
                next.height
            },
        },
        Direction::Column => Scale {
            width: if run.width >= next.width {
                run.width
            } else {
                next.width
            },
            height: to_extent(run.height + next.height),
        },
    }
}

/// The smallest size that holds both `a` and `b`, cut to a valid size.
pub open spec fn joined(a: Scale, b: Scale) -> Scale {
    Scale {
        width: larger(extent(a.width as int), extent(b.width as int)) as i64,
        height: larger(extent(a.height as int), extent(b.height as int)) as i64,
    }
}

pub(crate) fn join(a: Scale, b: Scale) -> (r: Scale)
    ensures
        r == joined(a, b),
        r.in_range(),
{
    let aw = to_extent(a.width);
    let bw = to_extent(b.width);
    let ah = to_extent(a.height);
    let bh = to_extent(b.height);
    Scale {
        width: if aw >= bw {
            aw
        } else {
            bw
        },
        height: if ah >= bh {
            ah
        } else {
            bh
        },
    }
}

/// `size` with `edges` added on all four sides, never negative.
pub open spec fn grown(size: Scale, edges: Edges) -> Scale {
    Scale {
        width: extent(size.width + edges.horizontal()) as i64,
        height: extent(size.height + edges.vertical()) as i64,
    }
}

/// `size` with `edges` taken off on all four sides, never negative.
pub open spec fn shrunk(size: Scale, edges: Edges) -> Scale {
    Scale {
        width: extent(extent(size.width as int) - edges.horizontal()) as i64,
        height: extent(extent(size.height as int) - edges.vertical()) as i64,
    }
}

pub(crate) fn grow(size: Scale, edges: Edges) -> (r: Scale)
    requires
        size.in_range(),
        edges.wf(),
    ensures
        r == grown(size, edges),
        r.in_range(),
{
    Scale {
        width: to_extent(size.width + (edges.left + edges.right)),
        height: to_extent(size.height + (edges.top + edges.bottom)),
    }
}

pub(crate) fn shrink(size: Scale, edges: Edges) -> (r: Scale)
    requires
        edges.wf(),
    ensures
        r == shrunk(size, edges),
        r.in_range(),
{
    Scale {
        width: to_extent(to_extent(size.width) - (edges.left + edges.right)),
        height: to_extent(to_extent(size.height) - (edges.top + edges.bottom)),
    }
}

impl<C: Component> NodeModel<C> {
    /// The padding of the node inside a parent that offers `avail`.
    pub open spec fn padding(self, avail: Scale) -> Edges {
        self.layout.padding.edges(avail.width as int, avail.height as int).inward()
    }

    /// The margin of the node inside a parent that offers `avail`.
    pub open spec fn margin(self, avail: Scale) -> Edges {
        self.layout.margin.edges(avail.width as int, avail.height as int)
    }

    /// The width the node asks for if that does not depend on its content.
    pub open spec fn definite_width(self, avail: Scale) -> Option<int> {
        match self.layout.size.width.resolved(avail.width as int) {
            Some(w) => Some(
                Layout::limited(
                    self.layout.min_size.width,
                    self.layout.max_size.width,
                    w,
                    avail.width as int,
                ),
            ),
            None => None,
        }
    }

    /// The height the node asks for if that does not depend on its content.
    pub open spec fn definite_height(self, avail: Scale) -> Option<int> {
        match self.layout.size.height.resolved(avail.height as int) {
            Some(h) => Some(
                Layout::limited(
                    self.layout.min_size.height,
                    self.layout.max_size.height,
                    h,
                    avail.height as int,
                ),
            ),
            None => None,
        }
    }

    /// The box that the node offers its children while it is measured: its
    /// definite size, or for an `Auto` dimension the size of the previous
    /// layout, less the padding.
    #[verifier::opaque]
    pub open spec fn offered(self, avail: Scale) -> Scale {
        shrunk(
            Scale {
                width: match self.definite_width(avail) {
                    Some(w) => w as i64,
                    None => self.aabb.size.width,
                },
                height: match self.definite_height(avail) {
                    Some(h) => h as i64,
                    None => self.aabb.size.height,
                },
            },
            self.padding(avail),
        )
    }

    /// The size of a node whose children in flow take up `content`: a
    /// definite dimension as it is asked for; an `Auto` dimension as large
    /// as the content of the children or of the component itself,
    /// whichever is larger, plus the padding, within the limits of the layout.
    #[verifier::opaque]
    pub open spec fn finished(self, avail: Scale, content: Scale) -> Scale {
        let full = grown(joined(content, C::natural(self.component)), self.padding(avail));
        Scale {
            width: match self.definite_width(avail) {
                Some(w) => w as i64,
                None => Layout::limited(
                    self.layout.min_size.width,
                    self.layout.max_size.width,
                    full.width as int,
                    avail.width as int,
                ) as i64,
            },
            height: match self.definite_height(avail) {
                Some(h) => h as i64,
                None => Layout::limited(
                    self.layout.min_size.height,
                    self.layout.max_size.height,
                    full.height as int,
                    avail.height as int,
                ) as i64,
            },
        }
    }

    /// The size of the node inside a parent that offers `avail`.
    pub open spec fn measured(self, avail: Scale) -> Scale
        decreases self, 0nat,
    {
        self.finished(
            avail,
            Self::content(
                self.children,
                self.children.len(),
                self.offered(avail),
                self.layout.direction,
            ),
        )
    }

    /// The size of the node with its margin.
    pub open spec fn outer(self, avail: Scale) -> Scale {
        grown(self.measured(avail), self.margin(avail))
    }

    /// The extent of the first `n` nodes of `children` that are in flow,
    /// placed one after the other along `direction`.
    pub open spec fn content(
        children: Seq<NodeModel<C>>,
        n: nat,
        avail: Scale,
        direction: Direction,
    ) -> Scale
        decreases children, n,
    {
        if n == 0 || n > children.len() {
            Scale { width: 0, height: 0 }
        } else {
            let run = Self::content(children, (n - 1) as nat, avail, direction);
            if children[n - 1].layout.in_flow() {
                stacked(
                    run,
                    grown(children[n - 1].measured(avail), children[n - 1].margin(avail)),
                    direction,
                )
            } else {
                run
            }
        }
    }
}

/// A length between a minimum and a maximum is still a valid length.
pub proof fn lemma_limited_in_range(min: Dimension, max: Dimension, len: int, reference: int)
    requires
        0 <= len <= MAX_EXTENT,
    ensures
        0 <= Layout::limited(min, max, len, reference) <= MAX_EXTENT,
{
}

/// Whatever a node asks for, its measured size is a valid size: a size that
/// would come out negative is zero.
pub proof fn lemma_measured_in_range<C: Component>(node: NodeModel<C>, avail: Scale)
    ensures
        node.measured(avail).in_range(),
        node.outer(avail).in_range(),
{
    reveal(NodeModel::finished);
    let l = node.layout;
    let content = grown(
        joined(
            NodeModel::content(node.children, node.children.len(), node.offered(avail), l.direction),
            C::natural(node.component),
        ),
        node.padding(avail),
    );
    lemma_limited_in_range(l.min_size.width, l.max_size.width, content.width as int, avail.width as int);
    lemma_limited_in_range(
        l.min_size.height,
        l.max_size.height,
        content.height as int,
        avail.height as int,
    );
    match l.size.width.resolved(avail.width as int) {
        Some(w) => lemma_limited_in_range(l.min_size.width, l.max_size.width, w, avail.width as int),
        None => {},
    }
    match l.size.height.resolved(avail.height as int) {
        Some(h) => lemma_limited_in_range(
            l.min_size.height,
            l.max_size.height,
            h,
            avail.height as int,
        ),
        None => {},
    }
}

impl<C: Component> NodeModel<C> {
    /// The sum of the heights, margins included, of the first `n` nodes of
    /// `children` that are in flow.
    pub open spec fn heights(children: Seq<NodeModel<C>>, n: nat, avail: Scale) -> int
        decreases n,
    {
        if n == 0 || n > children.len() {
            0
        } else {
            Self::heights(children, (n - 1) as nat, avail) + if children[n - 1].layout.in_flow() {
                children[n - 1].outer(avail).height as int
            } else {
                0
            }
        }
    }

    /// The sum of the widths, margins included, of the first `n` nodes of
    /// `children` that are in flow.
    pub open spec fn widths(children: Seq<NodeModel<C>>, n: nat, avail: Scale) -> int
        decreases n,
    {
        if n == 0 || n > children.len() {
            0
        } else {
            Self::widths(children, (n - 1) as nat, avail) + if children[n - 1].layout.in_flow() {
                children[n - 1].outer(avail).width as int
            } else {
                0
            }
        }
    }
}

/// Along its direction the extent of a run of children is the sum of their
/// outer lengths, cut off at `MAX_EXTENT`.
pub proof fn lemma_content_is_sum<C: Component>(children: Seq<NodeModel<C>>, n: nat, avail: Scale)
    ensures
        NodeModel::content(children, n, avail, Direction::Column).height == extent(
            NodeModel::heights(children, n, avail),
        ),
        NodeModel::content(children, n, avail, Direction::Row).width == extent(
            NodeModel::widths(children, n, avail),
        ),
        NodeModel::heights(children, n, avail) >= 0,
        NodeModel::widths(children, n, avail) >= 0,
    decreases n,
{
    if n == 0 || n > children.len() {
    } else {
        lemma_content_is_sum(children, (n - 1) as nat, avail);
        lemma_measured_in_range(children[n - 1], avail);
    }
}

/// A column whose height is left to its content is as high as its children
/// in flow together, plus its padding: content sizes propagate upwards.
/// Only a component with content of its own that is higher still makes
/// the column higher.
pub proof fn lemma_auto_column_height<C: Component>(node: NodeModel<C>, avail: Scale)
    requires
        node.layout.direction == Direction::Column,
        node.layout.size.height == Dimension::Auto,
        node.layout.min_size.height == Dimension::Auto,
        node.layout.max_size.height == Dimension::Auto,
    ensures
        node.measured(avail).height == extent(
            larger(
                extent(NodeModel::heights(node.children, node.children.len(), node.offered(avail))),
                extent(C::natural(node.component).height as int),
            ) + node.padding(avail).vertical(),
        ),
{
    reveal(NodeModel::finished);
    lemma_content_is_sum(node.children, node.children.len(), node.offered(avail));
}

/// A row whose width is left to its content is as wide as its children in
/// flow together, plus its padding.
pub proof fn lemma_auto_row_width<C: Component>(node: NodeModel<C>, avail: Scale)
    requires
        node.layout.direction == Direction::Row,
        node.layout.size.width == Dimension::Auto,
        node.layout.min_size.width == Dimension::Auto,
        node.layout.max_size.width == Dimension::Auto,
    ensures
        node.measured(avail).width == extent(
            larger(
                extent(NodeModel::widths(node.children, node.children.len(), node.offered(avail))),
                extent(C::natural(node.component).width as int),
            ) + node.padding(avail).horizontal(),
        ),
{
    reveal(NodeModel::finished);
    lemma_content_is_sum(node.children, node.children.len(), node.offered(avail));
}

impl<C: Component> Node<C> {
    pub fn padding(&self, avail: Scale) -> (r: Edges)
        ensures
            r == self@.padding(avail),
            r.wf(),
            r.top >= 0 && r.right >= 0 && r.bottom >= 0 && r.left >= 0,
    {
        self.layout.padding.resolve(avail.width, avail.height).non_negative()
    }

    pub fn margin(&self, avail: Scale) -> (r: Edges)
        ensures
            r == self@.margin(avail),
            r.wf(),
    {
        self.layout.margin.resolve(avail.width, avail.height)
    }

    fn definite(size: &Dimension, min: &Dimension, max: &Dimension, reference: i64) -> (r: Option<
        i64,
    >)
        ensures
            r is Some == size.resolved(reference as int) is Some,
            r matches Some(v) ==> 0 <= v <= MAX_EXTENT && v == Layout::limited(
                *min,
                *max,
                size.resolved(reference as int).unwrap(),
                reference as int,
            ),
    {
        match size.resolve(reference) {
            Some(v) => Some(Layout::limit(min, max, v, reference)),
            None => None,
        }
    }

    /// The box that the node offers its children while it is measured.
    pub fn offered(&self, avail: Scale) -> (r: Scale)
        ensures
            r == self@.offered(avail),
            r.in_range(),
    {
        reveal(NodeModel::offered);
        let l = &self.layout;
        let w = match Self::definite(&l.size.width, &l.min_size.width, &l.max_size.width, avail.width) {
            Some(w) => w,
            None => self.aabb.size.width,
        };
        let h = match Self::definite(
            &l.size.height,
            &l.min_size.height,
            &l.max_size.height,
            avail.height,
        ) {
            Some(h) => h,
            None => self.aabb.size.height,
        };
        shrink(Scale { width: w, height: h }, self.padding(avail))
    }

    /// The extent of the children in flow, inside the box `inner`.
    pub fn content(&self, inner: Scale) -> (r: Scale)
        ensures
            r == NodeModel::content(
                self@.children,
                self@.children.len(),
                inner,
                self.layout.direction,
            ),
            r.in_range(),
        decreases self, 0nat,
    {
        let mut run = Scale { width: 0, height: 0 };
        let n = self.children.len();
        let mut i: usize = 0;
        proof {
            lemma_view_children(*self);
        }
        while i < n
            invariant
                i <= n,
                n == self.children@.len(),
                self@.children.len() == n,
                forall|j: int| 0 <= j < n ==> self@.children[j] == self.children@[j]@,
                run == NodeModel::content(self@.children, i as nat, inner, self.layout.direction),
                run.in_range(),
            decreases n - i,
        {
            let child = &self.children[i];
            if let crate::layout::PositionType::Relative = child.layout.position_type {
                let o = child.outer(inner);
                run = stack(run, o, self.layout.direction);
            }
            i += 1;
        }
        run
    }

    /// The size of the node inside a parent that offers `avail`.
    pub fn measure(&self, avail: Scale) -> (r: Scale)
        ensures
            r == self@.measured(avail),
            r.in_range(),
        decreases self, 1nat,
    {
        reveal(NodeModel::finished);
        let l = &self.layout;
        let dw = Self::definite(&l.size.width, &l.min_size.width, &l.max_size.width, avail.width);
        let dh = Self::definite(
            &l.size.height,
            &l.min_size.height,
            &l.max_size.height,
            avail.height,
        );
        if dw.is_some() && dh.is_some() {
            return Scale { width: dw.unwrap(), height: dh.unwrap() };
        }
        let inner = self.offered(avail);
        let content = grow(
            join(self.content(inner), self.component.natural_size()),
            self.padding(avail),
        );
        Scale {
            width: match dw {
                Some(w) => w,
                None => Layout::limit(&l.min_size.width, &l.max_size.width, content.width, avail.width),
            },
            height: match dh {
                Some(h) => h,
                None => Layout::limit(
                    &l.min_size.height,
                    &l.max_size.height,
                    content.height,
                    avail.height,
                ),
            },
        }
    }

    /// The size of the node with its margin.
    pub fn outer(&self, avail: Scale) -> (r: Scale)
        ensures
            r == self@.outer(avail),
            r.in_range(),
        decreases self, 2nat,
    {
        grow(self.measure(avail), self.margin(avail))
    }
}

} // verus!
