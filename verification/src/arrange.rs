//! The arrange pass of the layout engine: every node of the tree gets its
//! box, from the root down.
//!
//! A node is handed its position and size by its parent.  A component with
//! full control may replace that box; the engine then places the children
//! at the corner of the content box instead of one after the other.  A
//! percentage in a child is taken of the content box that the node has now,
//! whatever the node asked for itself.
use vstd::prelude::*;
use crate::component::{BoxContext, Component};
use crate::layout::{
    align_offset, aligned_offset, Alignment, Dimension, Direction, Edges, Layout, PositionType,
};
use crate::measure::{grow, grown, shrink, shrunk, stack, stacked};
use crate::node::{lemma_view_children, Node, NodeModel};
use crate::types::{coord, extent, offset, to_coord, to_extent, to_offset, Pos, Scale, AABB, MAX_COORD, MAX_EXTENT};

verus! {

/// Where a parent stands while it places its children.
#[derive(Clone, Copy, Debug, PartialEq, Eq, Structural)]
pub struct Placement {
    /// The resolved box of the parent.
    pub aabb: AABB,
    /// The padding of the parent.
    pub padding: Edges,
    /// The content box of the parent: its size less the padding.
    pub inner: Scale,
    /// The layout of the parent.
    pub layout: Layout,
    /// Whether the component of the parent has full control.
    pub controlled: bool,
    /// The extent of all children in flow.
    pub total: Scale,
}

impl Placement {
    pub open spec fn wf(self) -> bool {
        &&& self.aabb.wf()
        &&& self.padding.wf()
        &&& self.inner.in_range()
        &&& self.total.in_range()
    }
}

impl<C: Component> NodeModel<C> {
    /// The size that a parent gives the node.  It is the measured size,
    /// except that a parent that stretches its children across its
    /// direction gives a child in flow the whole content box in that
    /// dimension, if the child left it `Auto`.
    #[verifier::opaque]
    pub open spec fn placed_size(self, at: Placement) -> Scale {
        let m = self.measured(at.inner);
        let margin = self.margin(at.inner);
        if !self.layout.in_flow() || at.controlled || !(at.layout.cross_alignment is Stretch) {
            m
        } else {
            match at.layout.direction {
                Direction::Row => if self.layout.size.height.is_auto() {
                    Scale {
                        width: m.width,
                        height: Layout::limited(
                            self.layout.min_size.height,
                            self.layout.max_size.height,
                            extent(at.inner.height - margin.vertical()),
                            at.inner.height as int,
                        ) as i64,
                    }
                } else {
                    m
                },
                Direction::Column => if self.layout.size.width.is_auto() {
                    Scale {
                        width: Layout::limited(
                            self.layout.min_size.width,
                            self.layout.max_size.width,
                            extent(at.inner.width - margin.horizontal()),
                            at.inner.width as int,
                        ) as i64,
                        height: m.height,
                    }
                } else {
                    m
                },
            }
        }
    }

    /// The depth of the node: its own if it names one, else that of the
    /// parent plus its increment.
    #[verifier::opaque]
    pub open spec fn placed_z(self, at: Placement) -> int {
        match self.layout.z_index {
            Some(z) => coord(z as int),
            None => coord(at.aabb.pos.z + offset(self.layout.z_index_increment as int)),
        }
    }

    /// The corner of a node that is taken out of the flow: measured from
    /// the left or top edge of the parent if that offset is given, else
    /// from the right or bottom edge if that one is, else put at the
    /// parent's corner.
    #[verifier::opaque]
    pub open spec fn absolute_origin(self, at: Placement) -> Pos {
        let size = self.placed_size(at);
        let m = self.margin(at.inner);
        let p = self.layout.position;
        let w = at.aabb.size.width as int;
        let h = at.aabb.size.height as int;
        Pos {
            x: coord(
                if !p.left.is_auto() {
                    at.aabb.pos.x + p.left.edge(w) + m.left
                } else if !p.right.is_auto() {
                    at.aabb.pos.x + w - p.right.edge(w) - m.right - size.width
                } else {
                    at.aabb.pos.x + m.left
                },
            ) as i64,
            y: coord(
                if !p.top.is_auto() {
                    at.aabb.pos.y + p.top.edge(h) + m.top
                } else if !p.bottom.is_auto() {
                    at.aabb.pos.y + h - p.bottom.edge(h) - m.bottom - size.height
                } else {
                    at.aabb.pos.y + m.top
                },
            ) as i64,
            z: self.placed_z(at) as i64,
        }
    }

    /// The corner of a node in flow, when the children in flow before it
    /// take up `before`.
    #[verifier::opaque]
    pub open spec fn flow_origin(self, at: Placement, before: Scale) -> Pos {
        let size = self.placed_size(at);
        let m = self.margin(at.inner);
        let out = grown(size, m);
        let x0 = at.aabb.pos.x + at.padding.left + m.left;
        let y0 = at.aabb.pos.y + at.padding.top + m.top;
        if at.controlled {
            Pos { x: coord(x0) as i64, y: coord(y0) as i64, z: self.placed_z(at) as i64 }
        } else {
            match at.layout.direction {
                Direction::Row => Pos {
                    x: coord(
                        x0 + aligned_offset(
                            at.layout.axis_alignment,
                            at.inner.width as int,
                            at.total.width as int,
                        ) + before.width,
                    ) as i64,
                    y: coord(
                        y0 + aligned_offset(
                            at.layout.cross_alignment,
                            at.inner.height as int,
                            out.height as int,
                        ),
                    ) as i64,
                    z: self.placed_z(at) as i64,
                },
                Direction::Column => Pos {
                    x: coord(
                        x0 + aligned_offset(
                            at.layout.cross_alignment,
                            at.inner.width as int,
                            out.width as int,
                        ),
                    ) as i64,
                    y: coord(
                        y0 + aligned_offset(
                            at.layout.axis_alignment,
                            at.inner.height as int,
                            at.total.height as int,
                        ) + before.height,
                    ) as i64,
                    z: self.placed_z(at) as i64,
                },
            }
        }
    }

    /// The corner that a parent gives the node.
    #[verifier::opaque]
    pub open spec fn placed_origin(self, at: Placement, before: Scale) -> Pos {
        if self.layout.in_flow() {
            self.flow_origin(at, before)
        } else {
            self.absolute_origin(at)
        }
    }
}

impl<C: Component> NodeModel<C> {
    /// The boxes that the children had after the previous layout.
    pub open spec fn previous_boxes(self) -> Seq<AABB> {
        Seq::new(self.children.len(), |i: int| self.children[i].aabb)
    }

    /// The component and the box of the node once it has been handed
    /// `origin` and `size`: a component with full control decides.
    #[verifier::opaque]
    pub open spec fn settled(self, origin: Pos, size: Scale, context: BoxContext) -> (C::Model, AABB) {
        let base = AABB::spec_new(origin, size);
        if C::controls(self.component) {
            let b = C::boxed(self.component, base, self.previous_boxes(), context);
            (b.0, AABB::spec_new(b.1.pos, b.1.size))
        } else {
            (self.component, base)
        }
    }

    /// How the node places its children once its own box is `aabb`.
    #[verifier::opaque]
    pub open spec fn placement(self, aabb: AABB, avail: Scale) -> Placement {
        let pad = self.padding(avail);
        let inner = shrunk(aabb.size, pad);
        Placement {
            aabb,
            padding: pad,
            inner,
            layout: self.layout,
            controlled: C::controls(self.component),
            total: Self::content(self.children, self.children.len(), inner, self.layout.direction),
        }
    }

    /// The subtree after layout, when the parent hands the node `origin` and
    /// `size` and offers `avail` for its percentages.
    #[verifier::opaque]
    pub open spec fn arranged(
        self,
        origin: Pos,
        size: Scale,
        avail: Scale,
        context: BoxContext,
    ) -> NodeModel<C>
        decreases self,
    {
        let settled = self.settled(origin, size, context);
        let at = self.placement(settled.1, avail);
        let below = BoxContext { parent: settled.1, ..context };
        NodeModel {
            component: settled.0,
            aabb: settled.1,
            inner_scale: Some(at.total),
            children: Seq::new(
                self.children.len(),
                |i: int|
                    if 0 <= i < self.children.len() {
                        self.children[i].arranged(
                            self.children[i].placed_origin(
                                at,
                                Self::content(self.children, i as nat, at.inner, at.layout.direction),
                            ),
                            self.children[i].placed_size(at),
                            at.inner,
                            below,
                        )
                    } else {
                        arbitrary()
                    },
            ),
            ..self
        }
    }

    /// The whole tree after layout on a surface of size `frame`.
    pub open spec fn laid_out(self, frame: Scale, scale_factor: i64) -> NodeModel<C> {
        let surface = AABB::spec_new(Pos { x: 0, y: 0, z: 0 }, frame);
        self.arranged(
            Pos { x: 0, y: 0, z: 0 },
            self.measured(surface.size),
            surface.size,
            BoxContext { parent: surface, frame: surface, scale_factor },
        )
    }
}

/// Layout is a function of the tree, the surface and the scale factor:
/// laying out equal trees on equal surfaces gives equal trees, box for box.
pub proof fn lemma_layout_deterministic<C: Component>(
    a: NodeModel<C>,
    b: NodeModel<C>,
    frame: Scale,
    scale_factor: i64,
)
    requires
        a == b,
    ensures
        a.laid_out(frame, scale_factor) == b.laid_out(frame, scale_factor),
{
}

impl<C: Component> NodeModel<C> {
    /// Whether no component of the subtree has full control.
    pub open spec fn arranged_by_the_engine(self) -> bool
        decreases self,
    {
        &&& !C::controls(self.component)
        &&& forall|i: int|
            0 <= i < self.children.len() ==> (#[trigger] self.children[i]).arranged_by_the_engine()
    }
}

impl<C: Component> NodeModel<C> {
    /// Whether every box of the subtree is a valid box: no size is
    /// negative, and every number is in range.
    pub open spec fn well_boxed(self) -> bool
        decreases self,
    {
        &&& self.aabb.wf()
        &&& forall|i: int| 0 <= i < self.children.len() ==> (#[trigger] self.children[i]).well_boxed()
    }
}

/// Layout leaves only valid boxes behind, whatever the layouts ask for and
/// whatever the components with full control decide: a size that would be
/// negative is zero, and nothing is out of range.
pub proof fn lemma_arranged_is_well_boxed<C: Component>(
    node: NodeModel<C>,
    origin: Pos,
    size: Scale,
    avail: Scale,
    context: BoxContext,
)
    ensures
        node.arranged(origin, size, avail, context).well_boxed(),
        node.arranged(origin, size, avail, context).children.len() == node.children.len(),
    decreases node,
{
    reveal(NodeModel::arranged);
    reveal(NodeModel::settled);
    let settled = node.settled(origin, size, context);
    let at = node.placement(settled.1, avail);
    let after = node.arranged(origin, size, avail, context);
    assert forall|i: int| 0 <= i < after.children.len() implies (#[trigger] after.children[i]).well_boxed() by {
        let child = node.children[i];
        let before = NodeModel::content(node.children, i as nat, at.inner, at.layout.direction);
        lemma_arranged_is_well_boxed(
            child,
            child.placed_origin(at, before),
            child.placed_size(at),
            at.inner,
            BoxContext { parent: settled.1, ..context },
        );
    }
}

/// The scale factor plays no part in the logical layout: where no
/// component has full control, the boxes are the same whatever the scale
/// factor and the surroundings that components would be told of.
pub proof fn lemma_scale_factor_leaves_layout_alone<C: Component>(
    node: NodeModel<C>,
    origin: Pos,
    size: Scale,
    avail: Scale,
    a: BoxContext,
    b: BoxContext,
)
    requires
        node.arranged_by_the_engine(),
    ensures
        node.arranged(origin, size, avail, a) == node.arranged(origin, size, avail, b),
    decreases node,
{
    reveal(NodeModel::arranged);
    reveal(NodeModel::settled);
    let settled = node.settled(origin, size, a);
    let at = node.placement(settled.1, avail);
    let first = node.arranged(origin, size, avail, a);
    let second = node.arranged(origin, size, avail, b);
    assert forall|i: int| 0 <= i < node.children.len() implies first.children[i]
        == second.children[i] by {
        let child = node.children[i];
        let before = NodeModel::content(node.children, i as nat, at.inner, at.layout.direction);
        lemma_scale_factor_leaves_layout_alone(
            child,
            child.placed_origin(at, before),
            child.placed_size(at),
            at.inner,
            BoxContext { parent: settled.1, ..a },
            BoxContext { parent: settled.1, ..b },
        );
    }
    assert(first.children =~= second.children);
}

/// The box of a node after layout is the one its parent handed it, unless
/// its component has full control.
pub proof fn lemma_arranged_box<C: Component>(
    node: NodeModel<C>,
    origin: Pos,
    size: Scale,
    avail: Scale,
    context: BoxContext,
)
    requires
        !C::controls(node.component),
    ensures
        node.arranged(origin, size, avail, context).aabb == AABB::spec_new(origin, size),
        node.arranged(origin, size, avail, context).component == node.component,
        node.arranged(origin, size, avail, context).children.len() == node.children.len(),
{
    reveal(NodeModel::arranged);
    reveal(NodeModel::settled);
}

/// A child that asks for a percentage gets that percentage of the content
/// box which its parent has after layout, whatever the parent asked for
/// itself: fixed, a percentage or `Auto`.
pub proof fn lemma_percentage_of_resolved_parent<C: Component>(
    parent: NodeModel<C>,
    origin: Pos,
    size: Scale,
    avail: Scale,
    context: BoxContext,
    i: int,
    pct: i64,
)
    requires
        0 <= i < parent.children.len(),
        parent.children[i].layout.size.width == Dimension::Pct(pct),
        parent.children[i].layout.min_size.width == Dimension::Auto,
        parent.children[i].layout.max_size.width == Dimension::Auto,
        !C::controls(parent.children[i].component),
    ensures
        ({
            let after = parent.arranged(origin, size, avail, context);
            let inner = shrunk(after.aabb.size, parent.padding(avail));
            &&& after.children.len() == parent.children.len()
            &&& Some(after.children[i].aabb.size.width as int) == Dimension::Pct(pct).resolved(
                inner.width as int,
            )
        }),
{
    reveal(NodeModel::arranged);
    reveal(NodeModel::placement);
    reveal(NodeModel::placed_size);
    reveal(NodeModel::finished);
    let settled = parent.settled(origin, size, context);
    let at = parent.placement(settled.1, avail);
    let child = parent.children[i];
    let before = NodeModel::content(parent.children, i as nat, at.inner, at.layout.direction);
    lemma_arranged_box(child, child.placed_origin(at, before), child.placed_size(at), at.inner, BoxContext { parent: settled.1, ..context });
    crate::measure::lemma_measured_in_range(child, at.inner);
}

impl<C: Component> Node<C> {
    /// The size that a parent gives the node.
    pub(crate) fn placed_size(&self, at: &Placement) -> (r: Scale)
        requires
            at.wf(),
        ensures
            r == self@.placed_size(*at),
            r.in_range(),
    {
        reveal(NodeModel::placed_size);
        let m = self.measure(at.inner);
        let flows = match self.layout.position_type {
            PositionType::Relative => true,
            PositionType::Absolute => false,
        };
        let stretches = match at.layout.cross_alignment {
            Alignment::Stretch => true,
            _ => false,
        };
        if !flows || at.controlled || !stretches {
            return m;
        }
        let margin = self.margin(at.inner);
        match at.layout.direction {
            Direction::Row => if self.layout.size.height.auto() {
                Scale {
                    width: m.width,
                    height: Layout::limit(
                        &self.layout.min_size.height,
                        &self.layout.max_size.height,
                        to_extent(at.inner.height - (margin.top + margin.bottom)),
                        at.inner.height,
                    ),
                }
            } else {
                m
            },
            Direction::Column => if self.layout.size.width.auto() {
                Scale {
                    width: Layout::limit(
                        &self.layout.min_size.width,
                        &self.layout.max_size.width,
                        to_extent(at.inner.width - (margin.left + margin.right)),
                        at.inner.width,
                    ),
                    height: m.height,
                }
            } else {
                m
            },
        }
    }

    fn placed_z(&self, at: &Placement) -> (z: i64)
        requires
            at.wf(),
        ensures
            z == self@.placed_z(*at),
            -MAX_COORD <= z <= MAX_COORD,
    {
        reveal(NodeModel::placed_z);
        match self.layout.z_index {
            Some(z) => to_coord(z),
            None => to_coord(at.aabb.pos.z + to_offset(self.layout.z_index_increment)),
        }
    }

    /// The corner that a parent gives the node, which it also gives `size`.
    pub(crate) fn placed_origin(&self, at: &Placement, before: Scale, size: Scale) -> (r: Pos)
        requires
            at.wf(),
            before.in_range(),
            size == self@.placed_size(*at),
            size.in_range(),
        ensures
            r == self@.placed_origin(*at, before),
            r.in_range(),
    {
        reveal(NodeModel::absolute_origin);
        reveal(NodeModel::flow_origin);
        reveal(NodeModel::placed_origin);
        let m = self.margin(at.inner);
        let z = self.placed_z(at);
        match self.layout.position_type {
            PositionType::Absolute => {
                let p = &self.layout.position;
                let w = at.aabb.size.width;
                let h = at.aabb.size.height;
                let x = if !p.left.auto() {
                    at.aabb.pos.x + p.left.resolve_edge(w) + m.left
                } else if !p.right.auto() {
                    at.aabb.pos.x + w - p.right.resolve_edge(w) - m.right - size.width
                } else {
                    at.aabb.pos.x + m.left
                };
                let y = if !p.top.auto() {
                    at.aabb.pos.y + p.top.resolve_edge(h) + m.top
                } else if !p.bottom.auto() {
                    at.aabb.pos.y + h - p.bottom.resolve_edge(h) - m.bottom - size.height
                } else {
                    at.aabb.pos.y + m.top
                };
                Pos { x: to_coord(x), y: to_coord(y), z }
            },
            PositionType::Relative => {
                let out = grow(size, m);
                let x0 = at.aabb.pos.x + at.padding.left + m.left;
                let y0 = at.aabb.pos.y + at.padding.top + m.top;
                if at.controlled {
                    Pos { x: to_coord(x0), y: to_coord(y0), z }
                } else {
                    match at.layout.direction {
                        Direction::Row => Pos {
                            x: to_coord(
                                x0 + align_offset(
                                    at.layout.axis_alignment,
                                    at.inner.width,
                                    at.total.width,
                                ) + before.width,
                            ),
                            y: to_coord(
                                y0 + align_offset(
                                    at.layout.cross_alignment,
                                    at.inner.height,
                                    out.height,
                                ),
                            ),
                            z,
                        },
                        Direction::Column => Pos {
                            x: to_coord(
                                x0 + align_offset(
                                    at.layout.cross_alignment,
                                    at.inner.width,
                                    out.width,
                                ),
                            ),
                            y: to_coord(
                                y0 + align_offset(
                                    at.layout.axis_alignment,
                                    at.inner.height,
                                    at.total.height,
                                ) + before.height,
                            ),
                            z,
                        },
                    }
                }
            },
        }
    }

    /// The boxes that the children had after the previous layout.
    pub fn previous_boxes(&self) -> (r: Vec<AABB>)
        ensures
            r@ == self@.previous_boxes(),
    {
        let mut r: Vec<AABB> = Vec::new();
        let n = self.children.len();
        let mut i: usize = 0;
        proof {
            lemma_view_children(*self);
        }
        while i < n
            invariant
                i <= n,
                n == self.children@.len(),
                self@.children.len() == n,
                forall|j: int| 0 <= j < n ==> self@.children[j] == self.children@[j]@,
                r@.len() == i,
                forall|j: int| 0 <= j < i ==> r@[j] == self@.children[j].aabb,
            decreases n - i,
        {
            r.push(self.children[i].aabb);
            i += 1;
        }
        assert(r@ =~= self@.previous_boxes());
        r
    }

    /// Lays out the subtree as a child of a parent that stands at `at` and
    /// whose children in flow before this one take up `run`; answers what
    /// the children in flow take up with this one.
    pub(crate) fn arrange_in(&mut self, at: &Placement, run: Scale, below: BoxContext) -> (next: Scale)
        requires
            at.wf(),
            run.in_range(),
        ensures
            final(self)@ == old(self)@.arranged(
                old(self)@.placed_origin(*at, run),
                old(self)@.placed_size(*at),
                at.inner,
                below,
            ),
            next == if old(self)@.layout.in_flow() {
                stacked(run, old(self)@.outer(at.inner), at.layout.direction)
            } else {
                run
            },
            next.in_range(),
        decreases *old(self), 1nat,
    {
        let size = self.placed_size(at);
        let origin = self.placed_origin(at, run, size);
        let next = match self.layout.position_type {
            PositionType::Relative => stack(run, self.outer(at.inner), at.layout.direction),
            PositionType::Absolute => run,
        };
        self.arrange(origin, size, at.inner, below);
        next
    }

    /// Lays out the subtree: the node takes the box at `origin` of size
    /// `size`, or the one its component decides on, and places its
    /// children inside.
    #[verifier::rlimit(80)]
    pub fn arrange(&mut self, origin: Pos, size: Scale, avail: Scale, context: BoxContext)
        ensures
            final(self)@ == old(self)@.arranged(origin, size, avail, context),
        decreases *old(self), 0nat,
    {
        let ghost before_all = self@;
        proof {
            lemma_view_children(*self);
        }
        let base = AABB::new(origin, size);
        let controlled = self.component.full_control();
        let mut aabb = base;
        if controlled {
            let boxes = self.previous_boxes();
            let mut b = base;
            self.component.set_aabb(&mut b, &boxes, context);
            aabb = AABB::new(b.pos, b.size);
        }
        assert((self.component.model(), aabb) == before_all.settled(origin, size, context)) by {
            reveal(NodeModel::settled);
        }
        let ghost settled_component = self.component.model();
        let pad = self.layout.padding.resolve(avail.width, avail.height).non_negative();
        let inner = shrink(aabb.size, pad);
        proof {
            lemma_view_children(*self);
        }
        let total = self.content(inner);
        let at = Placement { aabb, padding: pad, inner, layout: self.layout, controlled, total };
        assert(at == before_all.placement(aabb, avail)) by {
            reveal(NodeModel::placement);
        }
        let below = BoxContext { parent: aabb, ..context };
        let n = self.children.len();
        let mut run = Scale { width: 0, height: 0 };
        let mut i: usize = 0;
        while i < n
            invariant
                i <= n,
                n == self.children@.len(),
                n == old(self).children@.len(),
                before_all == old(self)@,
                before_all.children.len() == n,
                at.wf(),
                inner == at.inner,
                self.layout == old(self).layout,
                self.component.model() == settled_component,
                self.key == old(self).key,
                self.props_hash == old(self).props_hash,
                self.render_hash == old(self).render_hash,
                self.render_cache == old(self).render_cache,
                self.dirty == old(self).dirty,
                self.projected == old(self).projected,
                run == NodeModel::content(before_all.children, i as nat, inner, at.layout.direction),
                run.in_range(),
                forall|j: int| i <= j < n ==> self.children@[j] == old(self).children@[j],
                forall|j: int| 0 <= j < n ==> before_all.children[j] == old(self).children@[j]@,
                forall|j: int|
                    0 <= j < i ==> self.children@[j]@ == before_all.children[j].arranged(
                        before_all.children[j].placed_origin(
                            at,
                            NodeModel::content(
                                before_all.children,
                                j as nat,
                                at.inner,
                                at.layout.direction,
                            ),
                        ),
                        before_all.children[j].placed_size(at),
                        at.inner,
                        below,
                    ),
            decreases n - i,
        {
            let child = &mut self.children[i];
            run = child.arrange_in(&at, run, below);
            i += 1;
        }
        self.aabb = aabb;
        self.inner_scale = Some(total);
        proof {
            lemma_view_children(*self);
            reveal(NodeModel::arranged);
            assert(self@.children =~= before_all.arranged(origin, size, avail, context).children);
        }
    }

    /// Lays out the whole tree on a surface of size `frame`.
    pub fn layout(&mut self, frame: Scale, scale_factor: i64)
        ensures
            final(self)@ == old(self)@.laid_out(frame, scale_factor),
    {
        let surface = AABB::new(Pos { x: 0, y: 0, z: 0 }, frame);
        let size = self.measure(surface.size);
        self.arrange(
            Pos { x: 0, y: 0, z: 0 },
            size,
            surface.size,
            BoxContext { parent: surface, frame: surface, scale_factor },
        );
    }
}

} // verus!
