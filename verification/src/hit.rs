//! Hit testing: which node of the laid-out tree lies under a point.
//!
//! The answer is a path of child indices from the root.  The deepest node
//! under the point wins.  Among siblings under the point the one with the
//! larger depth wins, and among those of equal depth the later one.  A
//! child in flow is clipped by the box of its parent; a child taken out of
//! the flow is not.
use vstd::prelude::*;
use crate::component::Component;
use crate::layout::{PositionType, ScrollPosition};
use crate::node::{lemma_view_children, Node, NodeModel};
use crate::types::{coord, to_coord, Point};

verus! {

/// What a sibling search has found so far: the index of the child and the
/// path below it.
pub struct Found {
    pub index: usize,
    pub path: Seq<usize>,
}

/// `p` as the content of a container scrolled by `scroll` sees it.
pub open spec fn scrolled_point(p: Point, scroll: Option<ScrollPosition>) -> Point {
    match scroll {
        Some(s) => Point {
            x: match s.x {
                Some(dx) => coord(coord(p.x as int) + coord(dx as int)) as i64,
                None => p.x,
            },
            y: match s.y {
                Some(dy) => coord(coord(p.y as int) + coord(dy as int)) as i64,
                None => p.y,
            },
        },
        None => p,
    }
}

pub fn scroll_point(p: Point, scroll: Option<ScrollPosition>) -> (q: Point)
    ensures
        q == scrolled_point(p, scroll),
{
    match scroll {
        Some(s) => Point {
            x: match s.x {
                Some(dx) => to_coord(to_coord(p.x) + to_coord(dx)),
                None => p.x,
            },
            y: match s.y {
                Some(dy) => to_coord(to_coord(p.y) + to_coord(dy)),
                None => p.y,
            },
        },
        None => p,
    }
}

impl<C: Component> NodeModel<C> {
    /// Whether child `i` takes part in hit testing.
    pub open spec fn takes_part(self, i: usize) -> bool {
        if C::controls(self.component) {
            match C::contained(self.component) {
                Some(only) => only.contains(i),
                None => true,
            }
        } else {
            true
        }
    }

    /// The point as the children see it: moved by the scroll position if
    /// the component has full control.
    pub open spec fn point_below(self, p: Point) -> Point {
        if C::controls(self.component) {
            scrolled_point(p, C::scrolled(self.component))
        } else {
            p
        }
    }

    /// The path to the node under `p`, if there is one in this subtree.
    pub open spec fn hit(self, p: Point) -> Option<Seq<usize>>
        decreases self, 0nat,
    {
        match Self::hit_among(
            self.children,
            self.children.len(),
            self,
            p,
        ) {
            Some(found) => Some(seq![found.index] + found.path),
            None => if self.aabb.contains(p) {
                Some(Seq::empty())
            } else {
                None
            },
        }
    }

    /// Whether child `i` of `parent` may be under `p` at all.
    pub open spec fn reachable(parent: NodeModel<C>, i: usize, p: Point) -> bool {
        &&& i < parent.children.len()
        &&& parent.takes_part(i)
        &&& (parent.children[i as int].layout.position_type is Absolute || parent.aabb.contains(p))
    }

    /// The best hit among the first `n` nodes of `children`, the children of `parent`.
    pub open spec fn hit_among(
        children: Seq<NodeModel<C>>,
        n: nat,
        parent: NodeModel<C>,
        p: Point,
    ) -> Option<Found>
        decreases children, n,
    {
        if n == 0 || n > children.len() || n > usize::MAX {
            None
        } else {
            let i = (n - 1) as usize;
            let before = Self::hit_among(children, (n - 1) as nat, parent, p);
            if children == parent.children && Self::reachable(parent, i, p) {
                match children[i as int].hit(parent.point_below(p)) {
                    Some(path) => match before {
                        Some(f) => if f.index < children.len() && children[f.index as int].aabb.pos.z
                            > children[i as int].aabb.pos.z {
                            before
                        } else {
                            Some(Found { index: i, path })
                        },
                        None => Some(Found { index: i, path }),
                    },
                    None => before,
                }
            } else {
                before
            }
        }
    }

    /// The node at the end of `path`, if the path exists in the tree.
    pub open spec fn at(self, path: Seq<usize>) -> Option<NodeModel<C>>
        decreases path.len(),
    {
        if path.len() == 0 {
            Some(self)
        } else if path[0] < self.children.len() {
            self.children[path[0] as int].at(path.skip(1))
        } else {
            None
        }
    }
}

/// A node without children is hit exactly by the points inside its box.
pub proof fn lemma_leaf_hit<C: Component>(node: NodeModel<C>, p: Point)
    requires
        node.children.len() == 0,
    ensures
        node.hit(p) == if node.aabb.contains(p) {
            Some(Seq::<usize>::empty())
        } else {
            None
        },
{
}

/// A hit always names a node of the tree.
pub proof fn lemma_hit_names_a_node<C: Component>(node: NodeModel<C>, p: Point)
    ensures
        node.hit(p) matches Some(path) ==> node.at(path) is Some,
    decreases node, 1nat,
{
    match NodeModel::hit_among(node.children, node.children.len(), node, p) {
        Some(found) => {
            lemma_among_names_a_node(node.children, node.children.len(), node, p);
            let path = seq![found.index] + found.path;
            assert(path.skip(1) =~= found.path);
        },
        None => {},
    }
}

pub proof fn lemma_among_names_a_node<C: Component>(
    children: Seq<NodeModel<C>>,
    n: nat,
    parent: NodeModel<C>,
    p: Point,
)
    ensures
        NodeModel::hit_among(children, n, parent, p) matches Some(f) ==> children
            == parent.children && f.index < children.len() && children[f.index as int].at(f.path)
            is Some,
    decreases children, n,
{
    if n == 0 || n > children.len() || n > usize::MAX {
    } else {
        let i = (n - 1) as usize;
        lemma_among_names_a_node(children, (n - 1) as nat, parent, p);
        if children == parent.children && NodeModel::reachable(parent, i, p) {
            lemma_hit_names_a_node(children[i as int], parent.point_below(p));
        }
    }
}

/// What a sibling search finds is a hit in the child it names.
pub proof fn lemma_among_is_a_hit<C: Component>(
    children: Seq<NodeModel<C>>,
    n: nat,
    parent: NodeModel<C>,
    p: Point,
)
    ensures
        NodeModel::hit_among(children, n, parent, p) matches Some(f) ==> f.index < children.len()
            && children[f.index as int].hit(parent.point_below(p)) == Some(f.path),
    decreases n,
{
    if n == 0 || n > children.len() || n > usize::MAX {
    } else {
        lemma_among_is_a_hit(children, (n - 1) as nat, parent, p);
    }
}

/// The node that is hit lies under the point: where no component scrolls
/// its content, the box of the node at the end of the path holds the point.
pub proof fn lemma_hit_is_under_the_point<C: Component>(node: NodeModel<C>, p: Point)
    requires
        node.arranged_by_the_engine(),
    ensures
        node.hit(p) matches Some(path) ==> node.at(path) matches Some(target)
            && target.aabb.contains(p),
    decreases node,
{
    match NodeModel::hit_among(node.children, node.children.len(), node, p) {
        Some(found) => {
            lemma_among_is_a_hit(node.children, node.children.len(), node, p);
            let child = node.children[found.index as int];
            lemma_hit_is_under_the_point(child, p);
            let path = seq![found.index] + found.path;
            assert(path.skip(1) =~= found.path);
        },
        None => {},
    }
}

/// A child that holds the point keeps the hit from its parent: when a
/// child in the box of its parent lies under the point, the hit leads into
/// one of the children.
pub proof fn lemma_child_under_point_is_hit<C: Component>(node: NodeModel<C>, i: usize, p: Point)
    requires
        i < node.children.len() <= usize::MAX,
        node.arranged_by_the_engine(),
        node.aabb.contains(p),
        node.children[i as int].aabb.contains(p),
    ensures
        node.hit(p) matches Some(path) && path.len() > 0,
{
    lemma_contains_is_hit(node.children[i as int], p);
    lemma_hit_among_finds(node, node.children.len(), i, p);
}

/// A node whose box holds the point is hit, itself or one of its descendants.
pub proof fn lemma_contains_is_hit<C: Component>(node: NodeModel<C>, p: Point)
    requires
        node.aabb.contains(p),
    ensures
        node.hit(p) is Some,
{
}

/// Once a child has been found to be hit, the search among its siblings
/// does not come back empty.
pub proof fn lemma_hit_among_finds<C: Component>(node: NodeModel<C>, n: nat, i: usize, p: Point)
    requires
        i < n <= node.children.len() <= usize::MAX,
        node.arranged_by_the_engine(),
        node.aabb.contains(p),
        node.children[i as int].hit(p) is Some,
    ensures
        NodeModel::hit_among(node.children, n, node, p) is Some,
    decreases n,
{
    if n > i + 1 {
        lemma_hit_among_finds(node, (n - 1) as nat, i, p);
    }
}

/// A point outside the box of a node whose children are all in flow hits
/// nothing in the subtree: content in flow is clipped by its parent.
pub proof fn lemma_outside_hits_nothing<C: Component>(node: NodeModel<C>, p: Point)
    requires
        !node.aabb.contains(p),
        forall|i: int| 0 <= i < node.children.len() ==> node.children[i].layout.in_flow(),
    ensures
        node.hit(p) is None,
{
    lemma_outside_among(node, node.children.len(), p);
}

pub proof fn lemma_outside_among<C: Component>(node: NodeModel<C>, n: nat, p: Point)
    requires
        !node.aabb.contains(p),
        forall|i: int| 0 <= i < node.children.len() ==> node.children[i].layout.in_flow(),
    ensures
        NodeModel::hit_among(node.children, n, node, p) is None,
    decreases n,
{
    if n == 0 || n > node.children.len() || n > usize::MAX {
    } else {
        lemma_outside_among(node, (n - 1) as nat, p);
    }
}

impl<C: Component> Node<C> {
    fn takes_part(only: &Option<Vec<usize>>, controlled: bool, i: usize) -> (r: bool)
        ensures
            r == (if controlled {
                match only {
                    Some(v) => v@.contains(i),
                    None => true,
                }
            } else {
                true
            }),
    {
        if !controlled {
            return true;
        }
        match only {
            None => true,
            Some(v) => {
                let mut k: usize = 0;
                while k < v.len()
                    invariant
                        k <= v.len(),
                        controlled,
                        *only == Some(*v),
                        forall|j: int| 0 <= j < k ==> v@[j] != i,
                    decreases v.len() - k,
                {
                    if v[k] == i {
                        assert(v@[k as int] == i);
                        return true;
                    }
                    k += 1;
                }
                false
            },
        }
    }

    /// The path to the node under `p`, if there is one in this subtree.
    pub fn hit_test(&self, p: Point) -> (r: Option<Vec<usize>>)
        ensures
            r is Some == self@.hit(p) is Some,
            r matches Some(path) ==> self@.hit(p) == Some(path@),
        decreases self,
    {
        proof {
            lemma_view_children(*self);
        }
        let controlled = self.component.full_control();
        let only = if controlled {
            self.component.container()
        } else {
            None
        };
        let below = if controlled {
            scroll_point(p, self.component.scroll_position())
        } else {
            p
        };
        let inside = self.aabb.is_under(p);
        let n = self.children.len();
        let mut best: Option<(usize, Vec<usize>)> = None;
        let mut i: usize = 0;
        while i < n
            invariant
                i <= n,
                n == self.children@.len(),
                self@.children.len() == n,
                forall|j: int| 0 <= j < n ==> self@.children[j] == self.children@[j]@,
                controlled == C::controls(self@.component),
                controlled ==> (only is Some == C::contained(self@.component) is Some),
                controlled ==> (only matches Some(v) ==> C::contained(self@.component) == Some(v@)),
                below == self@.point_below(p),
                inside == self@.aabb.contains(p),
                best is Some == NodeModel::hit_among(self@.children, i as nat, self@, p) is Some,
                best matches Some(b) ==> NodeModel::hit_among(self@.children, i as nat, self@, p)
                    == Some(Found { index: b.0, path: b.1@ }) && b.0 < n,
            decreases n - i,
        {
            let child = &self.children[i];
            let absolute = match child.layout.position_type {
                PositionType::Absolute => true,
                PositionType::Relative => false,
            };
            if Self::takes_part(&only, controlled, i) && (absolute || inside) {
                match child.hit_test(below) {
                    Some(path) => {
                        let keep = match &best {
                            Some(b) => self.children[b.0].aabb.pos.z > child.aabb.pos.z,
                            None => false,
                        };
                        if !keep {
                            best = Some((i, path));
                        }
                    },
                    None => {},
                }
            }
            i += 1;
        }
        match best {
            Some(b) => {
                let mut path = b.1;
                path.insert(0, b.0);
                assert(path@ =~= seq![b.0] + b.1@);
                Some(path)
            },
            None => if inside {
                Some(Vec::new())
            } else {
                None
            },
        }
    }
}

} // verus!
