//! Building the tree of a frame: every component is projected into its
//! subtree, and every node that continues a node of the previous frame
//! takes over that node's state, box and caches.
//!
//! A node continues a previous node when it stands at the same place among
//! the children of a continued parent, has the same key, and its component
//! accepts the previous one.
use vstd::prelude::*;
use crate::component::{Component, ComponentHasher, HASH_SEED};
use crate::node::{lemma_view_children, Modeled, Node, NodeModel};
use crate::types::AABB;

verus! {

/// How deep components may project themselves into components.
pub const MAX_PROJECTION_DEPTH: usize = 64;

/// `s[i]`, if there is such an element.
pub open spec fn get<X>(s: Seq<X>, i: int) -> Option<X> {
    if 0 <= i < s.len() {
        Some(s[i])
    } else {
        None
    }
}

/// `v` with its elements in the opposite order.
pub fn reversed<X>(v: Vec<X>) -> (r: Vec<X>)
    ensures
        r@ == v@.reverse(),
{
    let mut v = v;
    let ghost all = v@;
    let mut r: Vec<X> = Vec::new();
    while v.len() > 0
        invariant
            v@.len() + r@.len() == all.len(),
            v@ == all.subrange(0, v@.len() as int),
            forall|j: int| 0 <= j < r@.len() ==> r@[j] == all[all.len() - 1 - j],
        decreases v@.len(),
    {
        let x = v.pop().unwrap();
        r.push(x);
    }
    assert(r@ =~= all.reverse());
    r
}

impl<C: Component> NodeModel<C> {
    /// Whether this node continues `previous`.
    pub open spec fn continues(self, previous: NodeModel<C>) -> bool {
        self.key == previous.key && C::compatible(self.component, previous.component)
    }

    /// The hash of the properties of the node.
    pub open spec fn props_key(self) -> Option<u64> {
        C::props_digest(self.component, HASH_SEED)
    }

    /// Whether the projection of `previous` can stand for that of this
    /// node: the properties hash as before and no handler has changed the
    /// state since.
    pub open spec fn reuses(self, previous: NodeModel<C>) -> bool {
        &&& self.continues(previous)
        &&& self.props_key() is Some
        &&& self.props_key() == previous.props_hash
        &&& !previous.dirty
    }

    /// The node itself in the new frame, children aside: a node that
    /// continues `previous` takes over its state, its box and its caches,
    /// and refreshes its state if its properties hash differently; any
    /// other node starts with default state.
    pub open spec fn inherited(self, previous: Option<NodeModel<C>>) -> NodeModel<C> {
        match previous {
            Some(p) => if self.continues(p) {
                let adopted = C::adopted(self.component, p.component);
                NodeModel {
                    component: if self.props_key() is Some && self.props_key() == p.props_hash {
                        adopted
                    } else {
                        C::refreshed(adopted)
                    },
                    aabb: p.aabb,
                    inner_scale: p.inner_scale,
                    props_hash: self.props_key(),
                    render_hash: p.render_hash,
                    render_cache: p.render_cache,
                    dirty: p.dirty,
                    ..self
                }
            } else {
                NodeModel {
                    component: C::initialized(self.component),
                    props_hash: self.props_key(),
                    ..self
                }
            },
            None => NodeModel {
                component: C::initialized(self.component),
                props_hash: self.props_key(),
                ..self
            },
        }
    }

    /// The projection of the previous node, if this node continues it and it had one.
    pub open spec fn previous_own(self, previous: Option<NodeModel<C>>) -> Option<NodeModel<C>> {
        match previous {
            Some(p) => if self.continues(p) && p.projected && p.children.len() > 0 {
                Some(p.children[0])
            } else {
                None
            },
            None => None,
        }
    }

    /// The pushed children of the previous node, if this node continues it.
    pub open spec fn previous_pushed(self, previous: Option<NodeModel<C>>) -> Seq<NodeModel<C>> {
        match previous {
            Some(p) => if self.continues(p) {
                if p.projected && p.children.len() > 0 {
                    p.children.skip(1)
                } else {
                    p.children
                }
            } else {
                Seq::empty()
            },
            None => Seq::empty(),
        }
    }

    /// The projection of the node in the new frame: that of the previous
    /// frame where it can be reused, else what the component projects
    /// itself into, built in turn.  At depth zero nothing is projected.
    pub open spec fn own(self, previous: Option<NodeModel<C>>, depth: nat) -> Option<NodeModel<C>>
        decreases depth, self, 0nat,
    {
        let me = self.inherited(previous);
        let before = self.previous_own(previous);
        if previous matches Some(p) && self.reuses(p) {
            before
        } else if depth == 0 {
            None
        } else {
            match C::viewed(me.component) {
                Some(v) => Some(v.built(before, (depth - 1) as nat)),
                None => None,
            }
        }
    }

    /// The pushed children in the new frame, each built against the
    /// previous child at the same place.
    pub open spec fn pushed_built(self, previous: Option<NodeModel<C>>, depth: nat) -> Seq<
        NodeModel<C>,
    >
        decreases depth, self, 0nat,
    {
        let before = self.previous_pushed(previous);
        Seq::new(
            self.children.len(),
            |i: int|
                if 0 <= i < self.children.len() {
                    self.children[i].built(get(before, i), depth)
                } else {
                    arbitrary()
                },
        )
    }

    /// The subtree of the new frame for this node, described afresh, where
    /// `previous` stood at its place in the previous frame.
    pub open spec fn built(self, previous: Option<NodeModel<C>>, depth: nat) -> NodeModel<C>
        decreases depth, self, 1nat,
    {
        let me = self.inherited(previous);
        let own = self.own(previous, depth);
        NodeModel {
            projected: own is Some,
            children: match own {
                Some(o) => seq![o] + self.pushed_built(previous, depth),
                None => self.pushed_built(previous, depth),
            },
            ..me
        }
    }
}

/// A node that continues its previous incarnation keeps that incarnation's
/// persistent state, box and render cache, provided its own properties hash
/// as before or it declares none; what its siblings look like plays no
/// part.  Where the properties are declared, the component is the new
/// description with the old state moved in and nothing else done to it.
pub proof fn lemma_rebuild_keeps_state<C: Component>(
    node: NodeModel<C>,
    previous: NodeModel<C>,
    depth: nat,
)
    requires
        node.continues(previous),
        node.props_key() is Some ==> node.props_key() == previous.props_hash,
    ensures
        C::same_state(node.built(Some(previous), depth).component, previous.component),
        node.props_key() is Some ==> node.built(Some(previous), depth).component == C::adopted(
            node.component,
            previous.component,
        ),
        node.built(Some(previous), depth).aabb == previous.aabb,
        node.built(Some(previous), depth).render_hash == previous.render_hash,
        node.built(Some(previous), depth).render_cache == previous.render_cache,
{
    if node.props_key() is Some {
        C::lemma_adopted_keeps_state(node.component, previous.component);
    } else {
        C::lemma_undeclared_keeps_state(node.component, previous.component);
    }
}

/// Rebuilding goes child by child: pushed child `i` of the new frame is
/// child `i` of the description built against the pushed child at the same
/// place of the previous frame, and against nothing else.
pub proof fn lemma_rebuild_descends<C: Component>(
    node: NodeModel<C>,
    previous: Option<NodeModel<C>>,
    depth: nat,
    i: int,
)
    requires
        0 <= i < node.children.len(),
    ensures
        ({
            let after = node.built(previous, depth);
            let shift: int = if after.projected {
                1
            } else {
                0
            };
            &&& after.children.len() == node.children.len() + shift
            &&& after.children[i + shift] == node.children[i].built(
                get(node.previous_pushed(previous), i),
                depth,
            )
        }),
{
}

/// A node that is new in this frame starts from its default state.
pub proof fn lemma_new_node_is_initialized<C: Component>(node: NodeModel<C>, depth: nat)
    ensures
        node.built(None, depth).component == C::initialized(node.component),
{
}

/// The value of an optional node.
pub open spec fn node_model<C: Modeled>(n: Option<Node<C>>) -> Option<NodeModel<C>> {
    match n {
        Some(x) => Some(x@),
        None => None,
    }
}

fn same_hash(a: Option<u64>, b: Option<u64>) -> (r: bool)
    ensures
        r == (a is Some && a == b),
{
    match (a, b) {
        (Some(x), Some(y)) => x == y,
        _ => false,
    }
}

impl<C: Component> Node<C> {
    /// The hash of the properties of the node.
    pub fn props_key(&self) -> (r: Option<u64>)
        ensures
            r == self@.props_key(),
    {
        let mut hasher = ComponentHasher::new();
        let declared = self.component.props_hash(&mut hasher);
        if declared {
            Some(hasher.finish())
        } else {
            None
        }
    }

    /// Builds the subtree of the new frame for this node, which has just
    /// been described, where `previous` stood at its place in the previous
    /// frame.  Components project themselves at most `depth` deep.
    pub fn build(self, previous: Option<Node<C>>, depth: usize) -> (r: Node<C>)
        ensures
            r@ == self@.built(node_model(previous), depth as nat),
        decreases depth, self,
    {
        let ghost new = self@;
        let ghost old_model = node_model(previous);
        proof {
            lemma_view_children(self);
        }
        let hash = self.props_key();
        let Node {
            component,
            layout,
            key,
            aabb,
            inner_scale,
            props_hash: _,
            render_hash,
            render_cache,
            dirty,
            projected: _,
            children,
        } = self;
        let mut component = component;
        let mut aabb = aabb;
        let mut inner_scale = inner_scale;
        let mut render_hash = render_hash;
        let mut render_cache = render_cache;
        let mut dirty = dirty;
        let mut before_children: Vec<Node<C>> = Vec::new();
        let mut before_projected = false;
        let mut reuse = false;
        match previous {
            Some(p) => {
                proof {
                    lemma_view_children(p);
                }
                if p.key == key && component.accepts(&p.component) {
                    let same = same_hash(hash, p.props_hash);
                    reuse = same && !p.dirty;
                    let Node {
                        component: pc,
                        layout: _,
                        key: _,
                        aabb: pa,
                        inner_scale: pi,
                        props_hash: _,
                        render_hash: prh,
                        render_cache: prc,
                        dirty: pd,
                        projected: pp,
                        children: pch,
                    } = p;
                    component.adopt(pc);
                    if !same {
                        component.new_props();
                    }
                    aabb = pa;
                    inner_scale = pi;
                    render_hash = prh;
                    render_cache = prc;
                    dirty = pd;
                    before_projected = pp;
                    before_children = pch;
                } else {
                    component.init();
                }
            },
            None => {
                component.init();
            },
        }
        let ghost me = new.inherited(old_model);
        assert(me.component == component.model());
        let mut before_rev = reversed(before_children);
        let before_own: Option<Node<C>> = if before_projected && before_rev.len() > 0 {
            before_rev.pop()
        } else {
            None
        };
        assert(node_model(before_own) == new.previous_own(old_model));
        let ghost before_pushed = new.previous_pushed(old_model);
        assert(before_pushed =~= Seq::new(
            before_rev@.len(),
            |j: int| before_rev@[before_rev@.len() - 1 - j]@,
        ));
        let own: Option<Node<C>> = if reuse {
            before_own
        } else if depth == 0 {
            None
        } else {
            match component.view() {
                Some(v) => Some(v.build(before_own, depth - 1)),
                None => None,
            }
        };
        assert(node_model(own) == new.own(old_model, depth as nat));
        let mut new_rev = reversed(children);
        let n = new_rev.len();
        let ghost m = before_rev@.len();
        let mut out: Vec<Node<C>> = Vec::new();
        let projected = own.is_some();
        if let Some(o) = own {
            out.push(o);
        }
        let ghost shift: int = if projected {
            1
        } else {
            0
        };
        let mut i: usize = 0;
        while i < n
            invariant
                i <= n,
                n == self.children@.len(),
                new == self@,
                new.children.len() == n,
                forall|j: int| 0 <= j < n ==> new.children[j] == self.children@[j]@,
                new_rev@.len() == n - i,
                forall|j: int| 0 <= j < n - i ==> new_rev@[j] == self.children@[n - 1 - j],
                before_pushed.len() == m,
                before_rev@.len() == if i <= m {
                    m - i
                } else {
                    0
                },
                forall|j: int| 0 <= j < before_rev@.len() ==> before_rev@[j]@ == before_pushed[m - 1 - j],
                before_pushed == new.previous_pushed(old_model),
                out@.len() == i + shift,
                shift == if projected {
                    1int
                } else {
                    0int
                },
                projected ==> out@[0]@ == new.own(old_model, depth as nat).unwrap(),
                forall|j: int|
                    0 <= j < i ==> out@[j + shift]@ == new.children[j].built(
                        get(before_pushed, j),
                        depth as nat,
                    ),
            decreases n - i,
        {
            let c = new_rev.pop().unwrap();
            let p = before_rev.pop();
            assert(node_model(p) == get(before_pushed, i as int));
            let b = c.build(p, depth);
            out.push(b);
            i += 1;
        }
        let r = Node {
            component,
            layout,
            key,
            aabb,
            inner_scale,
            props_hash: hash,
            render_hash,
            render_cache,
            dirty,
            projected,
            children: out,
        };
        proof {
            lemma_view_children(r);
            let want = new.built(old_model, depth as nat);
            assert(r@.children =~= want.children);
        }
        r
    }
}

} // verus!
