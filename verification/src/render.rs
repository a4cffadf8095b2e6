//! The render pass: every node draws itself unless what decides its pixels
//! is unchanged, in which case what it drew before stands.
use vstd::prelude::*;
use crate::component::{mixed, Component, ComponentHasher, RenderContext, HASH_SEED};
use crate::node::{lemma_view_children, Node, NodeModel};
use crate::renderables::{renderable_models, Renderable};
use crate::types::AABB;

verus! {

/// `n`, or `usize::MAX` if `n` is larger.
pub open spec fn capped(n: nat) -> usize {
    if n > usize::MAX {
        usize::MAX
    } else {
        n as usize
    }
}

/// A signed number as a word for hashing: different numbers give different words.
pub open spec fn word(v: i64) -> u64 {
    if v >= 0 {
        v as u64
    } else {
        (u64::MAX - (-(v + 1))) as u64
    }
}

pub fn to_word(v: i64) -> (r: u64)
    ensures
        r == word(v),
{
    if v >= 0 {
        v as u64
    } else {
        u64::MAX - ((-(v + 1)) as u64)
    }
}

/// The hash state after the box and the scale factor have been written.
pub open spec fn mixed_box(state: u64, aabb: AABB, scale_factor: i64) -> u64 {
    mixed(
        mixed(
            mixed(
                mixed(
                    mixed(mixed(state, word(aabb.pos.x)), word(aabb.pos.y)),
                    word(aabb.pos.z),
                ),
                word(aabb.size.width),
            ),
            word(aabb.size.height),
        ),
        word(scale_factor),
    )
}

impl<C: Component> NodeModel<C> {
    /// What the component is told when it draws.
    pub open spec fn render_context(self, scale_factor: i64) -> RenderContext {
        RenderContext { aabb: self.aabb, inner_scale: self.inner_scale, scale_factor }
    }

    /// The hash of everything that decides the pixels of the node: what the
    /// component declares, the resolved box and the scale factor.  `None`
    /// if the component declares nothing.
    pub open spec fn render_key(self, scale_factor: i64) -> Option<u64> {
        match C::render_digest(self.component, HASH_SEED) {
            Some(h) => Some(mixed_box(h, self.aabb, scale_factor)),
            None => None,
        }
    }

    /// Whether the node can keep what it drew before.
    pub open spec fn keeps_cache(self, scale_factor: i64) -> bool {
        self.render_key(scale_factor) is Some && self.render_key(scale_factor) == self.render_hash
    }

    /// The node after the render pass, children aside.
    pub open spec fn drawn_self(self, scale_factor: i64) -> NodeModel<C> {
        if self.keeps_cache(scale_factor) {
            NodeModel { dirty: false, ..self }
        } else {
            let r = C::rendered(self.component, self.render_context(scale_factor));
            NodeModel {
                component: r.0,
                render_hash: self.render_key(scale_factor),
                render_cache: match r.1 {
                    Some(v) => v,
                    None => Seq::empty(),
                },
                dirty: false,
                ..self
            }
        }
    }

    /// How many components of the subtree the render pass asks to draw.
    pub open spec fn redrawn(self, scale_factor: i64) -> nat
        decreases self, 1nat,
    {
        Self::redrawn_among(self.children, self.children.len(), scale_factor) + if self.keeps_cache(
            scale_factor,
        ) {
            0nat
        } else {
            1nat
        }
    }

    /// How many components of the first `n` subtrees of `nodes` draw.
    pub open spec fn redrawn_among(nodes: Seq<NodeModel<C>>, n: nat, scale_factor: i64) -> nat
        decreases nodes, n,
    {
        if n == 0 || n > nodes.len() {
            0
        } else {
            Self::redrawn_among(nodes, (n - 1) as nat, scale_factor) + nodes[n - 1].redrawn(
                scale_factor,
            )
        }
    }

    /// The subtree after the render pass.
    pub open spec fn drawn(self, scale_factor: i64) -> NodeModel<C>
        decreases self,
    {
        NodeModel {
            children: Seq::new(
                self.children.len(),
                |i: int|
                    if 0 <= i < self.children.len() {
                        self.children[i].drawn(scale_factor)
                    } else {
                        arbitrary()
                    },
            ),
            ..self.drawn_self(scale_factor)
        }
    }
}

/// A node whose declared inputs, box and scale factor hash as they did when
/// it last drew is not asked to draw again: its component is untouched and
/// its cache comes back as it was.
pub proof fn lemma_unchanged_hash_skips_render<C: Component>(node: NodeModel<C>, scale_factor: i64)
    requires
        node.render_key(scale_factor) is Some,
        node.render_key(scale_factor) == node.render_hash,
    ensures
        node.drawn(scale_factor).component == node.component,
        node.drawn(scale_factor).render_cache == node.render_cache,
        node.drawn(scale_factor).render_hash == node.render_hash,
{
}

/// A node that has just drawn keeps its cache when the pass runs again,
/// provided drawing left what it declares as inputs alone.
pub proof fn lemma_second_pass_reuses<C: Component>(node: NodeModel<C>, scale_factor: i64)
    requires
        C::render_digest(node.component, HASH_SEED) is Some,
        C::render_digest(
            C::rendered(node.component, node.render_context(scale_factor)).0,
            HASH_SEED,
        ) == C::render_digest(node.component, HASH_SEED),
    ensures
        ({
            let once = node.drawn(scale_factor);
            let twice = once.drawn(scale_factor);
            &&& twice.component == once.component
            &&& twice.render_cache == once.render_cache
        }),
{
}

/// A component that declares no inputs is drawn on every pass.
pub proof fn lemma_undeclared_always_draws<C: Component>(node: NodeModel<C>, scale_factor: i64)
    requires
        C::render_digest(node.component, HASH_SEED) is None,
    ensures
        node.drawn(scale_factor).component == C::rendered(
            node.component,
            node.render_context(scale_factor),
        ).0,
{
}

impl<C: Component> Node<C> {
    /// The hash of everything that decides the pixels of the node.
    pub fn render_key(&self, scale_factor: i64) -> (r: Option<u64>)
        ensures
            r == self@.render_key(scale_factor),
    {
        let mut hasher = ComponentHasher::new();
        let declared = self.component.render_hash(&mut hasher);
        if declared {
            hasher.write_u64(to_word(self.aabb.pos.x));
            hasher.write_u64(to_word(self.aabb.pos.y));
            hasher.write_u64(to_word(self.aabb.pos.z));
            hasher.write_u64(to_word(self.aabb.size.width));
            hasher.write_u64(to_word(self.aabb.size.height));
            hasher.write_u64(to_word(scale_factor));
            Some(hasher.finish())
        } else {
            None
        }
    }

    /// Runs the render pass over the subtree; answers how many components
    /// drew (the count stops at `usize::MAX`).
    pub fn render(&mut self, scale_factor: i64) -> (rendered: usize)
        ensures
            final(self)@ == old(self)@.drawn(scale_factor),
            rendered == capped(old(self)@.redrawn(scale_factor)),
        decreases *old(self),
    {
        let ghost before = self@;
        proof {
            lemma_view_children(*self);
        }
        let mut count: usize = 0;
        let key = self.render_key(scale_factor);
        let keep = match (key, self.render_hash) {
            (Some(a), Some(b)) => a == b,
            _ => false,
        };
        if !keep {
            let context = RenderContext {
                aabb: self.aabb,
                inner_scale: self.inner_scale,
                scale_factor,
            };
            let out = self.component.render(context);
            self.render_cache = match out {
                Some(v) => v,
                None => Vec::new(),
            };
            self.render_hash = key;
            count = 1;
        }
        self.dirty = false;
        let ghost me = before.drawn_self(scale_factor);
        assert(self.component.model() == me.component);
        assert(renderable_models(self.render_cache@) =~= me.render_cache);
        let n = self.children.len();
        let mut i: usize = 0;
        while i < n
            invariant
                i <= n,
                n == self.children@.len(),
                n == old(self).children@.len(),
                before == old(self)@,
                before.children.len() == n,
                me == before.drawn_self(scale_factor),
                self.component.model() == me.component,
                self.layout == me.layout,
                self.key == me.key,
                self.aabb == me.aabb,
                self.inner_scale == me.inner_scale,
                self.props_hash == me.props_hash,
                self.render_hash == me.render_hash,
                renderable_models(self.render_cache@) == me.render_cache,
                self.dirty == me.dirty,
                self.projected == me.projected,
                forall|j: int| i <= j < n ==> self.children@[j] == old(self).children@[j],
                forall|j: int| 0 <= j < n ==> before.children[j] == old(self).children@[j]@,
                forall|j: int|
                    0 <= j < i ==> self.children@[j]@ == before.children[j].drawn(scale_factor),
                count == capped(
                    NodeModel::redrawn_among(before.children, i as nat, scale_factor) + if keep {
                        0nat
                    } else {
                        1nat
                    },
                ),
                keep == before.keeps_cache(scale_factor),
            decreases n - i,
        {
            let child = &mut self.children[i];
            let c = child.render(scale_factor);
            count = count.saturating_add(c);
            i += 1;
        }
        proof {
            lemma_view_children(*self);
            assert(self@.children =~= before.drawn(scale_factor).children);
        }
        count
    }

    /// What the node drew last.
    pub fn renderables(&self) -> (r: &Vec<Renderable>)
        ensures
            renderable_models(r@) == self@.render_cache,
    {
        proof {
            lemma_view_children(*self);
        }
        &self.render_cache
    }
}

} // verus!
