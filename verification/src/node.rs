//! The node tree: one component per node, with its layout intent, its key,
//! its resolved box and its caches.
use vstd::prelude::*;
use crate::layout::Layout;
use crate::renderables::{renderable_models, Renderable, RenderableModel};
use crate::types::{Scale, AABB};

verus! {

/// A type with a mathematical value: for a component, its properties and its state.
pub trait Modeled {
    type Model;

    /// The value of `self`.
    spec fn model(&self) -> Self::Model;
}

/// One entry of the tree.
#[derive(Debug)]
pub struct Node<C> {
    pub component: C,
    pub layout: Layout,
    /// Identifies the node among its siblings from one frame to the next.
    pub key: u64,
    /// The box that the latest layout gave the node.
    pub aabb: AABB,
    /// What the children in flow take up together, as the latest layout found it.
    pub inner_scale: Option<Scale>,
    /// The hash of the properties when the node was last built.
    pub props_hash: Option<u64>,
    /// The hash under which `render_cache` was drawn.
    pub render_hash: Option<u64>,
    /// What the node drew last.
    pub render_cache: Vec<Renderable>,
    /// Whether a handler asked for the node to be drawn again.
    pub dirty: bool,
    /// Whether the first child is the subtree that the component projected
    /// itself into, rather than a child that was pushed.
    pub projected: bool,
    pub children: Vec<Node<C>>,
}

/// The mathematical value of a node and its subtree.
pub struct NodeModel<C: Modeled> {
    pub component: C::Model,
    pub layout: Layout,
    pub key: u64,
    pub aabb: AABB,
    pub inner_scale: Option<Scale>,
    pub props_hash: Option<u64>,
    pub render_hash: Option<u64>,
    pub render_cache: Seq<RenderableModel>,
    pub dirty: bool,
    pub projected: bool,
    pub children: Seq<NodeModel<C>>,
}

impl<C: Modeled> Node<C> {
    /// The value of the node: its own fields and the values of its children.
    pub open spec fn model(&self) -> NodeModel<C>
        decreases self,
    {
        NodeModel {
            component: self.component.model(),
            layout: self.layout,
            key: self.key,
            aabb: self.aabb,
            inner_scale: self.inner_scale,
            props_hash: self.props_hash,
            render_hash: self.render_hash,
            render_cache: renderable_models(self.render_cache@),
            dirty: self.dirty,
            projected: self.projected,
            children: Seq::new(
                self.children@.len(),
                |i: int|
                    if 0 <= i < self.children@.len() {
                        self.children@[i].model()
                    } else {
                        arbitrary()
                    },
            ),
        }
    }
}

impl<C: Modeled> View for Node<C> {
    type V = NodeModel<C>;

    open spec fn view(&self) -> NodeModel<C> {
        self.model()
    }
}

impl<C: Modeled> NodeModel<C> {
    /// A node without children or history.
    pub open spec fn leaf(component: C::Model, layout: Layout) -> NodeModel<C> {
        NodeModel {
            component,
            layout,
            key: 0,
            aabb: AABB::zero(),
            inner_scale: None,
            props_hash: None,
            render_hash: None,
            render_cache: Seq::empty(),
            dirty: true,
            projected: false,
            children: Seq::empty(),
        }
    }

    pub open spec fn keyed(self, key: u64) -> NodeModel<C> {
        NodeModel { key, ..self }
    }

    pub open spec fn pushed(self, child: NodeModel<C>) -> NodeModel<C> {
        NodeModel { children: self.children.push(child), ..self }
    }
}

/// The values of the nodes of `nodes`, in order.
pub open spec fn models<C: Modeled>(nodes: Seq<Node<C>>) -> Seq<NodeModel<C>> {
    Seq::new(nodes.len(), |i: int| nodes[i]@)
}

impl<C: Modeled> Node<C> {
    /// A node for `component` with the layout it asks for.
    pub fn new(component: C, layout: Layout) -> (n: Node<C>)
        ensures
            n@ == NodeModel::<C>::leaf(component.model(), layout),
    {
        let n = Node {
            component,
            layout,
            key: 0,
            aabb: AABB::empty(),
            inner_scale: None,
            props_hash: None,
            render_hash: None,
            render_cache: Vec::new(),
            dirty: true,
            projected: false,
            children: Vec::new(),
        };
        assert(n@.children =~= Seq::empty());
        assert(n@.render_cache =~= Seq::empty());
        n
    }

    /// Sets the key by which the node is recognised among its siblings.
    pub fn key(self, key: u64) -> (n: Node<C>)
        ensures
            n@ == self@.keyed(key),
    {
        let mut n = self;
        n.key = key;
        assert(n@.children =~= self@.children);
        n
    }

    /// Adds a child after those already there.
    pub fn push(self, child: Node<C>) -> (n: Node<C>)
        ensures
            n@ == self@.pushed(child@),
    {
        let mut n = self;
        n.children.push(child);
        assert(n@.children =~= self@.children.push(child@));
        n
    }
}

/// The value of a node lists the values of its children.
pub proof fn lemma_view_children<C: Modeled>(n: Node<C>)
    ensures
        n@.children == models(n.children@),
        n@.children.len() == n.children@.len(),
        forall|i: int| 0 <= i < n.children@.len() ==> n@.children[i] == n.children@[i]@,
{
    assert(n@.children =~= models(n.children@));
}

} // verus!
