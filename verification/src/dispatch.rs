//! Event routing: an event is delivered to its target and then bubbles up
//! through the ancestors until a handler stops it.  An event for one node
//! alone is delivered to that node and does not bubble.
use vstd::prelude::*;
use crate::component::Component;
use crate::event::{Event, Message, ReactionModel};
use crate::node::{lemma_view_children, Node, NodeModel};

verus! {

/// What the delivery of one event has brought about.
#[derive(Debug)]
pub struct Delivery {
    /// How many handlers ran (the count stops at `usize::MAX`).
    pub handlers: usize,
    /// Whether the last handler that ran stopped the event.
    pub stopped: bool,
    /// Whether any handler asked to be drawn again.
    pub dirty: bool,
    /// Whether any handler asked for keyboard focus.
    pub focus: bool,
    /// The messages of all handlers, the target's first.
    pub messages: Vec<Message>,
}

/// The mathematical value of a `Delivery`.
pub struct DeliveryModel {
    pub handlers: nat,
    pub stopped: bool,
    pub dirty: bool,
    pub focus: bool,
    pub messages: Seq<Message>,
}

impl View for Delivery {
    type V = DeliveryModel;

    open spec fn view(&self) -> DeliveryModel {
        DeliveryModel {
            handlers: self.handlers as nat,
            stopped: self.stopped,
            dirty: self.dirty,
            focus: self.focus,
            messages: self.messages@,
        }
    }
}

impl DeliveryModel {
    /// Nothing was delivered: the target does not exist.
    pub open spec fn dropped() -> DeliveryModel {
        DeliveryModel {
            handlers: 0,
            stopped: true,
            dirty: false,
            focus: false,
            messages: Seq::empty(),
        }
    }

    /// Nothing has been delivered yet.
    pub open spec fn pending() -> DeliveryModel {
        DeliveryModel {
            handlers: 0,
            stopped: false,
            dirty: false,
            focus: false,
            messages: Seq::empty(),
        }
    }

    /// The delivery after one more handler has answered `reaction`.
    pub open spec fn after(self, reaction: ReactionModel) -> DeliveryModel {
        DeliveryModel {
            handlers: if self.handlers < usize::MAX {
                self.handlers + 1
            } else {
                self.handlers
            },
            stopped: reaction.stop_bubbling,
            dirty: self.dirty || reaction.dirty,
            focus: self.focus || reaction.focus,
            messages: self.messages + reaction.messages,
        }
    }
}

impl<C: Component> NodeModel<C> {
    /// The event as the handler of this node sees it.
    pub open spec fn seen(self, event: Event) -> Event {
        event.at(self.aabb, self.inner_scale)
    }

    /// The node after its own handler has run, and the delivery so far.
    pub open spec fn handled(self, event: Event, so_far: DeliveryModel) -> (
        NodeModel<C>,
        DeliveryModel,
    ) {
        let h = C::handled(self.component, self.seen(event));
        (NodeModel { component: h.0, dirty: self.dirty || h.1.dirty, ..self }, so_far.after(h.1))
    }

    /// The subtree after `event` has been delivered to the node at `path`
    /// and has bubbled up to this node, and what the delivery brought
    /// about.  A path that leads nowhere delivers nothing.
    pub open spec fn dispatched(self, path: Seq<usize>, event: Event) -> (
        NodeModel<C>,
        DeliveryModel,
    )
        decreases path.len(),
    {
        if path.len() == 0 {
            self.handled(event, DeliveryModel::pending())
        } else if path[0] >= self.children.len() {
            (self, DeliveryModel::dropped())
        } else {
            let below = self.children[path[0] as int].dispatched(path.skip(1), event);
            let me = NodeModel { children: self.children.update(path[0] as int, below.0), ..self };
            if below.1.stopped {
                (me, below.1)
            } else {
                me.handled(event, below.1)
            }
        }
    }
}

impl<C: Component> NodeModel<C> {
    /// The subtree after `event` has been delivered to the node at `path`
    /// alone, without bubbling.  A path that leads nowhere delivers nothing.
    pub open spec fn dispatched_solo(self, path: Seq<usize>, event: Event) -> (
        NodeModel<C>,
        DeliveryModel,
    )
        decreases path.len(),
    {
        if path.len() == 0 {
            self.handled(event, DeliveryModel::pending())
        } else if path[0] >= self.children.len() {
            (self, DeliveryModel::dropped())
        } else {
            let below = self.children[path[0] as int].dispatched_solo(path.skip(1), event);
            (NodeModel { children: self.children.update(path[0] as int, below.0), ..self }, below.1)
        }
    }
}

/// An event for one node alone runs the handler of that node and no other.
pub proof fn lemma_solo_runs_one_handler<C: Component>(
    node: NodeModel<C>,
    path: Seq<usize>,
    event: Event,
)
    ensures
        node.dispatched_solo(path, event).1.handlers <= 1,
        path.len() > 0 ==> node.dispatched_solo(path, event).0.component == node.component,
    decreases path.len(),
{
    if path.len() > 0 && path[0] < node.children.len() {
        lemma_solo_runs_one_handler(node.children[path[0] as int], path.skip(1), event);
    }
}

/// A handler that stops the event keeps it from every ancestor: when the
/// target, a child of `node`, stops the event, the component of `node` is
/// left as it was and only the messages of the target come out.
pub proof fn lemma_stop_bubbling_shields_parent<C: Component>(
    node: NodeModel<C>,
    i: usize,
    event: Event,
)
    requires
        i < node.children.len(),
        C::handled(
            node.children[i as int].component,
            node.children[i as int].seen(event),
        ).1.stop_bubbling,
    ensures
        ({
            let after = node.dispatched(seq![i], event);
            let target = node.children[i as int];
            &&& after.0.component == node.component
            &&& after.1.handlers == 1
            &&& after.1.messages == C::handled(target.component, target.seen(event)).1.messages
        }),
{
    reveal_with_fuel(NodeModel::dispatched, 3);
    let path = seq![i];
    assert(path.skip(1) =~= Seq::<usize>::empty());
    let target = node.children[i as int];
    let r = C::handled(target.component, target.seen(event)).1;
    assert(Seq::<Message>::empty() + r.messages =~= r.messages);
}

/// A handler that does not stop the event lets it reach the parent: the
/// handler of `node` runs after that of the target, on the same event, and
/// its messages follow those of the target.
pub proof fn lemma_event_bubbles_to_parent<C: Component>(
    node: NodeModel<C>,
    i: usize,
    event: Event,
)
    requires
        i < node.children.len(),
        !C::handled(
            node.children[i as int].component,
            node.children[i as int].seen(event),
        ).1.stop_bubbling,
    ensures
        ({
            let after = node.dispatched(seq![i], event);
            let target = node.children[i as int];
            let first = C::handled(target.component, target.seen(event));
            let second = C::handled(node.component, node.seen(event));
            &&& after.0.component == second.0
            &&& after.1.handlers == 2
            &&& after.1.messages == first.1.messages + second.1.messages
            &&& after.1.stopped == second.1.stop_bubbling
        }),
{
    reveal_with_fuel(NodeModel::dispatched, 3);
    let path = seq![i];
    assert(path.skip(1) =~= Seq::<usize>::empty());
    let target = node.children[i as int];
    let r = C::handled(target.component, target.seen(event)).1;
    assert(Seq::<Message>::empty() + r.messages =~= r.messages);
}

/// Once the event has been stopped somewhere below, no handler further up
/// runs, however long the way to the root: the component of the root is
/// untouched.
pub proof fn lemma_stopped_below_never_reaches<C: Component>(
    node: NodeModel<C>,
    path: Seq<usize>,
    event: Event,
)
    requires
        path.len() > 0,
        path[0] < node.children.len(),
        node.children[path[0] as int].dispatched(path.skip(1), event).1.stopped,
    ensures
        node.dispatched(path, event).0.component == node.component,
        node.dispatched(path, event).1 == node.children[path[0] as int].dispatched(
            path.skip(1),
            event,
        ).1,
{
}

/// Delivery changes no box, no key and no layout, and keeps every child in place.
pub proof fn lemma_dispatch_keeps_shape<C: Component>(
    node: NodeModel<C>,
    path: Seq<usize>,
    event: Event,
)
    ensures
        node.dispatched(path, event).0.aabb == node.aabb,
        node.dispatched(path, event).0.key == node.key,
        node.dispatched(path, event).0.layout == node.layout,
        node.dispatched(path, event).0.children.len() == node.children.len(),
    decreases path.len(),
{
    if path.len() > 0 && path[0] < node.children.len() {
        lemma_dispatch_keeps_shape(node.children[path[0] as int], path.skip(1), event);
    }
}

impl<C: Component> Node<C> {
    /// Runs the handler of this node.
    fn handle(&mut self, event: &Event, so_far: Delivery) -> (r: Delivery)
        ensures
            (final(self)@, r@) == old(self)@.handled(*event, so_far@),
    {
        proof {
            lemma_view_children(*self);
        }
        let seen = event.for_node(self.aabb, self.inner_scale);
        let mut reaction = self.component.on_event(&seen);
        if reaction.dirty {
            self.dirty = true;
        }
        let mut r = so_far;
        if r.handlers < usize::MAX {
            r.handlers = r.handlers + 1;
        }
        r.stopped = reaction.stop_bubbling;
        r.dirty = r.dirty || reaction.dirty;
        r.focus = r.focus || reaction.focus;
        r.messages.append(&mut reaction.messages);
        proof {
            lemma_view_children(*self);
            assert(self@.children =~= old(self)@.children);
        }
        r
    }

    /// Delivers `event` to the node at `path[depth..]` below this node and
    /// lets it bubble up to this node.
    pub(crate) fn dispatch_from(&mut self, path: &Vec<usize>, depth: usize, event: &Event) -> (r:
        Delivery)
        requires
            depth <= path@.len(),
        ensures
            (final(self)@, r@) == old(self)@.dispatched(
                path@.subrange(depth as int, path@.len() as int),
                *event,
            ),
        decreases path@.len() - depth,
    {
        let ghost rest = path@.subrange(depth as int, path@.len() as int);
        proof {
            lemma_view_children(*self);
        }
        if depth == path.len() {
            let start = Delivery {
                handlers: 0,
                stopped: false,
                dirty: false,
                focus: false,
                messages: Vec::new(),
            };
            return self.handle(event, start);
        }
        let i = path[depth];
        assert(rest[0] == i);
        assert(rest.skip(1) =~= path@.subrange(depth + 1, path@.len() as int));
        if i >= self.children.len() {
            return Delivery {
                handlers: 0,
                stopped: true,
                dirty: false,
                focus: false,
                messages: Vec::new(),
            };
        }
        let ghost before = self@;
        let child = &mut self.children[i];
        let below = child.dispatch_from(path, depth + 1, event);
        proof {
            lemma_view_children(*self);
            assert(self@.children =~= before.children.update(
                i as int,
                before.children[i as int].dispatched(rest.skip(1), *event).0,
            ));
        }
        if below.stopped {
            below
        } else {
            self.handle(event, below)
        }
    }

    /// Delivers `event` to the node at `path[depth..]` below this node alone.
    pub(crate) fn dispatch_solo_from(&mut self, path: &Vec<usize>, depth: usize, event: &Event) -> (r:
        Delivery)
        requires
            depth <= path@.len(),
        ensures
            (final(self)@, r@) == old(self)@.dispatched_solo(
                path@.subrange(depth as int, path@.len() as int),
                *event,
            ),
        decreases path@.len() - depth,
    {
        let ghost rest = path@.subrange(depth as int, path@.len() as int);
        proof {
            lemma_view_children(*self);
        }
        if depth == path.len() {
            let start = Delivery {
                handlers: 0,
                stopped: false,
                dirty: false,
                focus: false,
                messages: Vec::new(),
            };
            return self.handle(event, start);
        }
        let i = path[depth];
        assert(rest[0] == i);
        assert(rest.skip(1) =~= path@.subrange(depth + 1, path@.len() as int));
        if i >= self.children.len() {
            return Delivery {
                handlers: 0,
                stopped: true,
                dirty: false,
                focus: false,
                messages: Vec::new(),
            };
        }
        let ghost before = self@;
        let child = &mut self.children[i];
        let below = child.dispatch_solo_from(path, depth + 1, event);
        proof {
            lemma_view_children(*self);
            assert(self@.children =~= before.children.update(
                i as int,
                before.children[i as int].dispatched_solo(rest.skip(1), *event).0,
            ));
        }
        below
    }

    /// Delivers `event` to the node at `path` alone.
    pub fn dispatch_solo(&mut self, path: &Vec<usize>, event: &Event) -> (r: Delivery)
        ensures
            (final(self)@, r@) == old(self)@.dispatched_solo(path@, *event),
    {
        assert(path@.subrange(0, path@.len() as int) =~= path@);
        self.dispatch_solo_from(path, 0, event)
    }

    /// Delivers `event` to the node at `path` and lets it bubble up to the
    /// root unless a handler stops it.
    pub fn dispatch(&mut self, path: &Vec<usize>, event: &Event) -> (r: Delivery)
        ensures
            (final(self)@, r@) == old(self)@.dispatched(path@, *event),
    {
        assert(path@.subrange(0, path@.len() as int) =~= path@);
        self.dispatch_from(path, 0, event)
    }
}

} // verus!
