//! The driver of a user interface: it owns the tree from frame to frame
//! and takes it through the steps of a frame.
use vstd::prelude::*;
use crate::component::Component;
use crate::dispatch::{Delivery, DeliveryModel};
use crate::event::{Event, EventKind, Message};
use crate::gesture::{
    emitted_models, path_model, Emitted, EmittedModel, Gesture, GestureModel, PointerInput, Sample,
    SampleModel,
};
use crate::input::{Button, Input, Motion, MouseButton, TouchAction};
use crate::node::{lemma_view_children, Node, NodeModel};
use crate::reconcile::{node_model, MAX_PROJECTION_DEPTH};
use crate::types::{PixelSize, Point, Scale};

verus! {

/// What the handling of input or of a message has brought about.
#[derive(Debug)]
pub struct Outcome {
    /// The messages for the application, in the order in which they were emitted.
    pub messages: Vec<Message>,
    /// Whether anything asked to be drawn again.
    pub redraw: bool,
    /// Whether the application is to end.
    pub exit: bool,
}

pub struct OutcomeModel {
    pub messages: Seq<Message>,
    pub redraw: bool,
    pub exit: bool,
}

impl View for Outcome {
    type V = OutcomeModel;

    open spec fn view(&self) -> OutcomeModel {
        OutcomeModel { messages: self.messages@, redraw: self.redraw, exit: self.exit }
    }
}

impl OutcomeModel {
    pub open spec fn nothing() -> OutcomeModel {
        OutcomeModel { messages: Seq::empty(), redraw: false, exit: false }
    }

    /// The outcome with what one delivery brought about added.
    pub open spec fn with(self, d: DeliveryModel) -> OutcomeModel {
        OutcomeModel {
            messages: self.messages + d.messages,
            redraw: self.redraw || d.dirty,
            ..self
        }
    }
}

/// The user interface of one surface.
#[derive(Debug)]
pub struct UI<C> {
    /// The tree of the latest frame.
    pub root: Option<Node<C>>,
    /// The size of the surface in logical units.
    pub size: PixelSize,
    /// The factor between logical and physical units.
    pub scale_factor: i64,
    pub pointer: Gesture,
    pub touch: Gesture,
    /// The node that holds the keyboard focus.
    pub focus: Option<Vec<usize>>,
    /// Whether the tree has to be built and laid out again.
    pub stale: bool,
}

/// The mathematical value of a `UI`.
pub struct UIModel<C: crate::node::Modeled> {
    pub root: Option<NodeModel<C>>,
    pub size: PixelSize,
    pub scale_factor: i64,
    pub pointer: GestureModel,
    pub touch: GestureModel,
    pub focus: Option<Seq<usize>>,
    pub stale: bool,
}

impl<C: crate::node::Modeled> View for UI<C> {
    type V = UIModel<C>;

    open spec fn view(&self) -> UIModel<C> {
        UIModel {
            root: node_model(self.root),
            size: self.size,
            scale_factor: self.scale_factor,
            pointer: self.pointer@,
            touch: self.touch@,
            focus: path_model(self.focus),
            stale: self.stale,
        }
    }
}

/// The size of the surface as the layout engine takes it.
pub open spec fn frame_of(size: PixelSize) -> Scale {
    Scale { width: size.width as i64, height: size.height as i64 }
}

impl<C: Component> NodeModel<C> {
    /// The node that has claimed a drag: the one whose handler stopped the
    /// start of the drag that was sent to `target`, where `handlers`
    /// handlers ran on the way up from the target.
    pub open spec fn claimant(e: EmittedModel, d: DeliveryModel) -> Option<Seq<usize>> {
        if (e.event.kind is DragStart || e.event.kind is TouchDragStart) && d.stopped && 1
            <= d.handlers <= e.target.len() + 1 {
            Some(e.target.take(e.target.len() + 1 - d.handlers))
        } else {
            None
        }
    }

    /// The event `e` as it is sent when the drag has been claimed by the
    /// node at `claim` while its start was delivered: what follows the
    /// start of the drag goes to that node alone.
    pub open spec fn redirected(e: EmittedModel, claim: Option<Seq<usize>>) -> EmittedModel {
        match claim {
            Some(c) => if !e.solo && (e.event.kind is Drag || e.event.kind is TouchDrag
                || e.event.kind is DragEnd || e.event.kind is TouchDragEnd) {
                EmittedModel { target: c, solo: true, ..e }
            } else {
                e
            },
            None => e,
        }
    }

    /// The tree after every event of `events` has been delivered in order,
    /// each stamped with the time `now_ms`, and what that brought about on
    /// top of `so_far`: the outcome, the target of the latest delivery that
    /// asked for the keyboard focus, and the node that claimed a drag, if
    /// any did.  An event that is marked as being for its target alone
    /// does not bubble.
    pub open spec fn delivered(
        self,
        events: Seq<EmittedModel>,
        now_ms: u64,
        so_far: OutcomeModel,
        focus: Option<Seq<usize>>,
        claim: Option<Seq<usize>>,
    ) -> (NodeModel<C>, OutcomeModel, Option<Seq<usize>>, Option<Seq<usize>>)
        decreases events.len(),
    {
        if events.len() == 0 {
            (self, so_far, focus, claim)
        } else {
            let before = self.delivered(events.drop_last(), now_ms, so_far, focus, claim);
            let e = Self::redirected(events.last(), before.3);
            let stamped = Event { time_ms: now_ms, ..e.event };
            let d = if e.solo {
                before.0.dispatched_solo(e.target, stamped)
            } else {
                before.0.dispatched(e.target, stamped)
            };
            (
                d.0,
                before.1.with(d.1),
                if d.1.focus {
                    Some(e.target)
                } else {
                    before.2
                },
                match Self::claimant(e, d.1) {
                    Some(c) => Some(c),
                    None => before.3,
                },
            )
        }
    }

    /// The tree after `message` has been handed to every component, a node
    /// before its children, and the messages that they answer with.
    pub open spec fn updated(self, message: Message) -> (NodeModel<C>, Seq<Message>)
        decreases self, 1nat,
    {
        let me = C::updated(self.component, message);
        let below = Self::updated_among(self.children, self.children.len(), message);
        (NodeModel { component: me.0, children: below.0, ..self }, me.1 + below.1)
    }

    /// The first `n` nodes of `nodes` after `message`, followed by the
    /// rest as they were, and the messages of the first `n`.
    pub open spec fn updated_among(nodes: Seq<NodeModel<C>>, n: nat, message: Message) -> (
        Seq<NodeModel<C>>,
        Seq<Message>,
    )
        decreases nodes, n,
    {
        if n == 0 || n > nodes.len() {
            (nodes, Seq::empty())
        } else {
            let before = Self::updated_among(nodes, (n - 1) as nat, message);
            let last = nodes[n - 1].updated(message);
            (before.0.update(n - 1, last.0), before.1 + last.1)
        }
    }
}

impl<C: Component> NodeModel<C> {
    /// Whether `after` can be this subtree once every component of it
    /// has done what it leaves to chance: the tree keeps its shape, every
    /// node its box, its key, its layout and its caches, and every
    /// component is one of the outcomes that its own rules allow.
    pub open spec fn randomized(self, after: NodeModel<C>) -> bool
        decreases self,
    {
        &&& C::randomized(self.component, after.component)
        &&& after.layout == self.layout
        &&& after.key == self.key
        &&& after.aabb == self.aabb
        &&& after.inner_scale == self.inner_scale
        &&& after.props_hash == self.props_hash
        &&& after.render_hash == self.render_hash
        &&& after.render_cache == self.render_cache
        &&& after.dirty == self.dirty
        &&& after.projected == self.projected
        &&& after.children.len() == self.children.len()
        &&& forall|j: int|
            0 <= j < self.children.len() ==> (#[trigger] self.children[j]).randomized(
                after.children[j],
            )
    }
}

/// Handing out a message keeps every node in place: after the first `n`
/// nodes have had their turn, each of them is what its turn made of it and
/// the rest are as they were.
pub proof fn lemma_updated_among<C: Component>(nodes: Seq<NodeModel<C>>, n: nat, message: Message)
    requires
        n <= nodes.len(),
    ensures
        NodeModel::updated_among(nodes, n, message).0.len() == nodes.len(),
        forall|j: int|
            n <= j < nodes.len() ==> NodeModel::updated_among(nodes, n, message).0[j] == nodes[j],
        forall|j: int|
            0 <= j < n ==> NodeModel::updated_among(nodes, n, message).0[j] == nodes[j].updated(
                message,
            ).0,
    decreases n,
{
    if n > 0 {
        lemma_updated_among(nodes, (n - 1) as nat, message);
    }
}

impl<C: Component> Node<C> {
    /// Delivers every event of `events` in order, each stamped with the
    /// time `now_ms`.
    pub fn deliver(
        &mut self,
        events: &Vec<Emitted>,
        now_ms: u64,
        outcome: &mut Outcome,
        focus: &mut Option<Vec<usize>>,
        claim: &mut Option<Vec<usize>>,
    )
        ensures
            (
                final(self)@,
                final(outcome)@,
                path_model(*final(focus)),
                path_model(*final(claim)),
            ) == old(self)@.delivered(
                emitted_models(events@),
                now_ms,
                old(outcome)@,
                path_model(*old(focus)),
                path_model(*old(claim)),
            ),
    {
        let ghost all = emitted_models(events@);
        let mut i: usize = 0;
        assert(all.take(0) =~= Seq::<EmittedModel>::empty());
        while i < events.len()
            invariant
                i <= events@.len(),
                all == emitted_models(events@),
                (self@, outcome@, path_model(*focus), path_model(*claim)) == old(self)@.delivered(
                    all.take(i as int),
                    now_ms,
                    old(outcome)@,
                    path_model(*old(focus)),
                    path_model(*old(claim)),
                ),
            decreases events.len() - i,
        {
            let sent = &events[i];
            proof {
                assert(all.take(i + 1).drop_last() =~= all.take(i as int));
                assert(all.take(i + 1).last() == sent@);
            }
            let follows = match sent.event.kind {
                EventKind::Drag | EventKind::TouchDrag | EventKind::DragEnd
                | EventKind::TouchDragEnd => true,
                _ => false,
            };
            let e = match &*claim {
                Some(c) => if !sent.solo && follows {
                    Emitted { target: crate::gesture::copy_path(c), event: sent.event, solo: true }
                } else {
                    Emitted {
                        target: crate::gesture::copy_path(&sent.target),
                        event: sent.event,
                        solo: sent.solo,
                    }
                },
                None => Emitted {
                    target: crate::gesture::copy_path(&sent.target),
                    event: sent.event,
                    solo: sent.solo,
                },
            };
            assert(e@ == NodeModel::<C>::redirected(sent@, path_model(*claim)));
            let stamped = Event { time_ms: now_ms, ..e.event };
            let mut d = if e.solo {
                self.dispatch_solo(&e.target, &stamped)
            } else {
                self.dispatch(&e.target, &stamped)
            };
            let starts = match e.event.kind {
                EventKind::DragStart | EventKind::TouchDragStart => true,
                _ => false,
            };
            if starts && d.stopped && 1 <= d.handlers && d.handlers - 1 <= e.target.len() {
                *claim = Some(prefix(&e.target, e.target.len() - (d.handlers - 1)));
            }
            outcome.messages.append(&mut d.messages);
            outcome.redraw = outcome.redraw || d.dirty;
            if d.focus {
                *focus = Some(e.target);
            }
            i += 1;
        }
        assert(all.take(events@.len() as int) =~= all);
    }

    /// Lets every component of the subtree do what it leaves to chance.
    pub fn randomize_all(&mut self)
        ensures
            old(self)@.randomized(final(self)@),
        decreases *old(self),
    {
        let ghost before = self@;
        proof {
            lemma_view_children(*self);
        }
        self.component.randomize();
        let n = self.children.len();
        let mut i: usize = 0;
        while i < n
            invariant
                i <= n,
                n == self.children@.len(),
                n == old(self).children@.len(),
                before == old(self)@,
                before.children.len() == n,
                C::randomized(before.component, self.component.model()),
                self.layout == before.layout,
                self.key == before.key,
                self.aabb == before.aabb,
                self.inner_scale == before.inner_scale,
                self.props_hash == before.props_hash,
                self.render_hash == before.render_hash,
                crate::renderables::renderable_models(self.render_cache@) == before.render_cache,
                self.dirty == before.dirty,
                self.projected == before.projected,
                forall|j: int| i <= j < n ==> self.children@[j] == old(self).children@[j],
                forall|j: int| 0 <= j < n ==> before.children[j] == old(self).children@[j]@,
                forall|j: int|
                    0 <= j < i ==> (#[trigger] before.children[j]).randomized(self.children@[j]@),
            decreases n - i,
        {
            let child = &mut self.children[i];
            child.randomize_all();
            i += 1;
        }
        proof {
            lemma_view_children(*self);
        }
    }

    /// Hands `message` to every component of the subtree, a node before
    /// its children; answers with their messages in that order.
    pub fn update_all(&mut self, message: Message) -> (r: Vec<Message>)
        ensures
            (final(self)@, r@) == old(self)@.updated(message),
        decreases *old(self),
    {
        let ghost before = self@;
        proof {
            lemma_view_children(*self);
        }
        let mut out = self.component.update(message);
        let ghost own = out@;
        let n = self.children.len();
        let mut i: usize = 0;
        while i < n
            invariant
                i <= n,
                n == self.children@.len(),
                n == old(self).children@.len(),
                before == old(self)@,
                before.children.len() == n,
                self.component.model() == C::updated(before.component, message).0,
                own == C::updated(before.component, message).1,
                self.layout == before.layout,
                self.key == before.key,
                self.aabb == before.aabb,
                self.inner_scale == before.inner_scale,
                self.props_hash == before.props_hash,
                self.render_hash == before.render_hash,
                crate::renderables::renderable_models(self.render_cache@) == before.render_cache,
                self.dirty == before.dirty,
                self.projected == before.projected,
                forall|j: int| i <= j < n ==> self.children@[j] == old(self).children@[j],
                forall|j: int| 0 <= j < n ==> before.children[j] == old(self).children@[j]@,
                forall|j: int|
                    0 <= j < i ==> self.children@[j]@ == before.children[j].updated(message).0,
                out@ == own + NodeModel::updated_among(before.children, i as nat, message).1,
            decreases n - i,
        {
            let child = &mut self.children[i];
            let mut more = child.update_all(message);
            proof {
                let step = NodeModel::updated_among(before.children, (i + 1) as nat, message);
                let prev = NodeModel::updated_among(before.children, i as nat, message);
                assert((own + prev.1) + more@ =~= own + (prev.1 + more@));
            }
            out.append(&mut more);
            i += 1;
        }
        proof {
            lemma_view_children(*self);
            lemma_updated_among(before.children, n as nat, message);
            let want = before.updated(message);
            assert(self@.children =~= want.0.children);
        }
        out
    }
}

/// The first `n` steps of `path`.
pub(crate) fn prefix(path: &Vec<usize>, n: usize) -> (r: Vec<usize>)
    requires
        n <= path@.len(),
    ensures
        r@ == path@.take(n as int),
{
    let mut r: Vec<usize> = Vec::new();
    let mut i: usize = 0;
    while i < n
        invariant
            i <= n,
            n <= path@.len(),
            r@ == path@.take(i as int),
        decreases n - i,
    {
        r.push(path[i]);
        assert(r@ =~= path@.take(i + 1));
        i += 1;
    }
    r
}

/// Which of the two gestures an input belongs to.
#[derive(Clone, Copy, Debug, PartialEq, Eq, Structural)]
pub enum Device {
    Pointer,
    Touch,
}

impl<C: Component> UIModel<C> {
    /// A user interface that has not drawn yet.
    pub open spec fn initial(size: PixelSize, scale_factor: i64) -> UIModel<C> {
        UIModel {
            root: None,
            size,
            scale_factor,
            pointer: GestureModel::initial(false),
            touch: GestureModel::initial(true),
            focus: None,
            stale: true,
        }
    }

    /// The user interface after a frame has been built from the fresh
    /// description `fresh` and laid out: nodes that continue nodes of the
    /// previous frame keep their state.
    pub open spec fn drawn(self, fresh: NodeModel<C>) -> UIModel<C> {
        UIModel {
            root: Some(
                fresh.built(self.root, MAX_PROJECTION_DEPTH as nat).laid_out(
                    frame_of(self.size),
                    self.scale_factor,
                ),
            ),
            stale: false,
            ..self
        }
    }

    /// The user interface after the render pass.
    pub open spec fn rendered(self) -> UIModel<C> {
        match self.root {
            Some(r) => UIModel { root: Some(r.drawn(self.scale_factor)), ..self },
            None => self,
        }
    }

    /// The tree after each message of `messages` has been handed out in
    /// turn, and the answers to all of them.
    pub open spec fn forwarded(root: NodeModel<C>, messages: Seq<Message>) -> (
        NodeModel<C>,
        Seq<Message>,
    )
        decreases messages.len(),
    {
        if messages.len() == 0 {
            (root, Seq::empty())
        } else {
            let before = Self::forwarded(root, messages.drop_last());
            let last = before.0.updated(messages.last());
            (last.0, before.1 + last.1)
        }
    }

    /// The user interface after `message` has been handed to every
    /// component and the answers have been handed out once more.  The
    /// answers of both rounds go to the application, those of the first
    /// round first; the answers of the second round are not handed out again.
    pub open spec fn updated(self, message: Message) -> (UIModel<C>, OutcomeModel) {
        match self.root {
            Some(r) => {
                let first = r.updated(message);
                let second = Self::forwarded(first.0, first.1);
                (
                    UIModel { root: Some(second.0), stale: true, ..self },
                    OutcomeModel { messages: first.1 + second.1, redraw: true, exit: false },
                )
            },
            None => (self, OutcomeModel::nothing()),
        }
    }

    /// Whether `after` can be this user interface once every component
    /// has done what it leaves to chance: nothing but the components of
    /// the tree is touched.
    pub open spec fn randomized(self, after: UIModel<C>) -> bool {
        &&& after.size == self.size
        &&& after.scale_factor == self.scale_factor
        &&& after.pointer == self.pointer
        &&& after.touch == self.touch
        &&& after.focus == self.focus
        &&& after.stale == self.stale
        &&& match self.root {
            Some(r) => after.root matches Some(a) && r.randomized(a),
            None => after.root is None,
        }
    }

    /// The gesture of `device`.
    pub open spec fn gesture(self, device: Device) -> GestureModel {
        match device {
            Device::Pointer => self.pointer,
            Device::Touch => self.touch,
        }
    }

    /// The user interface with the gesture of `device` replaced.
    pub open spec fn with_gesture(self, device: Device, g: GestureModel) -> UIModel<C> {
        match device {
            Device::Pointer => UIModel { pointer: g, ..self },
            Device::Touch => UIModel { touch: g, ..self },
        }
    }

    /// The user interface after the gesture of `device` has taken `input`
    /// with the pointer over `hit`, and the events it emitted have been
    /// delivered.  A node that stops the start of a drag has the rest of
    /// the drag to itself.
    pub open spec fn gestured(
        self,
        device: Device,
        input: PointerInput,
        hit: Option<Seq<usize>>,
        now_ms: u64,
    ) -> (UIModel<C>, OutcomeModel) {
        match self.root {
            Some(r) => {
                let stepped = self.gesture(device).stepped(
                    SampleModel { input, hit, time_ms: now_ms },
                );
                let d = r.delivered(stepped.1, now_ms, OutcomeModel::nothing(), self.focus, None);
                (
                    UIModel {
                        root: Some(d.0),
                        focus: d.2,
                        stale: self.stale || d.1.redraw,
                        ..self.with_gesture(
                            device,
                            match d.3 {
                                Some(c) => stepped.0.claimed(c),
                                None => stepped.0,
                            },
                        )
                    },
                    d.1,
                )
            },
            None => (self, OutcomeModel::nothing()),
        }
    }

    /// The node under `p`.
    pub open spec fn under(self, p: Point) -> Option<Seq<usize>> {
        match self.root {
            Some(r) => r.hit(p),
            None => None,
        }
    }

    /// The user interface after an event of kind `kind` has been delivered
    /// to the node at `target`.
    pub open spec fn sent(self, target: Seq<usize>, event: Event, now_ms: u64) -> (
        UIModel<C>,
        OutcomeModel,
    ) {
        match self.root {
            Some(r) => {
                let d = r.delivered(
                    seq![EmittedModel { target, event, solo: false }],
                    now_ms,
                    OutcomeModel::nothing(),
                    self.focus,
                    None,
                );
                (
                    UIModel {
                        root: Some(d.0),
                        focus: d.2,
                        stale: self.stale || d.1.redraw,
                        ..self
                    },
                    d.1,
                )
            },
            None => (self, OutcomeModel::nothing()),
        }
    }

    /// The node that keyboard events go to: the one that holds the focus,
    /// or the root if none does.
    pub open spec fn keyboard_target(self) -> Seq<usize> {
        match self.focus {
            Some(f) => f,
            None => Seq::empty(),
        }
    }

    /// A keyboard event of kind `kind` for key `key`.
    pub open spec fn key_event(kind: EventKind, key: u32) -> Event {
        Event { key, ..Event::plain(kind, Point { x: 0, y: 0 }) }
    }

    /// The user interface after `input` at time `now_ms`, and what the
    /// input brought about.
    ///
    /// Pointer and touch input goes through the gesture of its device, with
    /// the node under the position as the hit; the events that the gesture
    /// emits are delivered in order.  Keyboard input goes to the node that
    /// holds the focus, or to the root.  A tick goes to the root.
    pub open spec fn handled(self, input: Input, now_ms: u64) -> (UIModel<C>, OutcomeModel) {
        match input {
            Input::Motion(Motion::Mouse { x, y }) => self.gestured(
                Device::Pointer,
                PointerInput::Motion(Point { x, y }),
                self.under(Point { x, y }),
                now_ms,
            ),
            Input::Motion(Motion::Scroll { x, y }) => match self.under(self.pointer.position) {
                Some(target) => self.sent(
                    target,
                    Event {
                        delta: Point { x, y },
                        ..Event::plain(EventKind::Scroll, self.pointer.position)
                    },
                    now_ms,
                ),
                None => (self, OutcomeModel::nothing()),
            },
            Input::Press(Button::Mouse(_)) => self.gestured(
                Device::Pointer,
                PointerInput::Press,
                self.under(self.pointer.position),
                now_ms,
            ),
            Input::Release(Button::Mouse(_)) => self.gestured(
                Device::Pointer,
                PointerInput::Release,
                self.under(self.pointer.position),
                now_ms,
            ),
            Input::MouseLeaveWindow => self.gestured(
                Device::Pointer,
                PointerInput::Motion(self.pointer.position),
                None,
                now_ms,
            ),
            Input::MouseEnterWindow => (self, OutcomeModel::nothing()),
            Input::Touch(TouchAction::Down { x, y }) => UIModel {
                touch: GestureModel { position: crate::gesture::sane(Point { x, y }), ..self.touch },
                ..self
            }.gestured(Device::Touch, PointerInput::Press, self.under(Point { x, y }), now_ms),
            Input::Touch(TouchAction::Moved { x, y }) => self.gestured(
                Device::Touch,
                PointerInput::Motion(Point { x, y }),
                self.under(Point { x, y }),
                now_ms,
            ),
            Input::Touch(TouchAction::Up { x, y }) => self.gestured(
                Device::Touch,
                PointerInput::Release,
                self.under(Point { x, y }),
                now_ms,
            ),
            Input::Touch(TouchAction::Cancel { x, y }) => self.gestured(
                Device::Touch,
                PointerInput::Cancel,
                None,
                now_ms,
            ),
            Input::Press(Button::Keyboard(k)) => self.sent(
                self.keyboard_target(),
                Self::key_event(EventKind::KeyDown, k.keysym),
                now_ms,
            ),
            Input::Release(Button::Keyboard(k)) => self.sent(
                self.keyboard_target(),
                Self::key_event(EventKind::KeyUp, k.keysym),
                now_ms,
            ),
            Input::Text(k) => self.sent(
                self.keyboard_target(),
                Self::key_event(EventKind::TextEntry, k.keysym),
                now_ms,
            ),
            Input::Focus(on) => self.sent(
                self.keyboard_target(),
                Self::key_event(
                    if on {
                        EventKind::Focus
                    } else {
                        EventKind::Blur
                    },
                    0,
                ),
                now_ms,
            ),
            Input::Timer => self.sent(Seq::empty(), Self::key_event(EventKind::Tick, 0), now_ms),
            Input::Exit => (self, OutcomeModel { exit: true, ..OutcomeModel::nothing() }),
        }
    }
}

impl<C: Component> UI<C> {
    /// A user interface for a surface of `size` that has not drawn yet.
    pub fn new(size: PixelSize, scale_factor: i64) -> (ui: UI<C>)
        ensures
            ui@ == UIModel::<C>::initial(size, scale_factor),
    {
        UI {
            root: None,
            size,
            scale_factor,
            pointer: Gesture::new(false),
            touch: Gesture::new(true),
            focus: None,
            stale: true,
        }
    }

    /// Takes the size that the compositor has settled on.
    pub fn configure(&mut self, width: u32, height: u32)
        ensures
            final(self)@ == (UIModel { size: PixelSize { width, height }, stale: true, ..old(self)@ }),
    {
        self.size = PixelSize { width, height };
        self.stale = true;
    }

    /// Takes a new size.
    pub fn resize(&mut self, width: u32, height: u32)
        ensures
            final(self)@ == (UIModel { size: PixelSize { width, height }, stale: true, ..old(self)@ }),
    {
        self.size = PixelSize { width, height };
        self.stale = true;
    }

    /// Takes a new scale factor.
    pub fn set_scale_factor(&mut self, scale_factor: i64)
        ensures
            final(self)@ == (UIModel { scale_factor, stale: true, ..old(self)@ }),
    {
        self.scale_factor = scale_factor;
        self.stale = true;
    }

    /// Whether the next compositor frame is wanted: only while something
    /// is waiting to be built or drawn.
    pub fn wants_frame(&self) -> (r: bool)
        ensures
            r == self@.stale,
    {
        self.stale
    }

    /// Lets every component of the tree do what it leaves to chance.
    pub fn randomize(&mut self)
        ensures
            old(self)@.randomized(final(self)@),
    {
        match self.root.take() {
            Some(r) => {
                let mut r = r;
                r.randomize_all();
                self.root = Some(r);
            },
            None => {},
        }
    }

    /// Builds the frame from the fresh description `fresh` and lays it
    /// out; the components then do what they leave to chance.
    pub fn draw(&mut self, fresh: Node<C>)
        ensures
            old(self)@.drawn(fresh@).randomized(final(self)@),
    {
        let previous = self.root.take();
        let mut tree = fresh.build(previous, MAX_PROJECTION_DEPTH);
        tree.layout(
            Scale { width: self.size.width as i64, height: self.size.height as i64 },
            self.scale_factor,
        );
        tree.randomize_all();
        self.root = Some(tree);
        self.stale = false;
    }

    /// Runs the render pass; answers how many components drew.
    pub fn render(&mut self) -> (rendered: usize)
        ensures
            final(self)@ == old(self)@.rendered(),
            rendered == match old(self)@.root {
                Some(r) => crate::render::capped(r.redrawn(old(self)@.scale_factor)),
                None => 0,
            },
    {
        match self.root.take() {
            Some(r) => {
                let mut r = r;
                let n = r.render(self.scale_factor);
                self.root = Some(r);
                n
            },
            None => 0,
        }
    }

    /// Hands `message` to every component, and their answers once more.
    pub fn update(&mut self, message: Message) -> (outcome: Outcome)
        ensures
            (final(self)@, outcome@) == old(self)@.updated(message),
    {
        match self.root.take() {
            Some(r) => {
                let mut r = r;
                let first = r.update_all(message);
                let ghost start = r@;
                let mut answers: Vec<Message> = Vec::new();
                let mut i: usize = 0;
                assert(first@.take(0) =~= Seq::<Message>::empty());
                while i < first.len()
                    invariant
                        i <= first@.len(),
                        (r@, answers@) == UIModel::<C>::forwarded(start, first@.take(i as int)),
                    decreases first.len() - i,
                {
                    proof {
                        assert(first@.take(i + 1).drop_last() =~= first@.take(i as int));
                    }
                    let mut more = r.update_all(first[i]);
                    answers.append(&mut more);
                    i += 1;
                }
                assert(first@.take(first@.len() as int) =~= first@);
                self.root = Some(r);
                self.stale = true;
                let mut messages = first;
                messages.append(&mut answers);
                Outcome { messages, redraw: true, exit: false }
            },
            None => Outcome { messages: Vec::new(), redraw: false, exit: false },
        }
    }

    /// The node under `p`.
    pub fn under(&self, p: Point) -> (r: Option<Vec<usize>>)
        ensures
            path_model(r) == self@.under(p),
    {
        match &self.root {
            Some(r) => r.hit_test(p),
            None => None,
        }
    }

    fn gesture_step(
        &mut self,
        device: Device,
        input: PointerInput,
        hit: Option<Vec<usize>>,
        now_ms: u64,
    ) -> (outcome: Outcome)
        ensures
            (final(self)@, outcome@) == old(self)@.gestured(device, input, path_model(hit), now_ms),
    {
        let mut outcome = Outcome { messages: Vec::new(), redraw: false, exit: false };
        match self.root.take() {
            Some(r) => {
                let mut r = r;
                let sample = Sample { input, hit, time_ms: now_ms };
                let events = match device {
                    Device::Pointer => self.pointer.step(sample),
                    Device::Touch => self.touch.step(sample),
                };
                let mut claim: Option<Vec<usize>> = None;
                r.deliver(&events, now_ms, &mut outcome, &mut self.focus, &mut claim);
                match claim {
                    Some(c) => match device {
                        Device::Pointer => {
                            self.pointer.claim(c);
                        },
                        Device::Touch => {
                            self.touch.claim(c);
                        },
                    },
                    None => {},
                }
                self.root = Some(r);
                self.stale = self.stale || outcome.redraw;
            },
            None => {},
        }
        outcome
    }

    fn send(&mut self, target: Vec<usize>, event: Event, now_ms: u64) -> (outcome: Outcome)
        ensures
            (final(self)@, outcome@) == old(self)@.sent(target@, event, now_ms),
    {
        let mut outcome = Outcome { messages: Vec::new(), redraw: false, exit: false };
        match self.root.take() {
            Some(r) => {
                let mut r = r;
                let mut events: Vec<Emitted> = Vec::new();
                events.push(Emitted { target, event, solo: false });
                assert(emitted_models(events@) =~= seq![
                    EmittedModel { target: target@, event, solo: false },
                ]);
                let mut claim: Option<Vec<usize>> = None;
                r.deliver(&events, now_ms, &mut outcome, &mut self.focus, &mut claim);
                self.root = Some(r);
                self.stale = self.stale || outcome.redraw;
            },
            None => {},
        }
        outcome
    }

    fn keyboard_target(&self) -> (t: Vec<usize>)
        ensures
            t@ == self@.keyboard_target(),
    {
        match &self.focus {
            Some(f) => crate::gesture::copy_path(f),
            None => Vec::new(),
        }
    }

    fn key_event(kind: EventKind, key: u32) -> (e: Event)
        ensures
            e == UIModel::<C>::key_event(kind, key),
    {
        let mut e = Event::new(kind, Point { x: 0, y: 0 });
        e.key = key;
        e
    }

    /// Takes one input at time `now_ms`; the components then do what
    /// they leave to chance.
    pub fn handle_input(&mut self, input: &Input, now_ms: u64) -> (outcome: Outcome)
        ensures
            old(self)@.handled(*input, now_ms).0.randomized(final(self)@),
            outcome@ == old(self)@.handled(*input, now_ms).1,
    {
        let outcome = self.take_input(input, now_ms);
        self.randomize();
        outcome
    }

    /// Takes one input at time `now_ms`.
    fn take_input(&mut self, input: &Input, now_ms: u64) -> (outcome: Outcome)
        ensures
            (final(self)@, outcome@) == old(self)@.handled(*input, now_ms),
    {
        match *input {
            Input::Motion(Motion::Mouse { x, y }) => {
                let hit = self.under(Point { x, y });
                self.gesture_step(
                    Device::Pointer,
                    PointerInput::Motion(Point { x, y }),
                    hit,
                    now_ms,
                )
            },
            Input::Motion(Motion::Scroll { x, y }) => {
                let at = self.pointer.position;
                match self.under(at) {
                    Some(target) => {
                        let mut e = Event::new(EventKind::Scroll, at);
                        e.delta = Point { x, y };
                        self.send(target, e, now_ms)
                    },
                    None => Outcome { messages: Vec::new(), redraw: false, exit: false },
                }
            },
            Input::Press(Button::Mouse(_)) => {
                let hit = self.under(self.pointer.position);
                self.gesture_step(Device::Pointer, PointerInput::Press, hit, now_ms)
            },
            Input::Release(Button::Mouse(_)) => {
                let hit = self.under(self.pointer.position);
                self.gesture_step(Device::Pointer, PointerInput::Release, hit, now_ms)
            },
            Input::MouseLeaveWindow => {
                let at = self.pointer.position;
                self.gesture_step(Device::Pointer, PointerInput::Motion(at), None, now_ms)
            },
            Input::MouseEnterWindow => Outcome { messages: Vec::new(), redraw: false, exit: false },
            Input::Touch(TouchAction::Down { x, y }) => {
                let hit = self.under(Point { x, y });
                self.touch.position = Point {
                    x: crate::types::to_coord(x),
                    y: crate::types::to_coord(y),
                };
                self.gesture_step(Device::Touch, PointerInput::Press, hit, now_ms)
            },
            Input::Touch(TouchAction::Moved { x, y }) => {
                let hit = self.under(Point { x, y });
                self.gesture_step(
                    Device::Touch,
                    PointerInput::Motion(Point { x, y }),
                    hit,
                    now_ms,
                )
            },
            Input::Touch(TouchAction::Up { x, y }) => {
                let hit = self.under(Point { x, y });
                self.gesture_step(Device::Touch, PointerInput::Release, hit, now_ms)
            },
            Input::Touch(TouchAction::Cancel { x, y }) => {
                self.gesture_step(Device::Touch, PointerInput::Cancel, None, now_ms)
            },
            Input::Press(Button::Keyboard(k)) => {
                let t = self.keyboard_target();
                self.send(t, Self::key_event(EventKind::KeyDown, k.keysym), now_ms)
            },
            Input::Release(Button::Keyboard(k)) => {
                let t = self.keyboard_target();
                self.send(t, Self::key_event(EventKind::KeyUp, k.keysym), now_ms)
            },
            Input::Text(k) => {
                let t = self.keyboard_target();
                self.send(t, Self::key_event(EventKind::TextEntry, k.keysym), now_ms)
            },
            Input::Focus(on) => {
                let t = self.keyboard_target();
                self.send(
                    t,
                    Self::key_event(
                        if on {
                            EventKind::Focus
                        } else {
                            EventKind::Blur
                        },
                        0,
                    ),
                    now_ms,
                )
            },
            Input::Timer => self.send(Vec::new(), Self::key_event(EventKind::Tick, 0), now_ms),
            Input::Exit => Outcome { messages: Vec::new(), redraw: false, exit: true },
        }
    }
}

} // verus!
