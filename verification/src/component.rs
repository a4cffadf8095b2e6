//! The contract between the engine and the components that nodes carry.
//!
//! Every operation has a mathematical description (a `spec` function) and
//! an executable form whose result is that description.  The engine is
//! proved against the descriptions alone, so its contracts hold for any
//! component whose executable methods keep to them.
use vstd::prelude::*;
use vstd::string::StrSliceExecFns;
use vstd::string::StringSliceAdditionalSpecFns;
use crate::event::{Event, Message, Reaction, ReactionModel};
use crate::layout::ScrollPosition;
use crate::node::{Modeled, Node, NodeModel};
use crate::renderables::{renderable_models, Renderable, RenderableModel};
use crate::types::{Scale, AABB};

verus! {

/// The start value of every hash.
pub const HASH_SEED: u64 = 0xcbf29ce484222325;

/// The multiplier of the hash.
pub const HASH_PRIME: u64 = 0x100000001b3;

/// The hash state after `word` has been written to a hasher in state `state`.
pub open spec fn mixed(state: u64, word: u64) -> u64 {
    (state ^ word).wrapping_mul(HASH_PRIME)
}

/// The hash state after the bytes of `bytes` have been written in order.
pub open spec fn mixed_bytes(state: u64, bytes: Seq<u8>) -> u64
    decreases bytes.len(),
{
    if bytes.len() == 0 {
        state
    } else {
        mixed(mixed_bytes(state, bytes.drop_last()), bytes.last() as u64)
    }
}

/// Accumulates the words that a component declares as inputs of a hash.
#[derive(Clone, Copy, Debug, PartialEq, Eq, Structural)]
pub struct ComponentHasher {
    pub state: u64,
}

impl ComponentHasher {
    pub fn new() -> (h: ComponentHasher)
        ensures
            h.state == HASH_SEED,
    {
        ComponentHasher { state: HASH_SEED }
    }

    pub fn write_u64(&mut self, word: u64)
        ensures
            final(self).state == mixed(old(self).state, word),
    {
        self.state = (self.state ^ word).wrapping_mul(HASH_PRIME);
    }

    pub fn write_bool(&mut self, b: bool)
        ensures
            final(self).state == mixed(
                old(self).state,
                if b {
                    1
                } else {
                    0
                },
            ),
    {
        self.write_u64(if b { 1 } else { 0 });
    }

    /// Writes the bytes of `text`, one word each.
    pub fn write_str(&mut self, text: &str)
        ensures
            final(self).state == mixed_bytes(old(self).state, text.spec_bytes()),
    {
        let bytes = text.as_bytes_vec();
        let mut i: usize = 0;
        while i < bytes.len()
            invariant
                i <= bytes.len(),
                bytes@ == text.spec_bytes(),
                self.state == mixed_bytes(old(self).state, bytes@.take(i as int)),
            decreases bytes.len() - i,
        {
            assert(bytes@.take(i + 1).drop_last() =~= bytes@.take(i as int));
            self.write_u64(bytes[i] as u64);
            i += 1;
        }
        assert(bytes@.take(bytes.len() as int) =~= bytes@);
    }

    pub fn finish(&self) -> (h: u64)
        ensures
            h == self.state,
    {
        self.state
    }
}

/// What a component is told when it is asked to draw itself.
#[derive(Clone, Copy, Debug, PartialEq, Eq, Structural)]
pub struct RenderContext {
    /// The resolved box of the node.
    pub aabb: AABB,
    /// What the children in flow of the node take up together.
    pub inner_scale: Option<Scale>,
    /// The factor between logical and physical units.
    pub scale_factor: i64,
}

/// What `set_aabb` is told about the surroundings of the node.
#[derive(Clone, Copy, Debug, PartialEq, Eq, Structural)]
pub struct BoxContext {
    /// The box of the parent.
    pub parent: AABB,
    /// The box of the whole surface.
    pub frame: AABB,
    /// The factor between logical and physical units.
    pub scale_factor: i64,
}

pub trait Component: Modeled + Sized {
    /// Whether the state of `previous` can be carried over into `this`.
    spec fn compatible(this: Self::Model, previous: Self::Model) -> bool;

    /// The component with its state set to the default.
    spec fn initialized(this: Self::Model) -> Self::Model;

    /// The component with the state of `previous` moved in.
    spec fn adopted(this: Self::Model, previous: Self::Model) -> Self::Model;

    /// Whether `this` holds the same persistent state as `other`.
    spec fn same_state(this: Self::Model, other: Self::Model) -> bool;

    /// Taking over the state of the previous incarnation loses none of it.
    proof fn lemma_adopted_keeps_state(this: Self::Model, previous: Self::Model)
        requires
            Self::compatible(this, previous),
        ensures
            Self::same_state(Self::adopted(this, previous), previous),
    ;

    /// The component after it has brought its state up to date with its properties.
    spec fn refreshed(this: Self::Model) -> Self::Model;

    /// Whether `after` can be the component once it has done what it
    /// leaves to chance.  Everything else that a component does is a
    /// function of what it is handed; what it draws at random is put off
    /// until `randomize`, and this says which outcomes that can have.
    spec fn randomized(before: Self::Model, after: Self::Model) -> bool;

    /// The hash of the properties that decide the subtree, started from
    /// `seed`; `None` if the component declares none.
    spec fn props_digest(this: Self::Model, seed: u64) -> Option<u64>;

    /// A component that declares no properties has no state that follows
    /// them: bringing it up to date after taking over the state of its
    /// previous incarnation loses none of that state.
    proof fn lemma_undeclared_keeps_state(this: Self::Model, previous: Self::Model)
        requires
            Self::compatible(this, previous),
            Self::props_digest(this, HASH_SEED) is None,
        ensures
            Self::same_state(Self::refreshed(Self::adopted(this, previous)), previous),
    ;

    /// The hash of what decides the pixels, started from `seed`; `None` if
    /// the component declares nothing and must be drawn every time.
    spec fn render_digest(this: Self::Model, seed: u64) -> Option<u64>;

    /// The subtree that the component projects itself into.
    spec fn viewed(this: Self::Model) -> Option<NodeModel<Self>>;

    /// The size that the content of the component itself takes, whatever
    /// its children take: that of its text, say.
    spec fn natural(this: Self::Model) -> Scale;

    /// Whether the component decides its own box and keeps the engine from
    /// arranging its children.
    spec fn controls(this: Self::Model) -> bool;

    /// The component and its box after `set_aabb`.
    spec fn boxed(this: Self::Model, aabb: AABB, children: Seq<AABB>, context: BoxContext) -> (
        Self::Model,
        AABB,
    );

    /// The children that take part in hit testing and scrolling, if only some do.
    spec fn contained(this: Self::Model) -> Option<Seq<usize>>;

    /// How far the content is scrolled.
    spec fn scrolled(this: Self::Model) -> Option<ScrollPosition>;

    /// The component after the event, and its answer.
    spec fn handled(this: Self::Model, event: Event) -> (Self::Model, ReactionModel);

    /// The component after the message, and the messages it sends on.
    spec fn updated(this: Self::Model, message: Message) -> (Self::Model, Seq<Message>);

    /// The component after drawing, and what it draws.
    spec fn rendered(this: Self::Model, context: RenderContext) -> (
        Self::Model,
        Option<Seq<RenderableModel>>,
    );

    /// Establishes the default state of a new node.
    fn init(&mut self)
        ensures
            final(self).model() == Self::initialized(old(self).model()),
    ;

    /// Whether `previous`, found at the same place of the previous tree with
    /// the same key, may hand its state on.
    fn accepts(&self, previous: &Self) -> (r: bool)
        ensures
            r == Self::compatible(self.model(), previous.model()),
    ;

    /// Takes over the state of the previous incarnation of the node.
    fn adopt(&mut self, previous: Self)
        requires
            Self::compatible(old(self).model(), previous.model()),
        ensures
            final(self).model() == Self::adopted(old(self).model(), previous.model()),
    ;

    /// Called after `adopt` when the properties have changed.
    fn new_props(&mut self)
        ensures
            final(self).model() == Self::refreshed(old(self).model()),
    ;

    /// Writes the properties that decide the subtree; answers whether any were written.
    fn props_hash(&self, hasher: &mut ComponentHasher) -> (declared: bool)
        ensures
            declared == Self::props_digest(self.model(), old(hasher).state).is_some(),
            declared ==> Self::props_digest(self.model(), old(hasher).state) == Some(final(hasher).state),
    ;

    /// Writes what decides the pixels; answers whether anything was written.
    fn render_hash(&self, hasher: &mut ComponentHasher) -> (declared: bool)
        ensures
            declared == Self::render_digest(self.model(), old(hasher).state).is_some(),
            declared ==> Self::render_digest(self.model(), old(hasher).state) == Some(
                final(hasher).state,
            ),
    ;

    /// Projects the component into a subtree.  Reads, never changes, the state.
    fn view(&self) -> (r: Option<Node<Self>>)
        ensures
            r is Some == Self::viewed(self.model()) is Some,
            r matches Some(n) ==> Self::viewed(self.model()) == Some(n@),
    ;

    /// The size that the content of the component itself takes.
    fn natural_size(&self) -> (r: Scale)
        ensures
            r == Self::natural(self.model()),
    ;

    fn full_control(&self) -> (r: bool)
        ensures
            r == Self::controls(self.model()),
    ;

    /// Lets a component that has full control decide its own box.
    fn set_aabb(&mut self, aabb: &mut AABB, children: &Vec<AABB>, context: BoxContext)
        ensures
            (final(self).model(), *final(aabb)) == Self::boxed(old(self).model(), *old(aabb), children@, context),
    ;

    fn container(&self) -> (r: Option<Vec<usize>>)
        ensures
            r is Some == Self::contained(self.model()) is Some,
            r matches Some(v) ==> Self::contained(self.model()) == Some(v@),
    ;

    fn scroll_position(&self) -> (r: Option<ScrollPosition>)
        ensures
            r == Self::scrolled(self.model()),
    ;

    /// Handles one semantic event.
    fn on_event(&mut self, event: &Event) -> (r: Reaction)
        ensures
            (final(self).model(), r@) == Self::handled(old(self).model(), *event),
    ;

    /// Does what the component leaves to chance and had put off.
    fn randomize(&mut self)
        ensures
            Self::randomized(old(self).model(), final(self).model()),
    ;

    /// Handles one application message and answers with follow-up messages.
    fn update(&mut self, message: Message) -> (r: Vec<Message>)
        ensures
            (final(self).model(), r@) == Self::updated(old(self).model(), message),
    ;

    /// Emits the drawing instructions of the node.
    fn render(&mut self, context: RenderContext) -> (r: Option<Vec<Renderable>>)
        ensures
            final(self).model() == Self::rendered(old(self).model(), context).0,
            r is Some == Self::rendered(old(self).model(), context).1 is Some,
            r matches Some(v) ==> Self::rendered(old(self).model(), context).1 == Some(
                renderable_models(v@),
            ),
    ;
}

} // verus!
