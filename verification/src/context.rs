//! Values that the whole application observes.
//!
//! A context holds a value and the listeners that want to hear of every
//! change.  Setting the value answers with the listeners to notify, in the
//! order in which they registered; running them is left to the caller, so
//! that a listener never runs while the context is borrowed.
use vstd::prelude::*;

verus! {

/// Who hears of a change.
#[derive(Clone, Copy, Debug, PartialEq, Eq, Structural)]
pub enum Listener {
    /// A callback of the application, by its number.
    Callback(u64),
    /// Every callback of the handler with this number.
    Handler(u64),
}

/// Something that owns contexts and can tie them to a handler.
pub trait Model {
    fn register_context_handler(&self, context_handler: &mut ContextHandler);
}

/// Collects callbacks that are to run whenever one of the contexts tied to
/// it changes.
#[derive(Debug)]
pub struct ContextHandler {
    id: u64,
    on_change_callbacks: Vec<u64>,
}

/// A handler that the application keeps for as long as it runs.
pub fn get_static_context_handler() -> (h: ContextHandler)
    ensures
        h.id() == 0,
        h.callbacks() == Seq::<u64>::empty(),
{
    ContextHandler::new()
}

impl ContextHandler {
    /// The number of the handler.
    pub closed spec fn id(&self) -> u64 {
        self.id
    }

    /// The callbacks of the handler, in the order in which they registered.
    pub closed spec fn callbacks(&self) -> Seq<u64> {
        self.on_change_callbacks@
    }

    /// The handler with number zero and no callbacks.
    pub fn new() -> (h: ContextHandler)
        ensures
            h.id() == 0,
            h.callbacks() == Seq::<u64>::empty(),
    {
        Self { id: 0, on_change_callbacks: Vec::new() }
    }

    /// The handler with number `id` and no callbacks.
    pub fn with_id(id: u64) -> (h: ContextHandler)
        ensures
            h.id() == id,
            h.callbacks() == Seq::<u64>::empty(),
    {
        Self { id, on_change_callbacks: Vec::new() }
    }

    /// Adds a callback after those already there.
    pub fn register_on_change(&mut self, callback: u64)
        ensures
            final(self).id() == old(self).id(),
            final(self).callbacks() == old(self).callbacks().push(callback),
    {
        self.on_change_callbacks.push(callback);
    }

    /// Ties `context` to this handler: a change of the context is from now
    /// on a matter for this handler too.
    pub fn register_context<X>(&self, context: &mut Context<X>)
        ensures
            final(context).value() == old(context).value(),
            final(context).listeners() == old(context).listeners().push(
                Listener::Handler(self.id()),
            ),
    {
        context.callbacks.push(Listener::Handler(self.id));
    }

    /// Ties every context of `contexts` to this handler.
    pub fn register_contexts<X>(&self, contexts: &mut Vec<Context<X>>)
        ensures
            final(contexts)@.len() == old(contexts)@.len(),
            forall|i: int|
                0 <= i < old(contexts)@.len() ==> (#[trigger] final(contexts)@[i]).value() == old(
                    contexts,
                )@[i].value() && final(contexts)@[i].listeners() == old(
                    contexts,
                )@[i].listeners().push(Listener::Handler(self.id())),
    {
        let n = contexts.len();
        let mut i: usize = 0;
        while i < n
            invariant
                i <= n,
                n == contexts@.len(),
                n == old(contexts)@.len(),
                forall|j: int| i <= j < n ==> contexts@[j] == old(contexts)@[j],
                forall|j: int|
                    0 <= j < i ==> (#[trigger] contexts@[j]).value() == old(contexts)@[j].value()
                        && contexts@[j].listeners() == old(contexts)@[j].listeners().push(
                        Listener::Handler(self.id()),
                    ),
            decreases n - i,
        {
            let context = &mut contexts[i];
            self.register_context(context);
            i += 1;
        }
    }

    /// The callbacks to run when a context tied to this handler has changed.
    pub fn notified(&self) -> (r: Vec<u64>)
        ensures
            r@ == self.callbacks(),
    {
        let mut r: Vec<u64> = Vec::new();
        let mut i: usize = 0;
        while i < self.on_change_callbacks.len()
            invariant
                i <= self.on_change_callbacks@.len(),
                r@ == self.on_change_callbacks@.take(i as int),
            decreases self.on_change_callbacks.len() - i,
        {
            r.push(self.on_change_callbacks[i]);
            assert(r@ =~= self.on_change_callbacks@.take(i + 1));
            i += 1;
        }
        assert(r@ =~= self.on_change_callbacks@);
        r
    }
}

/// A value with the listeners that hear of its changes.
#[derive(Debug)]
pub struct Context<X> {
    value: X,
    callbacks: Vec<Listener>,
}

impl<X> Context<X> {
    /// The value that the context holds.
    pub closed spec fn value(&self) -> X {
        self.value
    }

    /// The listeners, in the order in which they registered.
    pub closed spec fn listeners(&self) -> Seq<Listener> {
        self.callbacks@
    }

    /// A context that holds `value` and has no listeners.
    pub fn new(value: X) -> (c: Context<X>)
        ensures
            c.value() == value,
            c.listeners() == Seq::<Listener>::empty(),
    {
        Context { value, callbacks: Vec::new() }
    }

    /// The value.
    pub fn get(&self) -> (v: &X)
        ensures
            *v == self.value(),
    {
        &self.value
    }

    /// Replaces the value; answers with the listeners to notify, in the
    /// order in which they registered.
    pub fn set(&mut self, value: X) -> (notify: Vec<Listener>)
        ensures
            final(self).value() == value,
            final(self).listeners() == old(self).listeners(),
            notify@ == old(self).listeners(),
    {
        self.value = value;
        let mut r: Vec<Listener> = Vec::new();
        let mut i: usize = 0;
        while i < self.callbacks.len()
            invariant
                i <= self.callbacks@.len(),
                self.callbacks == old(self).callbacks,
                self.value == value,
                r@ == self.callbacks@.take(i as int),
            decreases self.callbacks.len() - i,
        {
            r.push(self.callbacks[i]);
            assert(r@ =~= self.callbacks@.take(i + 1));
            i += 1;
        }
        assert(r@ =~= self.callbacks@);
        r
    }

    /// Adds a callback after the listeners already there.
    pub fn register_on_change(&mut self, callback: u64)
        ensures
            final(self).value() == old(self).value(),
            final(self).listeners() == old(self).listeners().push(Listener::Callback(callback)),
    {
        self.callbacks.push(Listener::Callback(callback));
    }
}

/// Every listener hears of every change, in the order of registration: a
/// listener that registers is notified by the next `set` after all those
/// that registered before it.
pub proof fn lemma_listeners_in_order(before: Seq<Listener>, added: Listener)
    ensures
        before.push(added).last() == added,
        before.push(added).drop_last() == before,
{
    assert(before.push(added).drop_last() =~= before);
}

} // verus!
