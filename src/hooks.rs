//! Routing of event notifications to per-subscription handlers. The OS calls
//! one fixed stub for every subscription and passes no user data; the stub
//! finds the handler by the subscription handle it was called under and
//! calls it. A handle without a handler makes the call a no-op.
use vstd::prelude::*;

verus! {

broadcast use vstd::std_specs::hash::group_hash_axioms;

/// One notification as the OS delivers it to the stub.
#[derive(Clone, Copy, Debug, PartialEq, Eq, Structural)]
pub struct HookEvent {
    /// Handle of the subscription that fired.
    pub hook: usize,
    /// Event kind.
    pub event: u32,
    /// The window the event is about.
    pub hwnd: usize,
    /// Object id within the window.
    pub id_object: i32,
    /// Child id within the object.
    pub id_child: i32,
    /// Thread that produced the event.
    pub thread: u32,
    /// Time of the event, in milliseconds.
    pub time: u32,
}

/// The handler that a call under `hook` reaches, if any.
pub open spec fn routed<H>(handlers: Map<usize, H>, hook: usize) -> Option<H> {
    if handlers.contains_key(hook) {
        Some(handlers[hook])
    } else {
        None
    }
}

/// Handlers keyed by the subscription handle the OS returned.
pub struct HookRegistry<H> {
    handlers: std::collections::HashMap<usize, H>,
}

impl<H> View for HookRegistry<H> {
    type V = Map<usize, H>;

    closed spec fn view(&self) -> Map<usize, H> {
        self.handlers@
    }
}

impl<H> HookRegistry<H> {
    pub fn new() -> (r: HookRegistry<H>)
        ensures
            r@ == Map::<usize, H>::empty(),
    {
        HookRegistry { handlers: std::collections::HashMap::new() }
    }

    /// Records `handler` for the subscription `hook`, in place of any earlier one.
    pub fn register(&mut self, hook: usize, handler: H)
        ensures
            final(self)@ == old(self)@.insert(hook, handler),
    {
        self.handlers.insert(hook, handler);
    }

    /// Forgets the handler of `hook` and hands it back, if there was one.
    pub fn unregister(&mut self, hook: usize) -> (r: Option<H>)
        ensures
            final(self)@ == old(self)@.remove(hook),
            r == routed(old(self)@, hook),
    {
        self.handlers.remove(&hook)
    }

    /// Whether `hook` has a handler.
    pub fn is_registered(&self, hook: usize) -> (r: bool)
        ensures
            r == self@.contains_key(hook),
    {
        self.handlers.contains_key(&hook)
    }

    /// Calls the handler registered under the subscription that fired,
    /// `event.hook`, with `event`; does nothing when there is none. Returns
    /// whether a handler ran.
    pub fn dispatch(&self, event: HookEvent) -> (r: bool) where H: Fn(HookEvent)
        requires
            routed(self@, event.hook) matches Some(h) ==> call_requires(h, (event,)),
        ensures
            r == routed(self@, event.hook) is Some,
            r ==> call_ensures(routed(self@, event.hook)->0, (event,), ()),
    {
        match self.handlers.get(&event.hook) {
            Some(handler) => {
                handler(event);
                true
            },
            None => false,
        }
    }
}

/// Registers each handler of `handlers` under the hook at the same place of
/// `hooks`, in order, starting from `m`.
pub open spec fn register_all<H>(m: Map<usize, H>, hooks: Seq<usize>, handlers: Seq<H>) -> Map<
    usize,
    H,
>
    decreases hooks.len(),
{
    if hooks.len() == 0 || handlers.len() == 0 {
        m
    } else {
        register_all(m.insert(hooks[0], handlers[0]), hooks.drop_first(), handlers.drop_first())
    }
}

/// With distinct subscription handles, every handle routes to the handler
/// registered under it and to no other: subscriptions do not cross.
pub proof fn lemma_no_cross_talk<H>(m: Map<usize, H>, hooks: Seq<usize>, handlers: Seq<H>)
    requires
        hooks.len() == handlers.len(),
        hooks.no_duplicates(),
    ensures
        forall|i: int|
            0 <= i < hooks.len() ==> routed(register_all(m, hooks, handlers), #[trigger] hooks[i])
                == Some(handlers[i]),
        forall|k: usize|
            !hooks.contains(k) ==> routed(register_all(m, hooks, handlers), k) == routed(m, k),
    decreases hooks.len(),
{
    if hooks.len() > 0 {
        let m1 = m.insert(hooks[0], handlers[0]);
        let hs = hooks.drop_first();
        let ls = handlers.drop_first();
        assert(hs.no_duplicates());
        lemma_no_cross_talk(m1, hs, ls);
        assert forall|i: int| 0 <= i < hooks.len() implies routed(
            register_all(m, hooks, handlers),
            #[trigger] hooks[i],
        ) == Some(handlers[i]) by {
            if i > 0 {
                assert(hooks[i] == hs[i - 1]);
                assert(handlers[i] == ls[i - 1]);
            } else {
                assert(!hs.contains(hooks[0])) by {
                    if hs.contains(hooks[0]) {
                        let j = choose|j: int| 0 <= j < hs.len() && hs[j] == hooks[0];
                        assert(hooks[j + 1] == hooks[0]);
                    }
                }
            }
        }
        assert forall|k: usize| !hooks.contains(k) implies routed(
            register_all(m, hooks, handlers),
            k,
        ) == routed(m, k) by {
            assert(k != hooks[0]);
            if hs.contains(k) {
                let j = choose|j: int| 0 <= j < hs.len() && hs[j] == k;
                assert(hooks[j + 1] == k);
            }
        }
    }
}

/// Once a subscription is removed, a call under its handle reaches no handler,
/// and every other handle routes as before.
pub proof fn lemma_unregistered_is_noop<H>(m: Map<usize, H>, hook: usize, other: usize)
    ensures
        routed(m.remove(hook), hook) is None,
        other != hook ==> routed(m.remove(hook), other) == routed(m, other),
{
}

} // verus!
