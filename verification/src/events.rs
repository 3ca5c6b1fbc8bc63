//! The single-tick event queue.
//!
//! Each tick the driver hands the scene's update step a fresh, empty
//! queue; the scene registers events into it; the driver drains it once,
//! in insertion order, strictly between update and render of the same
//! tick. Nothing ever carries over to the next tick.

use vstd::prelude::*;

verus! {

/// A tagged per-tick event. The one variant today carries a camera
/// snapshot `C`, to be written into shared renderer state by the driver.
pub enum AppEvent<C> {
    ApplyCamera(C),
}

/// The write-only-then-drain-once event queue of one tick.
pub struct Events<C> {
    events: Vec<AppEvent<C>>,
}

impl<C> View for Events<C> {
    type V = Seq<AppEvent<C>>;

    closed spec fn view(&self) -> Seq<AppEvent<C>> {
        self.events@
    }
}

impl<C> Events<C> {
    /// A fresh, empty queue: every tick starts with one, so the queue is
    /// empty at the start of a tick whatever an earlier tick held.
    pub fn new() -> (q: Events<C>)
        ensures
            q@ == Seq::<AppEvent<C>>::empty(),
    {
        Events { events: Vec::new() }
    }

    /// Register one event behind everything registered before it.
    pub fn register(&mut self, event: AppEvent<C>)
        ensures
            final(self)@ == old(self)@.push(event),
    {
        self.events.push(event);
    }

    /// Consume the queue: every event registered this tick, in insertion
    /// order. The queue is gone afterwards, so it is drained exactly once,
    /// and the same tick sees everything that was registered.
    pub fn drain(self) -> (evs: Vec<AppEvent<C>>)
        ensures
            evs@ == self@,
    {
        self.events
    }
}

/// A queue's view after registering every event of `pushed` in turn.
pub open spec fn after_registering<C>(q: Seq<AppEvent<C>>, pushed: Seq<AppEvent<C>>)
    -> Seq<AppEvent<C>>
    decreases pushed.len(),
{
    if pushed.len() == 0 {
        q
    } else {
        after_registering(q.push(pushed.first()), pushed.drop_first())
    }
}

/// Law: events registered during a tick are all delivered to the same
/// tick, in insertion order — registering `pushed`, one by one, onto a
/// queue leaves exactly `q + pushed`, so a fresh queue drains to exactly
/// `pushed` and holds nothing of any earlier tick.
pub proof fn lemma_same_tick_delivery<C>(q: Seq<AppEvent<C>>, pushed: Seq<AppEvent<C>>)
    ensures
        after_registering(q, pushed) == q + pushed,
        after_registering(Seq::<AppEvent<C>>::empty(), pushed) == pushed,
    decreases pushed.len(),
{
    if pushed.len() == 0 {
        assert(after_registering(q, pushed) =~= q + pushed);
        assert(after_registering(Seq::<AppEvent<C>>::empty(), pushed) =~= pushed);
    } else {
        lemma_same_tick_delivery(q.push(pushed.first()), pushed.drop_first());
        assert(q.push(pushed.first()) + pushed.drop_first() =~= q + pushed);
        lemma_same_tick_delivery(Seq::<AppEvent<C>>::empty().push(pushed.first()),
            pushed.drop_first());
        assert(Seq::<AppEvent<C>>::empty().push(pushed.first()) + pushed.drop_first()
            =~= pushed);
    }
}

} // verus!
