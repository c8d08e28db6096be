//! Synchronous publish/subscribe event bus.
//!
//! Handlers are registered under an event key (one key per event type).
//! Publishing an event under a key calls, in subscription order, every handler
//! registered under that key and no other.
use vstd::prelude::*;

verus! {

/// Marker for values that can travel through the event bus.
pub trait Event: Send + Sync + 'static {}

impl<T: Send + Sync + 'static> Event for T {}

/// Key under which the handlers of one event type are registered.
pub type EventKey = u64;

/// `idx` lists, in increasing order, exactly the positions of `s` whose key is `key`.
pub open spec fn subscriber_positions<H>(s: Seq<(EventKey, H)>, key: EventKey, idx: Seq<int>) -> bool {
    &&& forall|i: int| 0 <= i < idx.len() ==> 0 <= #[trigger] idx[i] < s.len() && s[idx[i]].0 == key
    &&& forall|i: int, j: int| 0 <= i < j < idx.len() ==> idx[i] < idx[j]
    &&& forall|k: int|
        0 <= k < s.len() && #[trigger] s[k].0 == key ==> exists|i: int|
            0 <= i < idx.len() && idx[i] == k
}

/// Typed publish/subscribe interface over handlers of type `H`.
pub trait EventBus<H> {
    /// Registers `handler` for events published under `key`.
    fn subscribe(&mut self, key: EventKey, handler: H);
}

/// Event bus that dispatches synchronously within `publish`.
pub struct LocalEventBus<H> {
    handlers: Vec<(EventKey, H)>,
}

impl<H> LocalEventBus<H> {
    /// Registered handlers with their keys, in subscription order.
    pub closed spec fn handlers_view(&self) -> Seq<(EventKey, H)> {
        self.handlers@
    }

    /// A bus with no handlers.
    pub fn new() -> (b: Self)
        ensures
            b.handlers_view() == Seq::<(EventKey, H)>::empty(),
    {
        LocalEventBus { handlers: Vec::new() }
    }

    /// Registers `handler` after all handlers registered so far.
    pub fn subscribe(&mut self, key: EventKey, handler: H)
        ensures
            final(self).handlers_view() == old(self).handlers_view().push((key, handler)),
    {
        self.handlers.push((key, handler));
    }

    /// Positions of the handlers registered under `key`, in subscription order.
    pub fn subscribers(&self, key: EventKey) -> (r: Vec<usize>)
        ensures
            subscriber_positions(self.handlers_view(), key, r@.map_values(|i: usize| i as int)),
    {
        let n = self.handlers.len();
        let mut out: Vec<usize> = Vec::new();
        let mut i: usize = 0;
        while i < n
            invariant
                n == self.handlers@.len(),
                i <= n,
                forall|a: int| 0 <= a < out@.len() ==> #[trigger] out@[a] < i && self.handlers@[out@[
                    a
                ] as int].0 == key,
                forall|a: int, b: int| 0 <= a < b < out@.len() ==> out@[a] < out@[b],
                forall|k: int|
                    0 <= k < i && #[trigger] self.handlers@[k].0 == key ==> exists|a: int|
                        0 <= a < out@.len() && out@[a] == k,
            decreases n - i,
        {
            if self.handlers[i].0 == key {
                let ghost before = out@;
                out.push(i);
                proof {
                    assert forall|k: int|
                        0 <= k < i + 1 && #[trigger] self.handlers@[k].0 == key implies exists|a: int|
                        0 <= a < out@.len() && out@[a] == k by {
                        if k == i {
                            assert(out@[before.len() as int] == k);
                        } else {
                            let a = choose|a: int| 0 <= a < before.len() && before[a] == k;
                            assert(out@[a] == k);
                        }
                    }
                }
            }
            i = i + 1;
        }
        let ghost idx = out@.map_values(|i: usize| i as int);
        assert forall|k: int|
            0 <= k < self.handlers@.len() && #[trigger] self.handlers@[k].0 == key implies exists|
            i: int,
        | 0 <= i < idx.len() && idx[i] == k by {
            let a = choose|a: int| 0 <= a < out@.len() && out@[a] == k;
            assert(idx[a] == k);
        }
        out
    }

    /// Calls, in subscription order, every handler registered under `key` with
    /// `event` (each call completes within `publish`); handlers under other keys
    /// are not called.
    ///
    /// Only the handlers under `key` need accept `event`, so no other handler can
    /// be called here; each of them has run (its `call_ensures` holds). The order
    /// of the calls is visible only through the handlers' side effects and is not
    /// part of this contract.
    pub fn publish<E>(&self, key: EventKey, event: &E)
        where H: Fn(&E)
        requires
            forall|i: int|
                0 <= i < self.handlers_view().len() && self.handlers_view()[i].0 == key
                    ==> #[trigger] self.handlers_view()[i].1.requires((event,)),
        ensures
            forall|k: int|
                0 <= k < self.handlers_view().len() && self.handlers_view()[k].0 == key
                    ==> call_ensures(#[trigger] self.handlers_view()[k].1, (event,), ()),
    {
        let idx = self.subscribers(key);
        let ghost pos = idx@.map_values(|i: usize| i as int);
        let mut i: usize = 0;
        while i < idx.len()
            invariant
                i <= idx@.len(),
                pos == idx@.map_values(|i: usize| i as int),
                forall|j: int|
                    0 <= j < self.handlers@.len() && self.handlers@[j].0 == key
                        ==> #[trigger] self.handlers@[j].1.requires((event,)),
                subscriber_positions(self.handlers@, key, pos),
                forall|a: int|
                    0 <= a < i ==> call_ensures(
                        #[trigger] self.handlers@[pos[a]].1,
                        (event,),
                        (),
                    ),
            decreases idx@.len() - i,
        {
            let j = idx[i];
            proof {
                assert(pos[i as int] == j as int);
            }
            (self.handlers[j].1)(event);
            i = i + 1;
        }
        proof {
            assert forall|k: int|
                0 <= k < self.handlers@.len() && self.handlers@[k].0 == key implies call_ensures(
                #[trigger] self.handlers@[k].1,
                (event,),
                (),
            ) by {
                let a = choose|a: int| 0 <= a < pos.len() && pos[a] == k;
                assert(call_ensures(self.handlers@[pos[a]].1, (event,), ()));
            }
        }
    }
}

impl<H> EventBus<H> for LocalEventBus<H> {
    /// Registers `handler` after all handlers registered so far.
    fn subscribe(&mut self, key: EventKey, handler: H)
        ensures
            final(self).handlers_view() == old(self).handlers_view().push((key, handler)),
    {
        LocalEventBus::subscribe(self, key, handler)
    }
}

impl<H> Default for LocalEventBus<H> {
    fn default() -> (b: Self)
        ensures
            b.handlers_view() == Seq::<(EventKey, H)>::empty(),
    {
        Self::new()
    }
}

} // verus!
