//! A small in-memory bus realising the polling execution model.
//!
//! [`PolledBus`] owns a bounded acceptance queue and the registration table;
//! subscriptions are capability tokens into that table, never owners. A
//! payload accepted by [`PolledBus::post`] stays pending until a driver call
//! to `spin` pumps delivery: spinning appends every pending payload, in
//! acceptance order, to the delivery log of every subscription active at
//! that point. Releasing a subscription deterministically deregisters it;
//! the token is consumed, so a released subscription can never be read
//! again.
//!
//! The caller of this model holds the bus exclusively, so no concurrent
//! consumer can drain the queue while `post` runs: a full queue stays full
//! for the whole call, every wait bound elapses without acceptance, and
//! `post` therefore never blocks. Shutting the bus down models destruction
//! of the underlying primitive: every later `post` or `spin` reports the
//! capability fault [`BusFault`].

use vstd::prelude::*;

use crate::ErrorType;
use crate::Spin;

verus! {

use core::time::Duration;

/// Capability fault of the polled bus: the underlying primitive was shut
/// down and the handle is unusable.
#[derive(Debug, PartialEq, Eq, Clone, Copy)]
pub struct BusFault;

/// Opaque subscription token of the polled bus.
///
/// It stays valid for exactly as long as it is held; handing it back to
/// [`PolledBus::release`] consumes it and deregisters the subscription.
pub struct Subscription {
    idx: usize,
}

impl Subscription {
    /// The registration-table slot this token refers to.
    pub closed spec fn id(self) -> int {
        self.idx as int
    }
}

struct Entry<P> {
    active: bool,
    log: Vec<P>,
}

/// A bounded publish/subscribe bus driven by polling.
pub struct PolledBus<P> {
    capacity: usize,
    queue: Vec<P>,
    subs: Vec<Entry<P>>,
    alive: bool,
}

impl<P: Copy> PolledBus<P> {
    /// Whether the underlying primitive is still usable.
    pub closed spec fn alive(self) -> bool {
        self.alive
    }

    /// The acceptance queue's capacity.
    pub closed spec fn cap(self) -> int {
        self.capacity as int
    }

    /// The accepted, not yet dispatched payloads, in acceptance order.
    pub closed spec fn pending(self) -> Seq<P> {
        self.queue@
    }

    /// How many registration-table slots exist, released ones included.
    pub closed spec fn n_subs(self) -> int {
        self.subs@.len() as int
    }

    /// Whether slot `i` holds an active subscription.
    pub closed spec fn active(self, i: int) -> bool {
        0 <= i < self.subs@.len() && self.subs@[i].active
    }

    /// The payloads delivered to slot `i` so far, in delivery order.
    pub closed spec fn log(self, i: int) -> Seq<P> {
        self.subs@[i].log@
    }

    /// Internal consistency: the queue never exceeds the capacity.
    pub closed spec fn wf(self) -> bool {
        self.queue@.len() <= self.capacity
    }

    /// Creates a live bus that accepts at most `capacity` payloads between
    /// two pumps of the driver.
    pub fn new(capacity: usize) -> (b: Self)
        ensures
            b.wf(),
            b.alive(),
            b.cap() == capacity,
            b.pending() == Seq::<P>::empty(),
            b.n_subs() == 0,
    {
        PolledBus { capacity, queue: Vec::new(), subs: Vec::new(), alive: true }
    }

    /// Destroys the underlying primitive: every later `post` or `spin`
    /// reports [`BusFault`]. Registrations and pending payloads are kept,
    /// but nothing will be delivered any more.
    pub fn shut_down(&mut self)
        requires
            old(self).wf(),
        ensures
            final(self).wf(),
            !final(self).alive(),
            final(self).cap() == old(self).cap(),
            final(self).pending() == old(self).pending(),
            final(self).n_subs() == old(self).n_subs(),
            forall|i: int| 0 <= i < old(self).n_subs()
                ==> final(self).active(i) == old(self).active(i)
                    && final(self).log(i) == old(self).log(i),
    {
        self.alive = false;
    }

    /// Whether the bus is still usable.
    pub fn is_alive(&self) -> (r: bool)
        ensures
            r == self.alive(),
    {
        self.alive
    }

    /// Registers a subscription and returns its token.
    ///
    /// The error is returned exactly when the bus was shut down; a fresh
    /// registration starts with an empty delivery log and observes only
    /// payloads accepted after this call.
    pub fn subscribe(&mut self) -> (r: Result<Subscription, BusFault>)
        requires
            old(self).wf(),
        ensures
            final(self).wf(),
            (r is Err) == !old(self).alive(),
            final(self).alive() == old(self).alive(),
            final(self).cap() == old(self).cap(),
            final(self).pending() == old(self).pending(),
            r is Err ==> *final(self) == *old(self),
            (forall|s: Subscription| r == Ok::<Subscription, BusFault>(s) ==> {
                &&& s.id() == old(self).n_subs()
                &&& final(self).n_subs() == old(self).n_subs() + 1
                &&& final(self).active(s.id())
                &&& final(self).log(s.id()) == Seq::<P>::empty()
                &&& forall|i: int| 0 <= i < old(self).n_subs()
                    ==> final(self).active(i) == old(self).active(i)
                        && final(self).log(i) == old(self).log(i)
            }),
    {
        if !self.alive {
            return Err(BusFault);
        }
        let idx = self.subs.len();
        self.subs.push(Entry { active: true, log: Vec::new() });
        Ok(Subscription { idx })
    }

    /// Deregisters the subscription behind `token` and consumes the token:
    /// payloads pumped after this call are no longer delivered to it, and
    /// its log can never be read again. Release works whether or not the
    /// bus is still alive.
    pub fn release(&mut self, token: Subscription)
        requires
            old(self).wf(),
            token.id() < old(self).n_subs(),
        ensures
            final(self).wf(),
            final(self).alive() == old(self).alive(),
            final(self).cap() == old(self).cap(),
            final(self).pending() == old(self).pending(),
            final(self).n_subs() == old(self).n_subs(),
            !final(self).active(token.id()),
            final(self).log(token.id()) == old(self).log(token.id()),
            forall|i: int| 0 <= i < old(self).n_subs() && i != token.id()
                ==> final(self).active(i) == old(self).active(i)
                    && final(self).log(i) == old(self).log(i),
    {
        let slot = &mut self.subs[token.idx];
        slot.active = false;
    }

    /// Attempts to inject `payload` into the acceptance queue.
    ///
    /// `Ok(true)` means the payload was accepted and now pends delivery;
    /// `Ok(false)` is the backpressure signal: the queue is full. The bus
    /// is held exclusively while this call runs, so no consumer can make
    /// room meanwhile: every `wait` bound elapses without acceptance and
    /// the call never blocks. [`BusFault`] is returned exactly when the bus
    /// was shut down, never for backpressure.
    pub fn post(&mut self, payload: &P, wait: Option<Duration>) -> (r: Result<bool, BusFault>)
        requires
            old(self).wf(),
        ensures
            final(self).wf(),
            final(self).alive() == old(self).alive(),
            final(self).cap() == old(self).cap(),
            final(self).n_subs() == old(self).n_subs(),
            forall|i: int| 0 <= i < old(self).n_subs()
                ==> final(self).active(i) == old(self).active(i)
                    && final(self).log(i) == old(self).log(i),
            (r is Err) == !old(self).alive(),
            old(self).alive() ==> r == Ok::<bool, BusFault>(
                old(self).pending().len() < old(self).cap(),
            ),
            r == Ok::<bool, BusFault>(true)
                ==> final(self).pending() == old(self).pending().push(*payload),
            r != Ok::<bool, BusFault>(true)
                ==> final(self).pending() == old(self).pending(),
    {
        if !self.alive {
            return Err(BusFault);
        }
        if self.queue.len() < self.capacity {
            self.queue.push(*payload);
            Ok(true)
        } else {
            Ok(false)
        }
    }

    /// The delivery log of the subscription behind `token`, in delivery
    /// order. Holding the token is proof the registration still exists.
    pub fn observed(&self, token: &Subscription) -> (r: &Vec<P>)
        requires
            self.wf(),
            token.id() < self.n_subs(),
        ensures
            r@ == self.log(token.id()),
    {
        &self.subs[token.idx].log
    }
}

impl<P: Copy> ErrorType for PolledBus<P> {
    type Error = BusFault;
}

impl<P: Copy> Spin for PolledBus<P> {
    open spec fn faulted(&self) -> bool {
        !self.alive()
    }

    /// Pumps delivery: every pending payload is appended, in acceptance
    /// order, to the log of every subscription active now, and the
    /// acceptance queue empties. All pending work is done before this call
    /// returns, so no wait bound ever has to elapse and the call never
    /// blocks.
    fn spin(&mut self, duration: Option<Duration>) -> (r: Result<(), BusFault>)
        ensures
            old(self).wf() ==> final(self).wf(),
            final(self).alive() == old(self).alive(),
            final(self).cap() == old(self).cap(),
            final(self).n_subs() == old(self).n_subs(),
            forall|i: int| 0 <= i < old(self).n_subs()
                ==> final(self).active(i) == old(self).active(i),
            old(self).alive() ==> final(self).pending() == Seq::<P>::empty(),
            !old(self).alive() ==> final(self).pending() == old(self).pending(),
            forall|i: int| 0 <= i < old(self).n_subs()
                ==> final(self).log(i) == if old(self).alive() && old(self).active(i) {
                    old(self).log(i) + old(self).pending()
                } else {
                    old(self).log(i)
                },
    {
        if !self.alive {
            return Err(BusFault);
        }
        let n = self.subs.len();
        let m = self.queue.len();
        let mut i: usize = 0;
        while i < n
            invariant
                i <= n,
                n == old(self).subs@.len(),
                m == old(self).queue@.len(),
                self.alive == old(self).alive,
                self.capacity == old(self).capacity,
                self.queue@ == old(self).queue@,
                self.subs@.len() == n,
                forall|k: int| 0 <= k < n
                    ==> self.subs@[k].active == old(self).subs@[k].active,
                forall|k: int| 0 <= k < i as int
                    ==> self.subs@[k].log@ == if old(self).subs@[k].active {
                        old(self).subs@[k].log@ + old(self).queue@
                    } else {
                        old(self).subs@[k].log@
                    },
                forall|k: int| i as int <= k < n
                    ==> self.subs@[k].log@ == old(self).subs@[k].log@,
            decreases n - i,
        {
            if self.subs[i].active {
                let mut j: usize = 0;
                while j < m
                    invariant
                        j <= m,
                        i < n,
                        n == old(self).subs@.len(),
                        m == old(self).queue@.len(),
                        self.alive == old(self).alive,
                        self.capacity == old(self).capacity,
                        self.queue@ == old(self).queue@,
                        self.subs@.len() == n,
                        forall|k: int| 0 <= k < n
                            ==> self.subs@[k].active == old(self).subs@[k].active,
                        forall|k: int| 0 <= k < i as int
                            ==> self.subs@[k].log@ == if old(self).subs@[k].active {
                                old(self).subs@[k].log@ + old(self).queue@
                            } else {
                                old(self).subs@[k].log@
                            },
                        forall|k: int| (i as int) < k < n
                            ==> self.subs@[k].log@ == old(self).subs@[k].log@,
                        self.subs@[i as int].log@ == old(self).subs@[i as int].log@
                            + old(self).queue@.subrange(0, j as int),
                    decreases m - j,
                {
                    let p = self.queue[j];
                    let slot = &mut self.subs[i];
                    slot.log.push(p);
                    proof {
                        assert(old(self).queue@.subrange(0, j + 1 as int)
                            == old(self).queue@.subrange(0, j as int).push(p));
                    }
                    j += 1;
                }
                proof {
                    assert(old(self).queue@.subrange(0, m as int) == old(self).queue@);
                }
            }
            i += 1;
        }
        self.queue.clear();
        Ok(())
    }
}

} // verus!
