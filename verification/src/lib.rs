//! Capability contracts for a lightweight, embeddable publish/subscribe
//! event bus.
//!
//! The crate root holds the blocking/polling capability set: a [`Postbox`]
//! injects payloads, an [`EventBus`] registers subscriber callbacks, a
//! [`PostboxProvider`] hands out per-context publisher handles, and [`Spin`]
//! lets a polling deployment advance the bus's internal work. The [`asynch`]
//! module holds the suspending counterparts built on the same model. The
//! [`mock`] module offers deterministic capabilities for exercising the
//! contracts, and the [`polled`] module a small in-memory bus that realises
//! the polling execution model.
//!
//! Failure is reported on two disjoint channels that must never be conflated:
//! backpressure (the bus cannot accept a payload within the wait bound) is a
//! plain `Ok(false)`, while capability faults (handle invalidated, underlying
//! primitive destroyed) surface as the capability's associated error. Every
//! capability exposes the spec-level predicate `faulted` that says which of
//! the two regimes it is in, and each operation's contract ties its `Result`
//! to that predicate: an error comes back exactly when the capability is
//! faulted.

use vstd::prelude::*;

pub mod asynch;
pub mod mock;
pub mod polled;

verus! {

use core::time::Duration;

/// Associates a capability with its single error kind.
///
/// Every other capability contract is parameterized over this association.
/// Reference wrappers resolve to the same error kind as the wrapped
/// capability, so delegation through a reference cannot alter observable
/// failure behaviour.
pub trait ErrorType {
    /// The error kind reported for capability faults.
    type Error: core::fmt::Debug;
}

impl<E: ErrorType> ErrorType for &E {
    type Error = E::Error;
}

impl<E: ErrorType> ErrorType for &mut E {
    type Error = E::Error;
}

/// Cooperative driver hook for polling-style bus implementations.
///
/// An outer scheduler calls [`Spin::spin`] repeatedly to advance dispatch
/// and queue draining. Push-driven implementations may implement it as a
/// no-op that returns immediately.
pub trait Spin: ErrorType {
    /// Whether the underlying primitive is unusable (a capability fault).
    spec fn faulted(&self) -> bool;

    /// Advances the bus's internal bookkeeping.
    ///
    /// `None` asks to block until at least one unit of work is performed;
    /// `Some(d)` bounds the block to `d`. The error is returned exactly when
    /// the underlying primitive is unusable; spinning neither causes nor
    /// cures a capability fault.
    fn spin(&mut self, duration: Option<Duration>) -> (r: Result<(), Self::Error>)
        ensures
            (r is Err) == old(self).faulted(),
            final(self).faulted() == old(self).faulted(),
    ;
}

/// Publisher handle: injects one payload instance into the bus per call.
pub trait Postbox<P>: ErrorType {
    /// Whether this handle suffers a capability fault (handle invalidated,
    /// underlying primitive destroyed).
    spec fn faulted(&self) -> bool;

    /// Attempts to deliver `payload` into the bus.
    ///
    /// `wait` selects the blocking bound: `None` is a non-blocking attempt,
    /// `Some(d)` blocks up to `d`. `Ok(true)` means the payload was accepted
    /// for delivery; `Ok(false)` is the backpressure signal: the attempt
    /// could not be satisfied within the wait bound. Acceptance is not a
    /// delivery confirmation. The associated error is returned exactly for
    /// capability-level faults, never for ordinary backpressure.
    fn post(&self, payload: &P, wait: Option<Duration>) -> (r: Result<bool, Self::Error>)
        ensures
            (r is Err) == self.faulted(),
    ;
}

impl<'b, P, PB: Postbox<P>> Postbox<P> for &'b PB {
    open spec fn faulted(&self) -> bool {
        (**self).faulted()
    }

    fn post(&self, payload: &P, wait: Option<Duration>) -> (r: Result<bool, Self::Error>) {
        (*self).post(payload, wait)
    }
}

impl<'b, P, PB: Postbox<P>> Postbox<P> for &'b mut PB {
    open spec fn faulted(&self) -> bool {
        (**self).faulted()
    }

    fn post(&self, payload: &P, wait: Option<Duration>) -> (r: Result<bool, Self::Error>) {
        (**self).post(payload, wait)
    }
}

/// Subscription registrar for the blocking execution model.
///
/// `subscribe` registers a callback that is invoked with a shared reference
/// to each payload as it is delivered, and returns an opaque subscription
/// token. The registration stays active for exactly as long as the token is
/// held: releasing the token deterministically deregisters the callback. The
/// token is a capability reference into the bus's registration table, never
/// an owner, and must not outlive the bus.
pub trait EventBus<P>: ErrorType {
    /// Opaque token whose lifetime governs the registration's lifetime.
    type Subscription;

    /// Whether this bus suffers a capability fault.
    spec fn faulted(&self) -> bool;

    /// Registers `callback` for delivery of every subsequently accepted
    /// payload.
    ///
    /// The error is returned exactly when registration cannot be
    /// established (the bus is unusable); delivery-time issues have no
    /// return path to the subscriber in this push model.
    fn subscribe<'a, F>(&'a self, callback: F) -> (r: Result<Self::Subscription, Self::Error>)
        where F: FnMut(&P) + Send + 'a,
        ensures
            (r is Err) == self.faulted(),
    ;
}

impl<'e, P, E: EventBus<P>> EventBus<P> for &'e E {
    type Subscription = E::Subscription;

    open spec fn faulted(&self) -> bool {
        (**self).faulted()
    }

    fn subscribe<'a, F>(&'a self, callback: F) -> (r: Result<Self::Subscription, Self::Error>)
        where F: FnMut(&P) + Send + 'a,
    {
        (**self).subscribe(callback)
    }
}

impl<'e, P, E: EventBus<P>> EventBus<P> for &'e mut E {
    type Subscription = E::Subscription;

    open spec fn faulted(&self) -> bool {
        (**self).faulted()
    }

    fn subscribe<'a, F>(&'a self, callback: F) -> (r: Result<Self::Subscription, Self::Error>)
        where F: FnMut(&P) + Send + 'a,
    {
        (**self).subscribe(callback)
    }
}

/// Hands out a publisher handle scoped to the calling context.
///
/// On multi-context systems a single shared publisher may need
/// synchronization; per-context acquisition lets an implementation hand out
/// context-local handles, while a trivial implementation may return a shared
/// one.
pub trait PostboxProvider<P>: ErrorType {
    /// The publisher handle type, reporting the same error kind.
    type Postbox: Postbox<P, Error = Self::Error>;

    /// Whether this provider suffers a capability fault.
    spec fn faulted(&self) -> bool;

    /// Acquires a publisher handle for the caller's context.
    ///
    /// The error is returned exactly when no handle can be allocated; a
    /// handle that is handed out is usable at acquisition time.
    fn postbox(&self) -> (r: Result<Self::Postbox, Self::Error>)
        ensures
            (r is Err) == self.faulted(),
            (forall|pb: Self::Postbox| r == Ok::<Self::Postbox, Self::Error>(pb)
                ==> !pb.faulted()),
    ;
}

impl<'p, P, PP: PostboxProvider<P>> PostboxProvider<P> for &'p PP {
    type Postbox = PP::Postbox;

    open spec fn faulted(&self) -> bool {
        (**self).faulted()
    }

    fn postbox(&self) -> (r: Result<Self::Postbox, Self::Error>) {
        (*self).postbox()
    }
}

impl<'p, P, PP: PostboxProvider<P>> PostboxProvider<P> for &'p mut PP {
    type Postbox = PP::Postbox;

    open spec fn faulted(&self) -> bool {
        (**self).faulted()
    }

    fn postbox(&self) -> (r: Result<Self::Postbox, Self::Error>) {
        (**self).postbox()
    }
}

/// Delegation transparency at the spec level: a publisher handle wrapped in
/// a shared reference is faulted exactly when the wrapped handle is, so the
/// wrapped and the unwrapped capability are governed by the same `post`
/// contract.
pub proof fn lemma_postbox_ref_same_fault<P, PB: Postbox<P>>(pb: &PB)
    ensures
        (&pb).faulted() == pb.faulted(),
{
}

/// Delegation transparency at the spec level for the bus capability: a bus
/// wrapped in a shared reference is faulted exactly when the wrapped bus is,
/// so both are governed by the same `subscribe` contract.
pub proof fn lemma_event_bus_ref_same_fault<P, E: EventBus<P>>(bus: &E)
    ensures
        (&bus).faulted() == bus.faulted(),
{
}

/// Delegation transparency at the spec level for the provider capability.
pub proof fn lemma_provider_ref_same_fault<P, PP: PostboxProvider<P>>(provider: &PP)
    ensures
        (&provider).faulted() == provider.faulted(),
{
}

/// Drives a polling bus for `rounds` pump cycles, as an outer scheduler's
/// loop would, bounding each pump by `pause`. Pumping stops at the first
/// capability fault; the count says how many pumps completed. An error is
/// reported only for a fault, and whenever at least one pump was asked of a
/// faulted bus; driving a healthy bus completes every round and never errs.
pub fn drive<S: Spin>(bus: &mut S, rounds: usize, pause: Option<Duration>)
    -> (r: (usize, Result<(), S::Error>))
    ensures
        final(bus).faulted() == old(bus).faulted(),
        r.1 is Err ==> old(bus).faulted(),
        rounds > 0 ==> ((r.1 is Err) == old(bus).faulted()),
        r.1 is Ok ==> r.0 == rounds,
{
    let mut i: usize = 0;
    while i < rounds
        invariant
            i <= rounds,
            bus.faulted() == old(bus).faulted(),
            i > 0 ==> !old(bus).faulted(),
        decreases rounds - i,
    {
        match bus.spin(pause) {
            Ok(()) => {},
            Err(e) => {
                return (i, Err(e));
            },
        }
        i += 1;
    }
    (i, Ok(()))
}

/// A publisher handle freshly acquired from a healthy provider is usable:
/// the first publish attempt through it reports backpressure at worst,
/// never a capability fault. The two failure channels stay disjoint across
/// the acquisition: `Ok(true)` is acceptance, `Ok(false)` is backpressure,
/// and no error can come back.
pub fn acquire_and_post<P, PP: PostboxProvider<P>>(
    provider: &PP,
    payload: &P,
    wait: Option<Duration>,
) -> (r: Result<bool, PP::Error>)
    requires
        !provider.faulted(),
    ensures
        r is Ok,
{
    let pb = match provider.postbox() {
        Ok(pb) => pb,
        Err(_) => vstd::pervasive::unreached(),
    };
    pb.post(payload, wait)
}

/// Delegation transparency for a publish attempt through a shared
/// reference: the delegated call yields an outcome that satisfies the very
/// contract of the wrapped handle — an error comes back exactly when the
/// wrapped handle is faulted.
pub fn post_through_shared<P, PB: Postbox<P>>(pb: &PB, payload: &P, wait: Option<Duration>)
    -> (r: Result<bool, PB::Error>)
    ensures
        (r is Err) == pb.faulted(),
{
    (&pb).post(payload, wait)
}

/// Delegation transparency for a publish attempt through an exclusive
/// reference: the delegated call yields an outcome that satisfies the very
/// contract of the wrapped handle, and delegation leaves the handle as it
/// was.
pub fn post_through_exclusive<P, PB: Postbox<P>>(pb: &mut PB, payload: &P, wait: Option<Duration>)
    -> (r: Result<bool, PB::Error>)
    ensures
        (r is Err) == old(pb).faulted(),
        *final(pb) == *old(pb),
{
    (&pb).post(payload, wait)
}

} // verus!
