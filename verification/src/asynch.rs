//! Capability contracts for the asynchronous execution model.
//!
//! These mirror the blocking capabilities at the crate root, but every
//! operation is a suspension point of a cooperative scheduler rather than a
//! blocking call: `send` suspends the calling task until the value is
//! accepted or a terminal condition applies, `recv` suspends until the next
//! payload for the subscription is available, and `subscribe`/`postbox` are
//! suspending registration/acquisition calls. The contracts here constrain
//! what each call yields once it completes; when and how the task suspends is
//! the scheduler's business and is outside them. Abandoning a pending call
//! must release any partial registration or reserved capacity.

use vstd::prelude::*;

pub use crate::ErrorType;
pub use crate::Spin;

verus! {

/// Publisher capability for the asynchronous model: the suspending
/// counterpart of the blocking `Postbox`.
///
/// `send` yields an implementation-defined result value — conventionally an
/// acceptance outcome or a fault; no boolean/error split is mandated. Each
/// implementation publishes, through [`Sender::sent`], the relation between
/// the value handed in and the result the completed call yields.
pub trait Sender {
    /// The payload type this sender accepts.
    type Data: Send;

    /// The outcome type a completed `send` yields.
    type Result: Send;

    /// The implementation's contract for a completed `send`: which results
    /// `r` a call that was handed `value` may yield.
    spec fn sent(&self, value: Self::Data, r: Self::Result) -> bool;

    /// Delivers `value` into the bus, suspending the calling task until the
    /// value is accepted or a terminal condition applies.
    fn send(&self, value: Self::Data) -> (r: Self::Result)
        ensures
            self.sent(value, r),
    ;
}

impl<'s, S: Sender> Sender for &'s S {
    type Data = S::Data;
    type Result = S::Result;

    open spec fn sent(&self, value: Self::Data, r: Self::Result) -> bool {
        (**self).sent(value, r)
    }

    fn send(&self, value: Self::Data) -> (r: Self::Result) {
        (*self).send(value)
    }
}

impl<'s, S: Sender> Sender for &'s mut S {
    type Data = S::Data;
    type Result = S::Result;

    open spec fn sent(&self, value: Self::Data, r: Self::Result) -> bool {
        (**self).sent(value, r)
    }

    fn send(&self, value: Self::Data) -> (r: Self::Result) {
        (**self).send(value)
    }
}

/// Subscriber capability for the asynchronous model: the suspending
/// counterpart of the blocking subscription callback.
///
/// `recv` yields the next payload for this subscription by value, since
/// ownership must be transferable across a suspension boundary into the
/// caller's task. Each implementation publishes, through
/// [`Receiver::received`], which values a completed `recv` may yield.
pub trait Receiver {
    /// The value type a completed `recv` yields.
    type Result: Send;

    /// The implementation's contract for a completed `recv`: which values
    /// `r` it may yield.
    spec fn received(&self, r: Self::Result) -> bool;

    /// Suspends until the next payload for this subscription is available
    /// and returns it by value.
    fn recv(&self) -> (r: Self::Result)
        ensures
            self.received(r),
    ;
}

impl<'r, R: Receiver> Receiver for &'r R {
    type Result = R::Result;

    open spec fn received(&self, r: Self::Result) -> bool {
        (**self).received(r)
    }

    fn recv(&self) -> (r: Self::Result) {
        (*self).recv()
    }
}

impl<'r, R: Receiver> Receiver for &'r mut R {
    type Result = R::Result;

    open spec fn received(&self, r: Self::Result) -> bool {
        (**self).received(r)
    }

    fn recv(&self) -> (r: Self::Result) {
        (**self).recv()
    }
}

/// Subscription registrar for the asynchronous model.
///
/// `subscribe` is a suspending registration call that yields a pollable
/// receiver handle instead of registering a callback. The subscription has
/// the same deregistration-on-release invariant as the blocking model: it
/// stays active for exactly as long as the receiver is held, and must not
/// outlive the bus.
pub trait EventBus<P>: ErrorType {
    /// The receiver handle whose lifetime governs the registration.
    type Subscription: Receiver<Result = P>;

    /// Whether this bus suffers a capability fault.
    spec fn faulted(&self) -> bool;

    /// Registers a subscription and yields its receiver.
    ///
    /// The error is returned exactly when registration cannot be
    /// established (the bus is unusable).
    fn subscribe(&self) -> (r: Result<Self::Subscription, Self::Error>)
        ensures
            (r is Err) == self.faulted(),
    ;
}

impl<'e, P, E: EventBus<P>> EventBus<P> for &'e E {
    type Subscription = E::Subscription;

    open spec fn faulted(&self) -> bool {
        (**self).faulted()
    }

    fn subscribe(&self) -> (r: Result<Self::Subscription, Self::Error>) {
        (**self).subscribe()
    }
}

impl<'e, P, E: EventBus<P>> EventBus<P> for &'e mut E {
    type Subscription = E::Subscription;

    open spec fn faulted(&self) -> bool {
        (**self).faulted()
    }

    fn subscribe(&self) -> (r: Result<Self::Subscription, Self::Error>) {
        (**self).subscribe()
    }
}

/// Hands out a suspending publisher handle scoped to the calling context.
pub trait PostboxProvider<P>: ErrorType {
    /// The sender handle type for this provider's bus.
    type Postbox: Sender<Data = P>;

    /// Whether this provider suffers a capability fault.
    spec fn faulted(&self) -> bool;

    /// Acquires a sender handle for the caller's context, suspending until
    /// acquisition completes.
    ///
    /// The error is returned exactly when no handle can be allocated.
    fn postbox(&self) -> (r: Result<Self::Postbox, Self::Error>)
        ensures
            (r is Err) == self.faulted(),
    ;
}

impl<'p, P, PP: PostboxProvider<P>> PostboxProvider<P> for &'p PP {
    type Postbox = PP::Postbox;

    open spec fn faulted(&self) -> bool {
        (**self).faulted()
    }

    fn postbox(&self) -> (r: Result<Self::Postbox, Self::Error>) {
        (*self).postbox()
    }
}

impl<'p, P, PP: PostboxProvider<P>> PostboxProvider<P> for &'p mut PP {
    type Postbox = PP::Postbox;

    open spec fn faulted(&self) -> bool {
        (**self).faulted()
    }

    fn postbox(&self) -> (r: Result<Self::Postbox, Self::Error>) {
        (**self).postbox()
    }
}

/// A subscription freshly registered on a healthy bus is usable: the
/// registration succeeds, and the first completed `recv` yields a value the
/// receiver's own contract admits.
pub fn subscribe_and_recv<P, E: EventBus<P>>(bus: &E) -> (r: (E::Subscription, P))
    requires
        !bus.faulted(),
    ensures
        r.0.received(r.1),
{
    let rx = match bus.subscribe() {
        Ok(rx) => rx,
        Err(_) => vstd::pervasive::unreached(),
    };
    let value = rx.recv();
    (rx, value)
}

/// Delegation transparency at the spec level for senders: a sender wrapped
/// in a shared reference admits exactly the outcomes the wrapped sender
/// admits, so both are governed by the same `send` contract.
pub proof fn lemma_sender_ref_same_outcomes<S: Sender>(s: &S, value: S::Data, r: S::Result)
    ensures
        (&s).sent(value, r) == s.sent(value, r),
{
}

/// Delegation transparency at the spec level for receivers: a receiver
/// wrapped in a shared reference may yield exactly the values the wrapped
/// receiver may yield.
pub proof fn lemma_receiver_ref_same_outcomes<R: Receiver>(rx: &R, r: R::Result)
    ensures
        (&rx).received(r) == rx.received(r),
{
}

/// Delegation transparency for a send through a shared reference: the
/// delegated call yields a result that the wrapped sender's own contract
/// admits.
pub fn send_through_shared<S: Sender>(s: &S, value: S::Data) -> (r: S::Result)
    ensures
        s.sent(value, r),
{
    (&s).send(value)
}

/// Delegation transparency for a receive through a shared reference: the
/// delegated call yields a value that the wrapped receiver's own contract
/// admits.
pub fn recv_through_shared<R: Receiver>(rx: &R) -> (r: R::Result)
    ensures
        rx.received(r),
{
    (&rx).recv()
}

} // verus!
