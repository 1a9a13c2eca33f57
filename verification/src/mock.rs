//! Deterministic mock capabilities.
//!
//! Each mock pins its outcome completely, so the separation between the
//! backpressure channel (`Ok(false)`) and the fault channel (`Err`) can be
//! exercised on every capability, and so a capability wrapped in a shared
//! reference, an exclusive reference, or held as the owned value can be
//! shown to yield identical outcomes.

use vstd::prelude::*;

use crate::ErrorType;
use crate::EventBus;
use crate::Postbox;
use crate::PostboxProvider;
use crate::Spin;
use crate::asynch;

verus! {

use core::time::Duration;

/// The one error kind the mock capabilities report.
#[derive(Debug, PartialEq, Eq, Clone, Copy)]
pub struct MockError;

/// Fixed behaviour of a mock capability.
#[derive(Debug, PartialEq, Eq, Clone, Copy)]
pub enum Mode {
    /// Every attempt is accepted.
    Ready,
    /// No room, ever: every attempt is rejected as backpressure.
    Full,
    /// The underlying primitive is destroyed: every call faults.
    Down,
}

/// The outcome a mock publish attempt yields in the given mode.
pub open spec fn mock_outcome(mode: Mode) -> Result<bool, MockError> {
    match mode {
        Mode::Ready => Ok(true),
        Mode::Full => Ok(false),
        Mode::Down => Err(MockError),
    }
}

/// A publisher handle with fixed behaviour: it accepts, rejects, or faults
/// on every attempt, whatever the payload and the wait bound.
#[derive(Debug, PartialEq, Eq, Clone, Copy)]
pub struct MockPostbox {
    pub mode: Mode,
}

impl ErrorType for MockPostbox {
    type Error = MockError;
}

impl<P> Postbox<P> for MockPostbox {
    open spec fn faulted(&self) -> bool {
        self.mode is Down
    }

    fn post(&self, payload: &P, wait: Option<Duration>) -> (r: Result<bool, MockError>)
        ensures
            r == mock_outcome(self.mode),
    {
        match self.mode {
            Mode::Ready => Ok(true),
            Mode::Full => Ok(false),
            Mode::Down => Err(MockError),
        }
    }
}

/// The registration token the mock bus hands out. It receives nothing: the
/// mock bus registers callbacks but never delivers.
pub struct MockSubscription;

/// A subscription registrar with fixed behaviour: registration succeeds
/// unless the bus is down, and no payload is ever delivered. Its driver
/// hook is the no-op of a push-driven deployment.
#[derive(Debug, PartialEq, Eq, Clone, Copy)]
pub struct MockBus {
    pub mode: Mode,
}

impl ErrorType for MockBus {
    type Error = MockError;
}

impl<P> EventBus<P> for MockBus {
    type Subscription = MockSubscription;

    open spec fn faulted(&self) -> bool {
        self.mode is Down
    }

    fn subscribe<'a, F>(&'a self, callback: F) -> (r: Result<MockSubscription, MockError>)
        where F: FnMut(&P) + Send + 'a,
    {
        match self.mode {
            Mode::Down => Err(MockError),
            _ => Ok(MockSubscription),
        }
    }
}

impl Spin for MockBus {
    open spec fn faulted(&self) -> bool {
        self.mode is Down
    }

    fn spin(&mut self, duration: Option<Duration>) -> (r: Result<(), MockError>) {
        match self.mode {
            Mode::Down => Err(MockError),
            _ => Ok(()),
        }
    }
}

/// A provider with fixed behaviour: when it is down no handle can be
/// allocated; otherwise it hands out a [`MockPostbox`] that accepts or
/// rejects according to the provider's mode.
#[derive(Debug, PartialEq, Eq, Clone, Copy)]
pub struct MockProvider {
    pub mode: Mode,
}

impl ErrorType for MockProvider {
    type Error = MockError;
}

impl PostboxProvider<u32> for MockProvider {
    type Postbox = MockPostbox;

    open spec fn faulted(&self) -> bool {
        self.mode is Down
    }

    fn postbox(&self) -> (r: Result<MockPostbox, MockError>)
        ensures
            self.mode is Down ==> r == Err::<MockPostbox, MockError>(MockError),
            !(self.mode is Down) ==> r == Ok::<MockPostbox, MockError>(
                MockPostbox { mode: self.mode },
            ),
            (forall|pb: MockPostbox| r == Ok::<MockPostbox, MockError>(pb)
                ==> !(<MockPostbox as Postbox<u32>>::faulted(&pb))),
    {
        match self.mode {
            Mode::Down => Err(MockError),
            _ => Ok(MockPostbox { mode: self.mode }),
        }
    }
}

/// A sender that accepts every value and discards it; its result is the
/// acceptance outcome, always `true`.
#[derive(Debug, PartialEq, Eq, Clone, Copy)]
pub struct SinkSender;

impl asynch::Sender for SinkSender {
    type Data = u32;
    type Result = bool;

    open spec fn sent(&self, value: u32, r: bool) -> bool {
        r == true
    }

    fn send(&self, value: u32) -> (r: bool) {
        true
    }
}

/// A receiver whose every completed `recv` yields the same fixed value.
#[derive(Debug, PartialEq, Eq, Clone, Copy)]
pub struct ConstReceiver {
    pub value: u32,
}

impl asynch::Receiver for ConstReceiver {
    type Result = u32;

    open spec fn received(&self, r: u32) -> bool {
        r == self.value
    }

    fn recv(&self) -> (r: u32) {
        self.value
    }
}

/// A mock bus for the asynchronous model: subscribing yields a receiver
/// that repeats `fed`, and acquiring a postbox yields the accepting sink
/// sender — unless the bus is down, in which case both calls fault.
#[derive(Debug, PartialEq, Eq, Clone, Copy)]
pub struct MockAsyncBus {
    pub mode: Mode,
    pub fed: u32,
}

impl ErrorType for MockAsyncBus {
    type Error = MockError;
}

impl asynch::EventBus<u32> for MockAsyncBus {
    type Subscription = ConstReceiver;

    open spec fn faulted(&self) -> bool {
        self.mode is Down
    }

    fn subscribe(&self) -> (r: Result<ConstReceiver, MockError>)
        ensures
            !(self.mode is Down) ==> r == Ok::<ConstReceiver, MockError>(
                ConstReceiver { value: self.fed },
            ),
    {
        match self.mode {
            Mode::Down => Err(MockError),
            _ => Ok(ConstReceiver { value: self.fed }),
        }
    }
}

impl asynch::PostboxProvider<u32> for MockAsyncBus {
    type Postbox = SinkSender;

    open spec fn faulted(&self) -> bool {
        self.mode is Down
    }

    fn postbox(&self) -> (r: Result<SinkSender, MockError>) {
        match self.mode {
            Mode::Down => Err(MockError),
            _ => Ok(SinkSender),
        }
    }
}

/// Backpressure and fault separation: against a bus that permanently has no
/// room, a publish attempt yields `Ok(false)` for every payload and every
/// wait bound, never an error; against a destroyed bus, every attempt
/// yields the error.
pub fn backpressure_is_not_a_fault(payload: &u32, wait: Option<Duration>)
    -> (r: (Result<bool, MockError>, Result<bool, MockError>))
    ensures
        r.0 == Ok::<bool, MockError>(false),
        r.1 == Err::<bool, MockError>(MockError),
{
    let full = MockPostbox { mode: Mode::Full };
    let down = MockPostbox { mode: Mode::Down };
    (full.post(payload, wait), down.post(payload, wait))
}

} // verus!
