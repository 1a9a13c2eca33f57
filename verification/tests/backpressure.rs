use core::time::Duration;

use event_bus::Postbox;
use event_bus::Spin;
use event_bus::mock::{backpressure_is_not_a_fault, MockBus, MockError, MockPostbox, Mode};
use event_bus::polled::PolledBus;

#[test]
fn full_postbox_rejects_for_every_wait() {
    let full = MockPostbox { mode: Mode::Full };
    let payload: u32 = 1;
    let waits = [
        None,
        Some(Duration::from_millis(0)),
        Some(Duration::from_millis(3)),
        Some(Duration::from_secs(3600)),
    ];
    for wait in waits {
        assert_eq!(full.post(&payload, wait), Ok(false));
    }
}

#[test]
fn down_postbox_faults_for_every_wait() {
    let down = MockPostbox { mode: Mode::Down };
    let payload: u32 = 1;
    let waits = [
        None,
        Some(Duration::from_millis(0)),
        Some(Duration::from_secs(3600)),
    ];
    for wait in waits {
        assert_eq!(down.post(&payload, wait), Err(MockError));
    }
}

#[test]
fn separation_law_yields_both_channels() {
    let (rejected, faulted) =
        backpressure_is_not_a_fault(&42, Some(Duration::from_millis(50)));
    assert_eq!(rejected, Ok(false));
    assert_eq!(faulted, Err(MockError));
}

#[test]
fn polled_bus_full_rejects_with_bounded_wait() {
    let mut bus: PolledBus<u32> = PolledBus::new(1);
    assert_eq!(bus.post(&1, None), Ok(true));
    // The bus is held exclusively, so nothing can drain it during the
    // bounded wait: the attempt must come back as backpressure, not hang
    // and not fault.
    assert_eq!(bus.post(&2, Some(Duration::from_millis(10))), Ok(false));
    assert_eq!(bus.post(&2, None), Ok(false));
}

#[test]
fn polled_bus_zero_capacity_rejects_everything() {
    let mut bus: PolledBus<u32> = PolledBus::new(0);
    assert_eq!(bus.post(&1, None), Ok(false));
    assert_eq!(bus.post(&1, Some(Duration::from_secs(1))), Ok(false));
}

#[test]
fn shut_down_bus_faults_every_call() {
    let mut bus: PolledBus<u32> = PolledBus::new(4);
    bus.shut_down();
    assert!(!bus.is_alive());
    assert_eq!(bus.post(&1, None), Err(event_bus::polled::BusFault));
    assert_eq!(bus.spin(None), Err(event_bus::polled::BusFault));
    assert!(bus.subscribe().is_err());
}

#[test]
fn mock_bus_spin_is_a_no_op_when_up() {
    let mut bus = MockBus { mode: Mode::Ready };
    assert_eq!(bus.spin(None), Ok(()));
    assert_eq!(bus.spin(Some(Duration::from_millis(1))), Ok(()));
    let mut down = MockBus { mode: Mode::Down };
    assert_eq!(down.spin(None), Err(MockError));
}
