use core::time::Duration;

use event_bus::EventBus;
use event_bus::Postbox;
use event_bus::PostboxProvider;
use event_bus::mock::{MockBus, MockError, MockPostbox, MockProvider, Mode};
use event_bus::{post_through_exclusive, post_through_shared};

fn expected(mode: Mode) -> Result<bool, MockError> {
    match mode {
        Mode::Ready => Ok(true),
        Mode::Full => Ok(false),
        Mode::Down => Err(MockError),
    }
}

#[test]
fn postbox_same_outcome_each_way() {
    let payload: u32 = 7;
    for mode in [Mode::Ready, Mode::Full, Mode::Down] {
        let mut pb = MockPostbox { mode };
        let owned = pb.post(&payload, None);
        let shared = post_through_shared(&pb, &payload, None);
        let exclusive = post_through_exclusive(&mut pb, &payload, None);
        let qualified_shared =
            <&MockPostbox as Postbox<u32>>::post(&&pb, &payload, None);
        let qualified_exclusive =
            <&mut MockPostbox as Postbox<u32>>::post(&&mut pb, &payload, None);
        assert_eq!(owned, expected(mode));
        assert_eq!(shared, expected(mode));
        assert_eq!(exclusive, expected(mode));
        assert_eq!(qualified_shared, expected(mode));
        assert_eq!(qualified_exclusive, expected(mode));
    }
}

#[test]
fn postbox_same_outcome_each_way_with_wait() {
    let payload: u32 = 7;
    let wait = Some(Duration::from_millis(5));
    for mode in [Mode::Ready, Mode::Full, Mode::Down] {
        let mut pb = MockPostbox { mode };
        let owned = pb.post(&payload, wait);
        let shared = post_through_shared(&pb, &payload, wait);
        let exclusive = post_through_exclusive(&mut pb, &payload, wait);
        assert_eq!(owned, expected(mode));
        assert_eq!(shared, expected(mode));
        assert_eq!(exclusive, expected(mode));
    }
}

#[test]
fn event_bus_same_outcome_each_way() {
    for mode in [Mode::Ready, Mode::Full, Mode::Down] {
        let mut bus = MockBus { mode };
        let owned = bus.subscribe(|_p: &u32| {}).is_err();
        let shared =
            <&MockBus as EventBus<u32>>::subscribe(&&bus, |_p: &u32| {}).is_err();
        let exclusive =
            <&mut MockBus as EventBus<u32>>::subscribe(&&mut bus, |_p: &u32| {})
                .is_err();
        let faulted = mode == Mode::Down;
        assert_eq!(owned, faulted);
        assert_eq!(shared, faulted);
        assert_eq!(exclusive, faulted);
    }
}

#[test]
fn healthy_provider_post_never_faults() {
    let ready = MockProvider { mode: Mode::Ready };
    assert_eq!(event_bus::acquire_and_post(&ready, &5u32, None), Ok(true));
    let full = MockProvider { mode: Mode::Full };
    assert_eq!(
        event_bus::acquire_and_post(&full, &5u32, Some(Duration::from_millis(2))),
        Ok(false)
    );
}

#[test]
fn provider_same_outcome_each_way() {
    for mode in [Mode::Ready, Mode::Full, Mode::Down] {
        let mut provider = MockProvider { mode };
        let owned = provider.postbox();
        let shared = <&MockProvider as PostboxProvider<u32>>::postbox(&&provider);
        let exclusive =
            <&mut MockProvider as PostboxProvider<u32>>::postbox(&&mut provider);
        let want = match mode {
            Mode::Down => Err(MockError),
            other => Ok(MockPostbox { mode: other }),
        };
        assert_eq!(owned, want);
        assert_eq!(shared, want);
        assert_eq!(exclusive, want);
    }
}
