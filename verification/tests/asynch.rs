use event_bus::asynch::{
    recv_through_shared, send_through_shared, EventBus, PostboxProvider, Receiver, Sender,
};
use event_bus::mock::{ConstReceiver, MockAsyncBus, MockError, Mode, SinkSender};

#[test]
fn sink_sender_accepts_every_value() {
    let sender = SinkSender;
    assert!(sender.send(0));
    assert!(sender.send(u32::MAX));
    assert!(send_through_shared(&sender, 17));
    assert!(<&SinkSender as Sender>::send(&&sender, 17));
    let mut owned = SinkSender;
    assert!(<&mut SinkSender as Sender>::send(&&mut owned, 17));
}

#[test]
fn const_receiver_yields_its_value() {
    let rx = ConstReceiver { value: 33 };
    assert_eq!(rx.recv(), 33);
    assert_eq!(recv_through_shared(&rx), 33);
    assert_eq!(<&ConstReceiver as Receiver>::recv(&&rx), 33);
    let mut owned = ConstReceiver { value: 33 };
    assert_eq!(<&mut ConstReceiver as Receiver>::recv(&&mut owned), 33);
}

#[test]
fn async_bus_subscription_receives() {
    let bus = MockAsyncBus { mode: Mode::Ready, fed: 4 };
    let rx = bus.subscribe().unwrap();
    assert_eq!(rx.recv(), 4);
    assert_eq!(rx.recv(), 4);
}

#[test]
fn async_bus_postbox_sends() {
    let bus = MockAsyncBus { mode: Mode::Ready, fed: 0 };
    let tx = bus.postbox().unwrap();
    assert!(tx.send(11));
}

#[test]
fn healthy_async_bus_subscription_receives() {
    let bus = MockAsyncBus { mode: Mode::Full, fed: 9 };
    let (rx, first) = event_bus::asynch::subscribe_and_recv(&bus);
    assert_eq!(first, 9);
    assert_eq!(rx.recv(), 9);
}

#[test]
fn async_bus_down_faults_registration_and_acquisition() {
    let bus = MockAsyncBus { mode: Mode::Down, fed: 0 };
    assert_eq!(bus.subscribe().unwrap_err(), MockError);
    assert_eq!(bus.postbox().unwrap_err(), MockError);
    let shared = <&MockAsyncBus as EventBus<u32>>::subscribe(&&bus);
    assert!(shared.is_err());
    let acquired = <&MockAsyncBus as PostboxProvider<u32>>::postbox(&&bus);
    assert!(acquired.is_err());
}
