use std::sync::{Arc, Mutex};

use fluid::event_bus::{Event, EventKey, LocalEventBus};

const PING: EventKey = 1;
const PONG: EventKey = 2;

#[derive(Clone)]
enum Message {
    Ping { value: u32 },
    Pong { text: &'static str },
}

type Handler = Box<dyn Fn(&Message) + Send + Sync>;

#[test]
fn single_handler_receives_event() {
    let mut bus: LocalEventBus<Handler> = LocalEventBus::new();
    let received = Arc::new(Mutex::new(Vec::new()));
    let received_clone = Arc::clone(&received);
    bus.subscribe(
        PING,
        Box::new(move |e| {
            if let Message::Ping { value } = e {
                received_clone.lock().unwrap().push(*value)
            }
        }),
    );
    bus.publish(PING, &Message::Ping { value: 42 });
    assert_eq!(*received.lock().unwrap(), vec![42]);
}

#[test]
fn multiple_handlers_all_called() {
    let mut bus: LocalEventBus<Handler> = LocalEventBus::new();
    let count = Arc::new(Mutex::new(0u32));
    let c1 = Arc::clone(&count);
    let c2 = Arc::clone(&count);
    bus.subscribe(PING, Box::new(move |_| *c1.lock().unwrap() += 1));
    bus.subscribe(PING, Box::new(move |_| *c2.lock().unwrap() += 10));
    bus.publish(PING, &Message::Ping { value: 0 });
    assert_eq!(*count.lock().unwrap(), 11);
}

#[test]
fn handlers_are_type_isolated() {
    let mut bus: LocalEventBus<Handler> = LocalEventBus::new();
    let ping_count = Arc::new(Mutex::new(0u32));
    let pong_count = Arc::new(Mutex::new(0u32));
    let pc = Arc::clone(&ping_count);
    let pg = Arc::clone(&pong_count);
    bus.subscribe(PING, Box::new(move |_| *pc.lock().unwrap() += 1));
    bus.subscribe(PONG, Box::new(move |_| *pg.lock().unwrap() += 1));
    bus.publish(PING, &Message::Ping { value: 0 });
    bus.publish(PING, &Message::Ping { value: 1 });
    bus.publish(PONG, &Message::Pong { text: "hi" });
    assert_eq!(*ping_count.lock().unwrap(), 2);
    assert_eq!(*pong_count.lock().unwrap(), 1);
}

#[test]
fn publish_with_no_handlers_is_silent() {
    let bus: LocalEventBus<Handler> = LocalEventBus::new();
    bus.publish(PING, &Message::Ping { value: 99 });
}

#[test]
fn handlers_run_in_subscription_order() {
    let mut bus: LocalEventBus<Handler> = LocalEventBus::new();
    let log = Arc::new(Mutex::new(Vec::new()));
    for tag in [1u32, 2, 3] {
        let l = Arc::clone(&log);
        bus.subscribe(PING, Box::new(move |_| l.lock().unwrap().push(tag)));
    }
    bus.publish(PING, &Message::Ping { value: 5 });
    assert_eq!(*log.lock().unwrap(), vec![1, 2, 3]);
    assert_eq!(bus.subscribers(PING), vec![0, 1, 2]);
    assert!(bus.subscribers(PONG).is_empty());
}

#[allow(dead_code)]
struct TestEvent {
    value: u32,
}

#[test]
fn test_event_is_event() {
    fn assert_event<E: Event>() {}
    assert_event::<TestEvent>();
}

#[test]
fn bus_is_send_and_sync() {
    fn assert_send_sync<T: Send + Sync>() {}
    assert_send_sync::<LocalEventBus<Handler>>();
}
