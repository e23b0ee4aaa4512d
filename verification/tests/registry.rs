use flic::events::{Event, Opcode, PingResponse};
use flic::registry::Registry;
use std::cell::RefCell;
use std::rc::Rc;

type Handler = Box<dyn Fn(&Event)>;

fn recorder(log: &Rc<RefCell<Vec<u32>>>, tag: u32) -> Handler {
    let log = Rc::clone(log);
    Box::new(move |_evt: &Event| log.borrow_mut().push(tag))
}

#[test]
fn handlers_run_in_registration_order() {
    let log = Rc::new(RefCell::new(Vec::new()));
    let mut registry: Registry<Handler> = Registry::new();
    registry.register(Opcode::PingResponse, recorder(&log, 1));
    registry.register(Opcode::ButtonDeleted, recorder(&log, 99));
    registry.register(Opcode::PingResponse, recorder(&log, 2));
    registry.register(Opcode::PingResponse, recorder(&log, 3));
    let evt = Event::PingResponse(PingResponse { ping_id: 7 });
    assert_eq!(registry.dispatch(&evt, Opcode::PingResponse), 3);
    assert_eq!(*log.borrow(), vec![1, 2, 3]);
}

#[test]
fn event_without_handlers_is_dropped() {
    let log = Rc::new(RefCell::new(Vec::new()));
    let mut registry: Registry<Handler> = Registry::new();
    registry.register(Opcode::ButtonDeleted, recorder(&log, 1));
    let evt = Event::PingResponse(PingResponse { ping_id: 7 });
    assert_eq!(registry.dispatch(&evt, Opcode::PingResponse), 0);
    assert!(log.borrow().is_empty());
    // Nothing was kept for later: a handler registered now sees only what comes next.
    registry.register(Opcode::PingResponse, recorder(&log, 2));
    assert!(log.borrow().is_empty());
}

#[test]
fn handler_sees_the_event() {
    let seen = Rc::new(RefCell::new(Vec::new()));
    let sink = Rc::clone(&seen);
    let mut registry: Registry<Handler> = Registry::new();
    registry.register(
        Opcode::PingResponse,
        Box::new(move |evt: &Event| {
            if let Event::PingResponse(p) = evt {
                sink.borrow_mut().push(p.ping_id);
            }
        }),
    );
    registry.dispatch(
        &Event::PingResponse(PingResponse { ping_id: 41 }),
        Opcode::PingResponse,
    );
    registry.dispatch(
        &Event::PingResponse(PingResponse { ping_id: 42 }),
        Opcode::PingResponse,
    );
    assert_eq!(*seen.borrow(), vec![41, 42]);
}

#[test]
fn count_follows_registration() {
    let mut registry: Registry<Handler> = Registry::new();
    assert_eq!(registry.count(Opcode::BatteryStatus), 0);
    registry.register(Opcode::BatteryStatus, Box::new(|_| ()));
    registry.register(Opcode::BatteryStatus, Box::new(|_| ()));
    assert_eq!(registry.count(Opcode::BatteryStatus), 2);
    assert_eq!(registry.count(Opcode::AdvertisementPacket), 0);
}
