use drogue_device::actor::{
    Actor, ActorContext, Bind, Message, NotificationHandler, RequestHandler, Sink,
};
use drogue_device::address::Address;
use std::cell::{Cell, RefCell};

struct Number(u32);

impl Message for Number {}

struct Counter {
    total: Cell<u32>,
    seen: RefCell<Vec<u32>>,
}

impl Actor for Counter {}

impl NotificationHandler<Number> for Counter {
    fn on_notification(&self, message: Number) {
        self.total.set(self.total.get() + message.0);
        self.seen.borrow_mut().push(message.0);
    }
}

impl RequestHandler<Number> for Counter {
    type Response = u32;

    fn on_request(&self, message: Number) -> u32 {
        self.total.get() * message.0
    }
}

struct Relay {
    target: RefCell<Option<Address<Counter>>>,
}

impl Actor for Relay {}

impl Bind<Counter> for Relay {
    fn on_bind(&self, address: &Address<Counter>) {
        *self.target.borrow_mut() = Some(address.clone());
    }
}

impl NotificationHandler<Number> for Relay {
    fn on_notification(&self, message: Number) {
        if let Some(target) = self.target.borrow().as_ref() {
            target.notify(Number(message.0 + 1));
        }
    }
}

fn counter() -> Address<Counter> {
    let counter = Counter { total: Cell::new(0), seen: RefCell::new(Vec::new()) };
    Address::new(Box::leak(Box::new(ActorContext::new(counter))))
}

fn relay() -> Address<Relay> {
    let relay = Relay { target: RefCell::new(None) };
    Address::new(Box::leak(Box::new(ActorContext::new(relay))))
}

#[test]
fn notifications_and_requests_reach_the_actor() {
    let address = counter();
    address.notify(Number(3));
    address.notify(Number(4));
    assert_eq!(address.request(Number(10)), 70);
}

#[test]
fn clones_lead_to_the_same_actor() {
    let address = counter();
    let clone = address.clone();
    clone.notify(Number(5));
    assert_eq!(address.request(Number(1)), 5);
    address.notify(Number(6));
    assert_eq!(clone.request(Number(1)), 11);
}

#[test]
fn addresses_of_different_actors_are_apart() {
    let one = counter();
    let other = counter();
    one.notify(Number(5));
    assert_eq!(one.request(Number(1)), 5);
    assert_eq!(other.request(Number(1)), 0);
}

#[test]
fn an_address_is_a_sink() {
    let address = counter();
    let sink: &dyn Sink<Number> = &address;
    sink.notify(Number(8));
    assert_eq!(address.request(Number(1)), 8);
}

#[test]
fn a_bound_address_is_handed_over() {
    let relay = relay();
    let counter = counter();
    relay.notify(Number(1));
    assert_eq!(counter.request(Number(1)), 0);
    relay.bind(&counter);
    relay.notify(Number(1));
    assert_eq!(counter.request(Number(1)), 2);
}
