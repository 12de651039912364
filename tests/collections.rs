use std::cell::Cell;

use instrument_core::event::{Event, EventError, Subscriber};
use instrument_core::linkedlist::{LinkedListError, LinkedListStatic};
use instrument_core::usart::baud_divisor;

#[test]
fn list_keeps_items_in_order_up_to_capacity() {
    let mut list: LinkedListStatic<u32, 3> = LinkedListStatic::new();
    assert_eq!(list.len(), 0);
    assert!(list.add(10).is_ok());
    assert!(list.add(20).is_ok());
    assert!(list.add(30).is_ok());
    assert!(matches!(list.add(40), Err(LinkedListError::NoSpace)));
    assert_eq!(list.len(), 3);
    assert_eq!(*list.index(0), 10);
    assert_eq!(*list.index(2), 30);
}

#[test]
fn list_of_capacity_zero_is_always_full() {
    let mut list: LinkedListStatic<u8, 0> = LinkedListStatic::new();
    assert!(matches!(list.add(1), Err(LinkedListError::NoSpace)));
    assert_eq!(list.len(), 0);
}

#[test]
fn subscriber_runs_its_callback() {
    let count = Cell::new(0);
    let mut s = Subscriber::new(|| count.set(count.get() + 1), "tick");
    s.call();
    s.call();
    assert_eq!(count.get(), 2);
}

#[test]
fn event_refuses_subscribers_beyond_capacity_and_raises_all() {
    let count = Cell::new(0);
    let bump = || count.set(count.get() + 1);
    let mut e: Event<_, 2> = Event::new();
    assert!(e.subscribe(bump, "first").is_ok());
    assert!(e.subscribe(bump, "second").is_ok());
    assert!(matches!(e.subscribe(bump, "third"), Err(EventError::NoSpace)));
    e.raise();
    assert_eq!(count.get(), 2);
}

#[test]
fn baud_divisor_matches_register_formula() {
    assert_eq!(baud_divisor(57600), 16);
    assert_eq!(baud_divisor(9600), 103);
    assert_eq!(baud_divisor(1_000_000), 0);
    assert_eq!(baud_divisor(1), 575);
}
