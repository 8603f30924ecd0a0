use click_overlay::event::{ButtonId, Event};
use click_overlay::queue::EventQueue;

#[test]
fn drain_of_empty_queue_is_empty() {
    let mut q = EventQueue::new();
    assert_eq!(q.len(), 0);
    let drained = q.drain_all();
    assert!(drained.is_empty());
    assert_eq!(q.len(), 0);
}

#[test]
fn drain_returns_fifo_order_and_empties() {
    let mut q = EventQueue::new();
    q.enqueue(Event::ButtonDown(ButtonId::Primary));
    q.enqueue(Event::PointerMoved(5, 6));
    q.enqueue(Event::ButtonUp(ButtonId::Primary));
    assert_eq!(q.len(), 3);
    let drained = q.drain_all();
    assert_eq!(
        drained,
        vec![
            Event::ButtonDown(ButtonId::Primary),
            Event::PointerMoved(5, 6),
            Event::ButtonUp(ButtonId::Primary),
        ]
    );
    assert_eq!(q.len(), 0);
}

#[test]
fn no_event_is_seen_by_two_drains() {
    let mut q = EventQueue::new();
    q.enqueue(Event::ButtonDown(ButtonId::Secondary));
    let first = q.drain_all();
    let second = q.drain_all();
    assert_eq!(first.len(), 1);
    assert!(second.is_empty());
}

#[test]
fn events_enqueued_between_drains_are_not_lost() {
    let mut q = EventQueue::new();
    q.enqueue(Event::ButtonDown(ButtonId::Primary));
    let first = q.drain_all();
    q.enqueue(Event::ButtonUp(ButtonId::Primary));
    let second = q.drain_all();
    assert_eq!(first, vec![Event::ButtonDown(ButtonId::Primary)]);
    assert_eq!(second, vec![Event::ButtonUp(ButtonId::Primary)]);
}
