use despawn_context::DespawnAccessTracker;
use despawn_context::EntityId;
use despawn_context::ReactorId;
use std::cell::Cell;
use std::rc::Rc;

/// Counts in `dropped` when it is dropped.
struct Signal {
    dropped: Rc<Cell<u32>>,
}

impl Drop for Signal {
    fn drop(&mut self) {
        self.dropped.set(self.dropped.get() + 1);
    }
}

fn signal(dropped: &Rc<Cell<u32>>) -> Signal {
    Signal { dropped: Rc::clone(dropped) }
}

fn entity(index: u32) -> EntityId {
    EntityId::new(index, 0).unwrap()
}

#[test]
fn handle_is_held_until_the_reaction_ends() {
    let dropped = Rc::new(Cell::new(0));
    let mut tracker = DespawnAccessTracker::default();
    tracker.prepare(ReactorId(entity(1)), entity(2), signal(&dropped));
    assert_eq!(dropped.get(), 0);
    assert!(tracker.start(ReactorId(entity(1))));
    assert_eq!(dropped.get(), 0);
    tracker.end();
    assert_eq!(dropped.get(), 1);
    tracker.end();
    assert_eq!(dropped.get(), 1);
}

#[test]
fn end_drops_only_the_running_handle() {
    let first = Rc::new(Cell::new(0));
    let second = Rc::new(Cell::new(0));
    let mut tracker = DespawnAccessTracker::default();
    tracker.prepare(ReactorId(entity(1)), entity(10), signal(&first));
    tracker.prepare(ReactorId(entity(2)), entity(20), signal(&second));
    assert!(tracker.start(ReactorId(entity(2))));
    tracker.end();
    assert_eq!(first.get(), 0);
    assert_eq!(second.get(), 1);
    assert!(tracker.start(ReactorId(entity(1))));
    tracker.end();
    assert_eq!(first.get(), 1);
    assert_eq!(second.get(), 1);
}

#[test]
fn failed_start_drops_nothing() {
    let dropped = Rc::new(Cell::new(0));
    let mut tracker = DespawnAccessTracker::default();
    tracker.prepare(ReactorId(entity(1)), entity(10), signal(&dropped));
    assert!(!tracker.start(ReactorId(entity(3))));
    tracker.end();
    assert_eq!(dropped.get(), 0);
}

#[test]
fn start_over_a_running_reaction_drops_its_handle() {
    let first = Rc::new(Cell::new(0));
    let second = Rc::new(Cell::new(0));
    let mut tracker = DespawnAccessTracker::default();
    tracker.prepare(ReactorId(entity(1)), entity(10), signal(&first));
    tracker.prepare(ReactorId(entity(2)), entity(20), signal(&second));
    assert!(tracker.start(ReactorId(entity(1))));
    assert!(tracker.start(ReactorId(entity(2))));
    assert_eq!(first.get(), 1);
    assert_eq!(second.get(), 0);
    assert_eq!(tracker.source(), entity(20));
}

#[test]
fn dropping_the_tracker_drops_every_handle() {
    let dropped = Rc::new(Cell::new(0));
    {
        let mut tracker = DespawnAccessTracker::default();
        tracker.prepare(ReactorId(entity(1)), entity(10), signal(&dropped));
        tracker.prepare(ReactorId(entity(2)), entity(20), signal(&dropped));
        tracker.prepare(ReactorId(entity(3)), entity(30), signal(&dropped));
        assert!(tracker.start(ReactorId(entity(2))));
        assert_eq!(dropped.get(), 0);
    }
    assert_eq!(dropped.get(), 3);
}
