use spawn_scene::events::{EventQueue, ReaderCursor, SpawnEvent};

#[test]
fn event_is_delivered_in_its_own_tick() {
    let mut queue = EventQueue::new();
    let mut reader = ReaderCursor::new();
    queue.advance_tick();
    let e = queue.publish();
    assert_eq!(e, SpawnEvent { sequence: 1, tick: 1 });
    assert_eq!(queue.drain_for(&mut reader), vec![e]);
    assert_eq!(reader.last_seen(), 1);
}

#[test]
fn event_is_delivered_once() {
    let mut queue = EventQueue::new();
    let mut reader = ReaderCursor::new();
    queue.publish();
    assert_eq!(queue.drain_for(&mut reader).len(), 1);
    assert!(queue.drain_for(&mut reader).is_empty());
    queue.advance_tick();
    assert!(queue.drain_for(&mut reader).is_empty());
}

#[test]
fn event_is_visible_in_the_next_tick() {
    let mut queue = EventQueue::new();
    let mut reader = ReaderCursor::new();
    let e = queue.publish();
    queue.advance_tick();
    assert_eq!(queue.drain_for(&mut reader), vec![e]);
}

#[test]
fn event_is_dropped_two_ticks_later() {
    let mut queue = EventQueue::new();
    let mut reader = ReaderCursor::new();
    queue.publish();
    queue.advance_tick();
    queue.advance_tick();
    assert_eq!(queue.len(), 0);
    assert!(queue.drain_for(&mut reader).is_empty());
    assert_eq!(reader.last_seen(), 0);
}

#[test]
fn readers_are_independent_and_ordered() {
    let mut queue = EventQueue::new();
    let mut first = ReaderCursor::new();
    let mut second = ReaderCursor::new();
    let a = queue.publish();
    assert_eq!(queue.drain_for(&mut first), vec![a]);
    let b = queue.publish();
    let c = queue.publish();
    assert_eq!(queue.drain_for(&mut first), vec![b, c]);
    assert_eq!(queue.drain_for(&mut second), vec![a, b, c]);
    assert_eq!(first.last_seen(), 3);
    assert_eq!(second.last_seen(), 3);
}

#[test]
fn late_reader_misses_old_events_only() {
    let mut queue = EventQueue::new();
    let mut reader = ReaderCursor::new();
    queue.publish();
    queue.advance_tick();
    let b = queue.publish();
    queue.advance_tick();
    assert_eq!(queue.current_tick(), 2);
    assert_eq!(queue.drain_for(&mut reader), vec![b]);
}

#[test]
fn empty_drain_leaves_cursor() {
    let queue = EventQueue::new();
    let mut reader = ReaderCursor::new();
    assert!(queue.drain_for(&mut reader).is_empty());
    assert_eq!(reader.last_seen(), 0);
}
