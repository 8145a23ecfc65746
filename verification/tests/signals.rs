use mvu_runtime::signal::{Signal, SignalStatus};

#[test]
fn many_writes_one_flush_one_notification() {
    let mut s = Signal::new(10);
    let a = s.subscribe();
    s.set(1);
    s.set(2);
    s.set(3);
    s.flush();
    assert_eq!(s.take_status(a), Some(SignalStatus::Changed));
    assert_eq!(s.take_status(a), None);
    assert_eq!(*s.read(), 3);
}

#[test]
fn in_place_write_marks_dirty() {
    let mut s = Signal::new(vec![1, 2]);
    let a = s.subscribe();
    s.write().push(3);
    s.flush();
    assert_eq!(s.take_status(a), Some(SignalStatus::Changed));
    assert_eq!(*s.read(), vec![1, 2, 3]);
}

#[test]
fn flush_without_writes_notifies_nobody() {
    let mut s = Signal::new(0);
    let a = s.subscribe();
    s.set(1);
    s.flush();
    assert_eq!(s.take_status(a), Some(SignalStatus::Changed));
    s.flush();
    assert_eq!(s.take_status(a), None);
}

#[test]
fn late_subscriber_still_notified_once() {
    let mut s = Signal::new(0);
    s.set(1);
    s.set(2);
    // Subscribed after every write of the batch, before the flush.
    let late = s.subscribe();
    s.flush();
    assert_eq!(s.take_status(late), Some(SignalStatus::Changed));
    assert_eq!(s.take_status(late), None);
}

#[test]
fn undrained_slot_coalesces_across_batches() {
    let mut s = Signal::new(0);
    let a = s.subscribe();
    s.set(1);
    s.flush();
    s.set(2);
    s.flush();
    // Two batches, but the subscriber never drained in between: one event.
    assert_eq!(s.take_status(a), Some(SignalStatus::Changed));
    assert_eq!(s.take_status(a), None);
}

#[test]
fn each_live_subscriber_notified_independently() {
    let mut s = Signal::new(0);
    let a = s.subscribe();
    let b = s.subscribe();
    let c = s.subscribe();
    s.unsubscribe(b);
    s.set(9);
    s.flush();
    assert_eq!(s.take_status(a), Some(SignalStatus::Changed));
    assert_eq!(s.take_status(b), None);
    assert_eq!(s.take_status(c), Some(SignalStatus::Changed));
}

#[test]
fn destroy_delivers_terminal_event() {
    let mut s = Signal::new(0);
    let a = s.subscribe();
    let b = s.subscribe();
    s.unsubscribe(b);
    s.destroy();
    assert_eq!(s.take_status(a), Some(SignalStatus::Destroyed));
    assert_eq!(s.take_status(b), None);
}

#[test]
fn pending_change_is_not_overwritten_by_destroy() {
    let mut s = Signal::new(0);
    let a = s.subscribe();
    s.set(1);
    s.flush();
    // The capacity-one slot still holds `Changed`; the terminal event is
    // dropped rather than queued behind it.
    s.destroy();
    assert_eq!(s.take_status(a), Some(SignalStatus::Changed));
    assert_eq!(s.take_status(a), None);
}
