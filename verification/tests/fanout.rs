//! Tests for the fan-out registry of bounded subscriber queues.

use ssgtk_core::backlog::Backlog;
use ssgtk_core::fanout::{append_and_broadcast, FanOut};

#[test]
fn late_subscriber_misses_history() {
    let mut f = FanOut::new(8);
    let early = f.subscribe();
    assert!(f.recv(early).is_none());
    f.publish("first");
    f.publish("second");
    let late = f.subscribe();
    f.publish("third");
    // The early subscriber sees everything since its subscription.
    assert_eq!(f.recv(early).as_deref(), Some("first"));
    assert_eq!(f.recv(early).as_deref(), Some("second"));
    assert_eq!(f.recv(early).as_deref(), Some("third"));
    assert!(f.recv(early).is_none());
    // The late subscriber sees only what was published afterwards.
    assert_eq!(f.recv(late).as_deref(), Some("third"));
    assert!(f.recv(late).is_none());
}

#[test]
fn full_queue_drops_newest_for_that_subscriber_only() {
    let mut f = FanOut::new(2);
    let stalled = f.subscribe();
    assert!(!f.publish("a"));
    assert!(!f.publish("b"));
    // `stalled` is at capacity now; a fresh subscriber still has room.
    let live = f.subscribe();
    assert!(f.publish("c"));
    assert_eq!(f.recv(live).as_deref(), Some("c"));
    // The stalled subscriber kept its oldest lines and lost only "c".
    assert_eq!(f.recv(stalled).as_deref(), Some("a"));
    assert_eq!(f.recv(stalled).as_deref(), Some("b"));
    assert!(f.recv(stalled).is_none());
}

#[test]
fn publish_without_subscribers_drops_nothing() {
    let mut f = FanOut::new(4);
    assert!(!f.publish("nobody hears this"));
    let s = f.subscribe();
    assert!(f.recv(s).is_none());
}

#[test]
fn recv_out_of_range_is_none() {
    let mut f = FanOut::new(4);
    assert!(f.recv(3).is_none());
}

#[test]
fn draining_frees_room_again() {
    let mut f = FanOut::new(1);
    let s = f.subscribe();
    assert!(!f.publish("a"));
    assert!(f.publish("lost")); // queue full: dropped for s
    assert_eq!(f.recv(s).as_deref(), Some("a"));
    assert!(!f.publish("b"));
    assert_eq!(f.recv(s).as_deref(), Some("b"));
}

#[test]
fn append_and_broadcast_feeds_both_sinks() {
    let mut backlog = Backlog::new();
    let mut fanout = FanOut::new(4);
    let sub = fanout.subscribe();
    assert!(!append_and_broadcast(&mut backlog, &mut fanout, "[stdout] a\n"));
    assert!(!append_and_broadcast(&mut backlog, &mut fanout, "[stderr] b\n"));
    assert_eq!(backlog.snapshot(), "[stdout] a\n[stderr] b\n");
    assert_eq!(fanout.recv(sub).as_deref(), Some("[stdout] a\n"));
    assert_eq!(fanout.recv(sub).as_deref(), Some("[stderr] b\n"));
}
