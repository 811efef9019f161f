//! Tests for the leaky-bucket rate limiter.

use ssgtk_core::leaky_bucket::{NaiveLeakyBucket, NaiveLeakyBucketConfig};

#[test]
fn size_0() {
    let mut lb: NaiveLeakyBucket = NaiveLeakyBucketConfig::new(0, 1000).into();
    assert!(lb.push().is_err())
}

#[test]
fn size_3() {
    let mut lb: NaiveLeakyBucket = NaiveLeakyBucketConfig::new(3, 10000).into();
    for _ in 0..3 {
        assert!(lb.push().is_ok());
    }
    assert!(lb.push().is_err());
}

/// The timeline of the classic expiry scenario, replayed with explicit
/// stamps: allowance 2 per 100ms; pushes at 0, 40 and 80 overflow on the
/// third, and by 160 the two oldest stamps have aged out again.
#[test]
fn expire_1_stamps() {
    let mut lb: NaiveLeakyBucket = NaiveLeakyBucketConfig::new(2, 100).into();
    assert!(lb.push_at(0).is_ok()); // len: 0
    assert!(lb.push_at(40).is_ok()); // len: 1
    assert!(lb.push_at(80).is_err()); // len 2
    assert!(lb.push_at(160).is_ok()); // expired down to len 1
}

#[test]
fn boundary_ages_out() {
    // An entry exactly `within_ms` old is discarded: strict comparison.
    let mut lb: NaiveLeakyBucket = NaiveLeakyBucketConfig::new(1, 100).into();
    assert!(lb.push_at(0).is_ok());
    assert!(lb.push_at(100).is_ok());
    assert_eq!(lb.history, vec![100]);
}

#[test]
fn within_zero_keeps_nothing() {
    // With an empty window even the fresh stamp ages out immediately.
    let mut lb: NaiveLeakyBucket = NaiveLeakyBucketConfig::new(0, 0).into();
    assert!(lb.push_at(5).is_ok());
    assert!(lb.history.is_empty());
}

#[test]
fn overflow_error_carries_diagnostics() {
    let mut lb: NaiveLeakyBucket = NaiveLeakyBucketConfig::new(1, 1000).into();
    assert!(lb.push_at(10).is_ok());
    let err = lb.push_at(20).unwrap_err();
    assert_eq!(err.times, 1);
    assert_eq!(err.within_ms, 1000);
    assert_eq!(err.history, vec![10, 20]);
    assert_eq!(
        err.describe(),
        "NaiveLeakyBucket overflowed: more than 1 times within 1000ms"
    );
}

#[test]
fn history_tracks_surviving_stamps() {
    let mut lb: NaiveLeakyBucket = NaiveLeakyBucketConfig::new(5, 50).into();
    assert!(lb.push_at(0).is_ok());
    assert!(lb.push_at(30).is_ok());
    assert!(lb.push_at(60).is_ok());
    // 0 has aged out (60 - 0 >= 50); 30 and 60 remain.
    assert_eq!(lb.history, vec![30, 60]);
}
