use loghub::backpressure::{CapacityExceeded, QueuePolicy};

#[test]
fn default_policy() {
    let p = QueuePolicy::default();
    assert_eq!(p.max_events, 500_000);
    assert!(p.reject_when_full);
}

#[test]
fn refuses_at_capacity() {
    let p = QueuePolicy::default();
    assert!(p.check_capacity(0).is_ok());
    assert!(p.check_capacity(499_999).is_ok());
    let err = p.check_capacity(500_000).unwrap_err();
    assert_eq!(err, CapacityExceeded { current_size: 500_000, max_events: 500_000 });
    assert_eq!(err.message(), "local queue capacity exceeded: 500000/500000");
}

#[test]
fn lenient_policy_never_refuses() {
    let p = QueuePolicy { max_events: 10, reject_when_full: false };
    assert!(p.check_capacity(10).is_ok());
    assert!(p.check_capacity(i64::MAX).is_ok());
}

#[test]
fn message_with_negative_numbers() {
    let e = CapacityExceeded { current_size: -3, max_events: i64::MIN };
    assert_eq!(e.message(), "local queue capacity exceeded: -3/-9223372036854775808");
}

#[test]
fn warns_at_eighty_percent() {
    let p = QueuePolicy::default();
    assert!(!p.should_warn(399_999));
    assert!(p.should_warn(400_000));
    let q = QueuePolicy { max_events: 7, reject_when_full: true };
    // 7 * 0.8 = 5.6, rounded toward zero
    assert!(!q.should_warn(4));
    assert!(q.should_warn(5));
    let r = QueuePolicy { max_events: -7, reject_when_full: true };
    assert!(r.should_warn(-5));
    assert!(!r.should_warn(-6));
}

#[test]
fn refusal_comes_with_warning() {
    let p = QueuePolicy { max_events: 1000, reject_when_full: true };
    for size in [1000i64, 1001, 5000] {
        assert!(p.check_capacity(size).is_err());
        assert!(p.should_warn(size));
    }
}
