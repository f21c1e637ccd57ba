use loghub::retry::{retry_delay, retry_delay_secs};
use std::time::Duration;

#[test]
fn documented_schedule() {
    assert_eq!(retry_delay(0), Duration::from_secs(1));
    assert_eq!(retry_delay(1), Duration::from_secs(2));
    assert_eq!(retry_delay(2), Duration::from_secs(4));
}

#[test]
fn delay_reaches_five_minute_cap() {
    assert_eq!(retry_delay_secs(7), 128);
    assert_eq!(retry_delay_secs(8), 256);
    assert_eq!(retry_delay_secs(9), 300);
    assert_eq!(retry_delay_secs(10), 300);
    assert_eq!(retry_delay_secs(u32::MAX), 300);
    assert_eq!(retry_delay(9), Duration::from_secs(300));
    assert_eq!(retry_delay(100), Duration::from_secs(300));
}

#[test]
fn delay_is_capped_and_monotonic() {
    let mut prev = 0;
    for n in 0..40u32 {
        let d = retry_delay_secs(n);
        assert!(d <= 300);
        assert!(d >= prev);
        prev = d;
    }
}
