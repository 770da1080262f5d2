use kestrel::{RebootDetector, Timestamp};

#[test]
fn timestamp_field_breakdown() {
    let t = Timestamp::from_millis(125_999);
    assert_eq!(t.timestamp(), 125_999);
    assert_eq!(t.minutes(), 2);
    assert_eq!(t.seconds(), 5);
    assert_eq!(t.millis(), 999);

    let zero = Timestamp::from_millis(0);
    assert_eq!(zero.minutes(), 0);
    assert_eq!(zero.seconds(), 0);
    assert_eq!(zero.millis(), 0);

    let max = Timestamp::from_millis(u32::MAX);
    assert_eq!(max.timestamp(), u32::MAX);
}

#[test]
fn subtraction_saturates_at_zero() {
    let earlier = Timestamp::from_millis(100);
    let later = Timestamp::from_millis(250);
    assert_eq!(later.saturating_sub(earlier), Timestamp::from_millis(150));
    assert_eq!(earlier.saturating_sub(later), Timestamp::from_millis(0));
    assert_eq!(earlier.saturating_sub(earlier), Timestamp::from_millis(0));
}

#[test]
fn reboot_detected_when_time_runs_backwards() {
    let mut detector = RebootDetector::new();
    assert!(!detector.observe(Timestamp::from_millis(100)));
    assert!(!detector.observe(Timestamp::from_millis(250)));
    assert!(detector.observe(Timestamp::from_millis(80)));
    // After the reboot the new counter value is the baseline.
    assert!(!detector.observe(Timestamp::from_millis(81)));
}

#[test]
fn timestamps_order_by_counter() {
    assert!(Timestamp::from_millis(80) < Timestamp::from_millis(250));
    assert_eq!(Timestamp::from_millis(5), Timestamp::from_millis(5));
}
