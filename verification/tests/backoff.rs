use part_upload::backoff::{wait_duration, Jitter, JITTER_SPAN_MILLIS};

#[test]
fn jitter_is_below_one_second() {
    assert_eq!(JITTER_SPAN_MILLIS, 1000);
    assert_eq!(Jitter::from_millis(0).unwrap().millis(), 0);
    assert_eq!(Jitter::from_millis(999).unwrap().millis(), 999);
    assert_eq!(Jitter::from_millis(1000), None);
    assert_eq!(Jitter::from_millis(u16::MAX), None);
}

#[test]
fn wait_is_the_square_of_the_attempt_in_seconds_plus_jitter() {
    let none = Jitter::from_millis(0).unwrap();
    assert_eq!(wait_duration(1, none), 1_000);
    assert_eq!(wait_duration(2, none), 4_000);
    assert_eq!(wait_duration(3, none), 9_000);
    assert_eq!(wait_duration(4, none), 16_000);
    assert_eq!(wait_duration(5, none), 25_000);
    assert_eq!(wait_duration(3, Jitter::from_millis(250).unwrap()), 9_250);
    assert_eq!(wait_duration(5, Jitter::from_millis(999).unwrap()), 25_999);
}

#[test]
fn wait_of_attempt_zero_is_the_jitter() {
    assert_eq!(wait_duration(0, Jitter::from_millis(0).unwrap()), 0);
    assert_eq!(wait_duration(0, Jitter::from_millis(417).unwrap()), 417);
}

#[test]
fn wait_stays_within_its_second() {
    for attempt in 0..=u8::MAX {
        let base = attempt as u32 * attempt as u32 * 1000;
        for millis in [0u16, 1, 499, 500, 998, 999] {
            let wait = wait_duration(attempt, Jitter::from_millis(millis).unwrap());
            assert!(base <= wait && wait < base + 1000);
            assert_eq!(wait, base + millis as u32);
        }
    }
}

#[test]
fn largest_wait_fits() {
    assert_eq!(wait_duration(255, Jitter::from_millis(999).unwrap()), 65_025_999);
}
