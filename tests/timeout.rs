use miow::{dur2ms, WaitDuration};

#[test]
fn no_duration_waits_forever() {
    assert_eq!(dur2ms(None), u32::MAX);
}

#[test]
fn zero_duration_is_zero() {
    assert_eq!(dur2ms(Some(WaitDuration::from_secs(0))), 0);
    assert_eq!(dur2ms(Some(WaitDuration::new(0, 0))), 0);
}

#[test]
fn fifteen_hundred_millis() {
    assert_eq!(dur2ms(Some(WaitDuration::from_millis(1500))), 1500);
    assert_eq!(dur2ms(Some(WaitDuration::new(1, 500_000_000))), 1500);
}

#[test]
fn sub_millisecond_part_is_floored() {
    assert_eq!(dur2ms(Some(WaitDuration::new(0, 999_999))), 0);
    assert_eq!(dur2ms(Some(WaitDuration::new(2, 1_999_999))), 2001);
}

#[test]
fn largest_duration_saturates_below_infinite() {
    let r = dur2ms(Some(WaitDuration::new(u64::MAX, 999_999_999)));
    assert_eq!(r, u32::MAX - 1);
    assert!(r < u32::MAX);
    assert_eq!(dur2ms(Some(WaitDuration::from_secs(u64::MAX / 1000 + 1))), u32::MAX - 1);
}

#[test]
fn just_past_finite_range_saturates() {
    assert_eq!(dur2ms(Some(WaitDuration::from_millis(u32::MAX as u64))), u32::MAX - 1);
    assert_eq!(dur2ms(Some(WaitDuration::from_millis(u32::MAX as u64 + 1))), u32::MAX - 1);
    assert_eq!(dur2ms(Some(WaitDuration::from_millis(u32::MAX as u64 - 1))), u32::MAX - 1);
    assert_eq!(dur2ms(Some(WaitDuration::from_millis(u32::MAX as u64 - 2))), u32::MAX - 2);
}

#[test]
fn hour_and_a_second_is_finite() {
    let r = dur2ms(Some(WaitDuration::from_secs(3601)));
    assert_eq!(r, 3_601_000);
    assert!(r < u32::MAX);
}

#[test]
fn duration_accessors() {
    let d = WaitDuration::from_millis(2_345);
    assert_eq!(d.as_secs(), 2);
    assert_eq!(d.subsec_nanos(), 345_000_000);
}
