use brigade::duration::{DurationUnit, UsefulDuration};

#[test]
fn zero_is_reported_as_zero_seconds() {
    let parts = UsefulDuration::from_nanos(0).display_parts();
    assert_eq!(parts.unit, DurationUnit::Seconds);
    assert_eq!(parts.whole, 0);
    assert_eq!(parts.thousandths, 0);
}

#[test]
fn nanosecond_range_keeps_the_raw_count() {
    let parts = UsefulDuration::from_nanos(1).display_parts();
    assert_eq!(parts.unit, DurationUnit::Nanoseconds);
    assert_eq!(parts.whole, 1);
    assert_eq!(parts.thousandths, 0);

    let parts = UsefulDuration::from_nanos(1499).display_parts();
    assert_eq!(parts.unit, DurationUnit::Nanoseconds);
    assert_eq!(parts.whole, 1499);
    assert_eq!(parts.thousandths, 0);
}

#[test]
fn microsecond_range_is_exact_to_the_nanosecond() {
    let parts = UsefulDuration::from_nanos(1500).display_parts();
    assert_eq!(parts.unit, DurationUnit::Microseconds);
    assert_eq!(parts.whole, 1);
    assert_eq!(parts.thousandths, 500);

    let parts = UsefulDuration::from_nanos(1_234_567).display_parts();
    assert_eq!(parts.unit, DurationUnit::Microseconds);
    assert_eq!(parts.whole, 1234);
    assert_eq!(parts.thousandths, 567);
}

#[test]
fn millisecond_range_rounds_half_up_at_the_microsecond() {
    let parts = UsefulDuration::from_nanos(2_345_678).display_parts();
    assert_eq!(parts.unit, DurationUnit::Milliseconds);
    assert_eq!(parts.whole, 2);
    assert_eq!(parts.thousandths, 346);

    let parts = UsefulDuration::from_nanos(2_345_499).display_parts();
    assert_eq!(parts.thousandths, 345);

    let parts = UsefulDuration::from_nanos(2_345_500).display_parts();
    assert_eq!(parts.thousandths, 346);

    // Rounding can carry into the whole part.
    let parts = UsefulDuration::from_nanos(2_999_500).display_parts();
    assert_eq!(parts.whole, 3);
    assert_eq!(parts.thousandths, 0);
}

#[test]
fn second_range_rounds_half_up_at_the_millisecond() {
    let parts = UsefulDuration::from_nanos(2_500_000_000).display_parts();
    assert_eq!(parts.unit, DurationUnit::Seconds);
    assert_eq!(parts.whole, 2);
    assert_eq!(parts.thousandths, 500);

    let parts = UsefulDuration::from_nanos(1_500_000_000).display_parts();
    assert_eq!(parts.unit, DurationUnit::Seconds);
    assert_eq!(parts.whole, 1);
    assert_eq!(parts.thousandths, 500);

    let parts = UsefulDuration::from_nanos(59_999_499_999).display_parts();
    assert_eq!(parts.whole, 59);
    assert_eq!(parts.thousandths, 999);
}

#[test]
fn nanosecond_count_round_trips() {
    let d = UsefulDuration::from_nanos(987_654_321);
    assert_eq!(d.as_nanos(), 987_654_321);
}
