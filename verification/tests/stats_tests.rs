use brigade::stats::{isqrt_u128, Stats, MAX_SAMPLE_COUNT, MAX_SAMPLE_NANOS};

#[test]
fn pop_stddev() {
    let mut stats = Stats::new();

    stats.extend(&vec![2, 4, 4, 4, 5, 5, 7, 9]);
    assert_eq!(stats.mean(), 5);
    assert_eq!(stats.population_stddev(), 2);
}

#[test]
fn fresh_accumulator_is_empty() {
    let stats = Stats::new();
    assert_eq!(stats.count(), 0);
    assert_eq!(stats.sum(), 0);
}

#[test]
fn push_accumulates_count_and_sum() {
    let mut stats = Stats::new();
    stats.push(3);
    stats.push(10);
    stats.push(7);
    assert_eq!(stats.count(), 3);
    assert_eq!(stats.sum(), 20);
}

#[test]
fn single_sample_is_its_own_mean_with_zero_stddev() {
    let mut stats = Stats::new();
    stats.push(42);
    assert_eq!(stats.count(), 1);
    assert_eq!(stats.mean(), 42);
    assert_eq!(stats.population_stddev(), 0);
}

#[test]
fn mean_rounds_down() {
    let mut stats = Stats::new();
    stats.push(1);
    stats.push(2);
    assert_eq!(stats.mean(), 1);
    assert_eq!(stats.population_stddev(), 0);
}

#[test]
fn extend_appends_in_order() {
    let mut stats = Stats::new();
    stats.push(5);
    stats.extend(&vec![7, 9]);
    assert_eq!(stats.count(), 3);
    assert_eq!(stats.sum(), 21);
    assert_eq!(stats.mean(), 7);
}

#[test]
fn largest_admissible_sample_is_accepted() {
    let mut stats = Stats::new();
    stats.push(MAX_SAMPLE_NANOS);
    assert_eq!(stats.mean(), MAX_SAMPLE_NANOS);
    assert_eq!(stats.population_stddev(), 0);
}

#[test]
fn isqrt_rounds_down() {
    assert_eq!(isqrt_u128(0), 0);
    assert_eq!(isqrt_u128(1), 1);
    assert_eq!(isqrt_u128(3), 1);
    assert_eq!(isqrt_u128(4), 2);
    assert_eq!(isqrt_u128(15), 3);
    assert_eq!(isqrt_u128(16), 4);
    assert_eq!(isqrt_u128(256), 16);
    assert_eq!(isqrt_u128(u128::MAX), u64::MAX);
}

#[test]
fn sample_bounds_are_as_documented() {
    assert_eq!(MAX_SAMPLE_NANOS, (1u64 << 44) - 1);
    assert_eq!(MAX_SAMPLE_COUNT, 1u64 << 20);
}
