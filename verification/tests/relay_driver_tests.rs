use brigade::chain::{Chain, Transform};
use brigade::errors::BenchError;
use brigade::relay_driver::{RelayBenchmarkDriver, RelayPhase};
use brigade::stats::MAX_SAMPLE_NANOS;

#[test]
fn single_measured_iteration_identity_chain() {
    let mut driver = RelayBenchmarkDriver::new(1, Transform::Identity, 0x2A, 0, 1);
    let mut chain = Chain::new(1, Transform::Identity);
    driver.run_inline(&mut chain);
    assert_eq!(driver.phase(), RelayPhase::Done);
    let report = driver.report();
    assert_eq!(report.iterations, 1);
    assert_eq!(report.units, 1);
    assert_eq!(report.stddev_nanos, 0);
    // With a single sample the mean is that sample.
    assert_eq!(u128::from(report.mean_nanos), driver.stats().sum());
    assert_eq!(report.per_unit_mean_nanos, Some(report.mean_nanos));
}

#[test]
fn warmups_are_excluded_from_the_statistics() {
    let mut driver = RelayBenchmarkDriver::new(2, Transform::IncrementByOne, 0, 5, 7);
    let mut chain = Chain::new(2, Transform::IncrementByOne);
    driver.run_inline(&mut chain);
    assert_eq!(driver.phase(), RelayPhase::Done);
    assert_eq!(driver.reps_done(), 7);
    assert_eq!(driver.stats().count(), 7);
    let report = driver.report();
    assert_eq!(report.iterations, 7);
    assert_eq!(report.units, 2);
}

#[test]
fn run_starts_in_building_phase() {
    let driver = RelayBenchmarkDriver::new(3, Transform::Identity, 1, 2, 4);
    assert_eq!(driver.phase(), RelayPhase::Building);
    assert_eq!(driver.reps_done(), 0);
}

#[test]
fn confirm_built_skips_warmup_when_none_is_configured() {
    let mut driver = RelayBenchmarkDriver::new(1, Transform::Identity, 0, 0, 3);
    driver.confirm_built();
    assert_eq!(driver.phase(), RelayPhase::Measuring);

    let mut idle = RelayBenchmarkDriver::new(1, Transform::Identity, 0, 0, 0);
    idle.confirm_built();
    assert_eq!(idle.phase(), RelayPhase::Done);
}

#[test]
fn expected_exit_follows_the_transform() {
    let identity = RelayBenchmarkDriver::new(9, Transform::Identity, 5, 0, 1);
    assert_eq!(identity.expected_exit(), 5);
    let increment = RelayBenchmarkDriver::new(9, Transform::IncrementByOne, 5, 0, 1);
    assert_eq!(increment.expected_exit(), 14);
}

#[test]
fn wrong_exit_payload_is_a_protocol_violation() {
    let mut driver = RelayBenchmarkDriver::new(3, Transform::IncrementByOne, 0, 0, 2);
    driver.confirm_built();
    assert_eq!(driver.phase(), RelayPhase::Measuring);
    let r = driver.complete_iteration(2, 100);
    assert_eq!(r, Err(BenchError::ProtocolViolation { expected: 3, observed: 2 }));
    // The driver is unchanged and can still finish correctly.
    assert_eq!(driver.reps_done(), 0);
    assert!(driver.complete_iteration(3, 100).is_ok());
    assert!(driver.complete_iteration(3, 200).is_ok());
    assert_eq!(driver.phase(), RelayPhase::Done);
    let report = driver.report();
    assert_eq!(report.mean_nanos, 150);
}

#[test]
fn measured_samples_are_clamped_to_the_admissible_range() {
    let mut driver = RelayBenchmarkDriver::new(1, Transform::Identity, 0, 0, 1);
    driver.confirm_built();
    assert!(driver.complete_iteration(0, u64::MAX).is_ok());
    let report = driver.report();
    assert_eq!(report.mean_nanos, MAX_SAMPLE_NANOS);
}

#[test]
fn chain_without_units_reports_no_per_unit_mean() {
    let mut driver = RelayBenchmarkDriver::new(0, Transform::Identity, 8, 1, 1);
    let mut chain = Chain::new(0, Transform::Identity);
    driver.run_inline(&mut chain);
    let report = driver.report();
    assert_eq!(report.units, 0);
    assert_eq!(report.per_unit_mean_nanos, None);
}
