use brigade::errors::BenchError;
use brigade::spawn_driver::{BatchObservation, SpawnBenchmarkDriver, SpawnPhase};

#[test]
fn warmup_batches_are_discarded_and_measured_batches_counted() {
    let mut driver = SpawnBenchmarkDriver::new(3, 1, 2);
    let batches = vec![
        BatchObservation { creation_span_nanos: 100, unit_start_latencies_nanos: vec![9, 9, 9] },
        BatchObservation { creation_span_nanos: 10, unit_start_latencies_nanos: vec![1, 2, 3] },
        BatchObservation { creation_span_nanos: 20, unit_start_latencies_nanos: vec![4, 5, 6] },
    ];
    let r = driver.run_batches(&batches);
    assert!(r.is_ok());
    assert_eq!(driver.phase(), SpawnPhase::Done);
    // One creation span per measured batch, `tasks` latencies per batch.
    assert_eq!(driver.creation_stats().count(), 2);
    assert_eq!(driver.start_stats().count(), 6);

    let report = driver.report();
    assert_eq!(report.batches, 2);
    assert_eq!(report.tasks, 3);
    assert_eq!(report.creation_mean_nanos, 15);
    // Spans 10 and 20: population variance 25, stddev 5.
    assert_eq!(report.creation_stddev_nanos, 5);
    assert_eq!(report.per_task_creation_mean_nanos, Some(5));
    // Latencies 1..=6: sum 21, mean rounds down to 3.
    assert_eq!(report.start_mean_nanos, 3);
    assert_eq!(report.start_stddev_nanos, 1);
}

#[test]
fn a_batch_with_the_wrong_sample_count_is_a_protocol_violation() {
    let mut driver = SpawnBenchmarkDriver::new(3, 0, 1);
    let short = vec![7, 7];
    let r = driver.complete_batch(50, &short);
    assert_eq!(r, Err(BenchError::ProtocolViolation { expected: 3, observed: 2 }));
    assert_eq!(driver.creation_stats().count(), 0);
    assert_eq!(driver.start_stats().count(), 0);
}

#[test]
fn run_batches_stops_at_the_first_bad_batch() {
    let mut driver = SpawnBenchmarkDriver::new(2, 0, 2);
    let batches = vec![
        BatchObservation { creation_span_nanos: 10, unit_start_latencies_nanos: vec![1, 2] },
        BatchObservation { creation_span_nanos: 20, unit_start_latencies_nanos: vec![3] },
    ];
    let r = driver.run_batches(&batches);
    assert_eq!(r, Err(BenchError::ProtocolViolation { expected: 2, observed: 1 }));
    assert_eq!(driver.creation_stats().count(), 1);
}

#[test]
fn start_latency_samples_are_never_negative() {
    // Latency samples are unsigned nanosecond counts; even a zero-latency
    // unit contributes a non-negative sample.
    let mut driver = SpawnBenchmarkDriver::new(2, 0, 1);
    let batches = vec![
        BatchObservation { creation_span_nanos: 0, unit_start_latencies_nanos: vec![0, 0] },
    ];
    assert!(driver.run_batches(&batches).is_ok());
    let report = driver.report();
    assert_eq!(report.start_mean_nanos, 0);
    assert_eq!(report.start_stddev_nanos, 0);
}

#[test]
fn batches_of_zero_units_need_no_samples() {
    let mut driver = SpawnBenchmarkDriver::new(0, 1, 1);
    let empty: Vec<u64> = Vec::new();
    assert!(driver.complete_batch(5, &empty).is_ok());
    assert_eq!(driver.phase(), SpawnPhase::Measuring);
    assert!(driver.complete_batch(5, &empty).is_ok());
    assert_eq!(driver.phase(), SpawnPhase::Done);
    assert_eq!(driver.start_stats().count(), 0);
    assert_eq!(driver.creation_stats().count(), 1);
}
