//! Orchestration of a spawn benchmark: batches of `N` execution-unit
//! creations, timing the whole batch-creation span once per batch and the
//! creation-to-start latency once per unit. Warmup batches are discarded.
//! The spawning itself is outside work; the driver receives each finished
//! batch's timings as plain values and is verified for every value of them.

use vstd::prelude::*;

use crate::errors::BenchError;
use crate::stats::{clamp_sample, Stats, MAX_SAMPLE_COUNT, MAX_SAMPLE_NANOS};

verus! {

/// Where a spawn benchmark run stands.
#[derive(Clone, Copy, PartialEq, Eq, Structural, Debug)]
pub enum SpawnPhase {
    /// Untimed batches whose results are discarded.
    Warmup,
    /// Timed batches whose spans and latencies are recorded.
    Measuring,
    /// All configured batches have completed.
    Done,
}

/// The timings of one completed batch, as observed by the outer loop that
/// performed the spawning: the span from the first creation request to the
/// return of the last, and each unit's creation-to-start latency in the
/// order the units were created.
pub struct BatchObservation {
    pub creation_span_nanos: u64,
    pub unit_start_latencies_nanos: Vec<u64>,
}

/// The final report of a spawn benchmark run, in whole nanoseconds.
pub struct SpawnReport {
    /// Number of measured batches.
    pub batches: u64,
    /// Number of units created per batch.
    pub tasks: usize,
    /// Mean batch-creation span.
    pub creation_mean_nanos: u64,
    /// Population standard deviation of the batch-creation spans.
    pub creation_stddev_nanos: u64,
    /// Mean batch-creation span divided by the unit count. `None` when a
    /// batch creates no units.
    pub per_task_creation_mean_nanos: Option<u64>,
    /// Mean creation-to-start latency.
    pub start_mean_nanos: u64,
    /// Population standard deviation of the creation-to-start latencies.
    pub start_stddev_nanos: u64,
}

/// Accumulates batch-creation spans and per-unit start latencies over
/// warmup and measured batches.
pub struct SpawnBenchmarkDriver {
    tasks: usize,
    warmups: u64,
    reps: u64,
    warmup_batches_done: u64,
    measured_batches_done: u64,
    phase: SpawnPhase,
    creation_stats: Stats,
    start_stats: Stats,
}

impl SpawnBenchmarkDriver {
    /// Number of units created per batch.
    pub closed spec fn tasks_spec(self) -> usize {
        self.tasks
    }

    /// Configured number of warmup batches.
    pub closed spec fn warmups_spec(self) -> u64 {
        self.warmups
    }

    /// Configured number of measured batches.
    pub closed spec fn reps_spec(self) -> u64 {
        self.reps
    }

    /// Warmup batches completed so far.
    pub closed spec fn warmups_done_spec(self) -> u64 {
        self.warmup_batches_done
    }

    /// Measured batches completed so far.
    pub closed spec fn reps_done_spec(self) -> u64 {
        self.measured_batches_done
    }

    /// Where the run stands.
    pub closed spec fn phase_spec(self) -> SpawnPhase {
        self.phase
    }

    /// The batch-creation spans recorded so far, one per measured batch.
    pub closed spec fn creation_samples(self) -> Seq<u64> {
        self.creation_stats@
    }

    /// The creation-to-start latencies recorded so far, `tasks` per
    /// measured batch.
    pub closed spec fn start_samples(self) -> Seq<u64> {
        self.start_stats@
    }

    /// The configuration fields of `self` and `other` agree.
    pub open spec fn same_config(self, other: Self) -> bool {
        &&& self.tasks_spec() == other.tasks_spec()
        &&& self.warmups_spec() == other.warmups_spec()
        &&& self.reps_spec() == other.reps_spec()
    }

    /// Counters stay within the configuration, the accumulators hold
    /// exactly one creation span per measured batch and exactly `tasks`
    /// start latencies per measured batch (never any of a warmup batch),
    /// and the phase agrees with the counters.
    pub closed spec fn wf(self) -> bool {
        &&& self.creation_stats.wf()
        &&& self.start_stats.wf()
        &&& self.creation_stats@.len() == self.measured_batches_done
        &&& self.start_stats@.len() == self.measured_batches_done * self.tasks
        &&& self.reps <= MAX_SAMPLE_COUNT
        &&& self.reps * self.tasks <= MAX_SAMPLE_COUNT
        &&& self.warmup_batches_done <= self.warmups
        &&& self.measured_batches_done <= self.reps
        &&& match self.phase {
            SpawnPhase::Warmup => self.warmup_batches_done < self.warmups
                && self.measured_batches_done == 0,
            SpawnPhase::Measuring => self.warmup_batches_done == self.warmups
                && self.measured_batches_done < self.reps,
            SpawnPhase::Done => self.warmup_batches_done == self.warmups
                && self.measured_batches_done == self.reps,
        }
    }

    /// The phase a fresh run starts in: warmup if any warmup batches are
    /// configured, else measuring, else immediately done.
    pub open spec fn initial_phase(self) -> SpawnPhase {
        if self.warmups_spec() > 0 {
            SpawnPhase::Warmup
        } else if self.reps_spec() > 0 {
            SpawnPhase::Measuring
        } else {
            SpawnPhase::Done
        }
    }

    /// The phase after one more batch completes.
    pub open spec fn phase_after_batch(self) -> SpawnPhase {
        if self.phase_spec() is Warmup {
            if self.warmups_done_spec() + 1 < self.warmups_spec() {
                SpawnPhase::Warmup
            } else if self.reps_spec() > 0 {
                SpawnPhase::Measuring
            } else {
                SpawnPhase::Done
            }
        } else {
            if self.reps_done_spec() + 1 < self.reps_spec() {
                SpawnPhase::Measuring
            } else {
                SpawnPhase::Done
            }
        }
    }

    /// Configure a run. The two sample-count bounds are machine limits of
    /// the accumulators: one creation span per measured batch, `tasks`
    /// start latencies per measured batch.
    pub fn new(tasks: usize, warmups: u64, reps: u64) -> (r: SpawnBenchmarkDriver)
        requires
            reps <= MAX_SAMPLE_COUNT,
            reps * tasks <= MAX_SAMPLE_COUNT,
        ensures
            r.wf(),
            r.tasks_spec() == tasks,
            r.warmups_spec() == warmups,
            r.reps_spec() == reps,
            r.warmups_done_spec() == 0,
            r.reps_done_spec() == 0,
            r.phase_spec() == r.initial_phase(),
            r.creation_samples() == Seq::<u64>::empty(),
            r.start_samples() == Seq::<u64>::empty(),
    {
        let phase = if warmups > 0 {
            SpawnPhase::Warmup
        } else if reps > 0 {
            SpawnPhase::Measuring
        } else {
            SpawnPhase::Done
        };
        SpawnBenchmarkDriver {
            tasks,
            warmups,
            reps,
            warmup_batches_done: 0,
            measured_batches_done: 0,
            phase,
            creation_stats: Stats::new(),
            start_stats: Stats::new(),
        }
    }

    /// Where the run stands.
    pub fn phase(&self) -> (r: SpawnPhase)
        ensures
            r == self.phase_spec(),
    {
        self.phase
    }

    /// The accumulated batch-creation-span statistics.
    pub fn creation_stats(&self) -> (r: &Stats)
        ensures
            *r == self.creation_stats_spec(),
    {
        &self.creation_stats
    }

    /// The batch-creation-span accumulator as a value.
    pub closed spec fn creation_stats_spec(self) -> Stats {
        self.creation_stats
    }

    /// The accumulated creation-to-start-latency statistics.
    pub fn start_stats(&self) -> (r: &Stats)
        ensures
            *r == self.start_stats_spec(),
    {
        &self.start_stats
    }

    /// The creation-to-start-latency accumulator as a value.
    pub closed spec fn start_stats_spec(self) -> Stats {
        self.start_stats
    }

    /// Record one completed batch: the batch-creation span and one
    /// creation-to-start latency per created unit, in creation order. A
    /// batch that did not yield exactly one latency sample per configured
    /// unit is a fatal protocol violation: the driver is left unchanged
    /// and the run must be aborted. A warmup batch is discarded; a
    /// measured batch pushes its span once and each latency once, every
    /// sample clamped to the admissible range.
    pub fn complete_batch(&mut self, creation_span_nanos: u64, unit_latencies: &Vec<u64>)
        -> (r: Result<(), BenchError>)
        requires
            old(self).wf(),
            !(old(self).phase_spec() is Done),
        ensures
            final(self).wf(),
            final(self).same_config(*old(self)),
            r is Err <==> unit_latencies@.len() != old(self).tasks_spec(),
            r is Err ==> *final(self) == *old(self)
                && r == Result::<(), BenchError>::Err(BenchError::ProtocolViolation {
                    expected: old(self).tasks_spec() as u64,
                    observed: unit_latencies@.len() as u64,
                }),
            r is Ok ==> final(self).phase_spec() == old(self).phase_after_batch(),
            r is Ok && old(self).phase_spec() is Warmup ==> {
                &&& final(self).creation_samples() == old(self).creation_samples()
                &&& final(self).start_samples() == old(self).start_samples()
                &&& final(self).warmups_done_spec() == old(self).warmups_done_spec() + 1
                &&& final(self).reps_done_spec() == 0
            },
            r is Ok && old(self).phase_spec() is Measuring ==> {
                &&& final(self).creation_samples() == old(self).creation_samples()
                    .push(clamp_sample(creation_span_nanos))
                &&& final(self).start_samples() == old(self).start_samples()
                    + unit_latencies@.map_values(|x: u64| clamp_sample(x))
                &&& final(self).warmups_done_spec() == old(self).warmups_done_spec()
                &&& final(self).reps_done_spec() == old(self).reps_done_spec() + 1
            },
    {
        if unit_latencies.len() != self.tasks {
            return Err(BenchError::ProtocolViolation {
                expected: self.tasks as u64,
                observed: unit_latencies.len() as u64,
            });
        }
        match self.phase {
            SpawnPhase::Warmup => {
                self.warmup_batches_done = self.warmup_batches_done + 1;
                if self.warmup_batches_done < self.warmups {
                    self.phase = SpawnPhase::Warmup;
                } else if self.reps > 0 {
                    self.phase = SpawnPhase::Measuring;
                } else {
                    self.phase = SpawnPhase::Done;
                }
            },
            _ => {
                let ghost done = old(self).reps_done_spec() as int;
                let ghost reps = old(self).reps_spec() as int;
                let ghost tasks = old(self).tasks_spec() as int;
                proof {
                    assert((done + 1) * tasks <= reps * tasks) by (nonlinear_arith)
                        requires
                            done + 1 <= reps,
                            tasks >= 0;
                    assert(done * tasks + tasks == (done + 1) * tasks) by (nonlinear_arith);
                }
                let span = if creation_span_nanos > MAX_SAMPLE_NANOS {
                    MAX_SAMPLE_NANOS
                } else {
                    creation_span_nanos
                };
                self.creation_stats.push(span);
                let ghost creation_after = self.creation_stats;
                let ghost start_before = self.start_stats@;
                let n = unit_latencies.len();
                let mut i: usize = 0;
                while i < n
                    invariant
                        n == unit_latencies@.len(),
                        n == old(self).tasks_spec(),
                        i <= n,
                        self.tasks == old(self).tasks_spec(),
                        self.warmups == old(self).warmups_spec(),
                        self.reps == old(self).reps_spec(),
                        self.warmup_batches_done == old(self).warmups_done_spec(),
                        self.measured_batches_done == old(self).reps_done_spec(),
                        self.phase == old(self).phase_spec(),
                        self.creation_stats == creation_after,
                        self.start_stats.wf(),
                        self.start_stats@ == start_before
                            + unit_latencies@.take(i as int).map_values(|x: u64| clamp_sample(x)),
                        start_before.len() + n <= MAX_SAMPLE_COUNT,
                    decreases n - i,
                {
                    let x = unit_latencies[i];
                    let s = if x > MAX_SAMPLE_NANOS {
                        MAX_SAMPLE_NANOS
                    } else {
                        x
                    };
                    proof {
                        assert(unit_latencies@.take(i as int).map_values(|y: u64| clamp_sample(y))
                            .push(clamp_sample(unit_latencies@[i as int]))
                            == unit_latencies@.take(i as int + 1)
                                .map_values(|y: u64| clamp_sample(y)));
                    }
                    self.start_stats.push(s);
                    i = i + 1;
                }
                proof {
                    assert(unit_latencies@.take(n as int) == unit_latencies@);
                }
                self.measured_batches_done = self.measured_batches_done + 1;
                proof {
                    assert(self.measured_batches_done * self.tasks
                        == (self.measured_batches_done - 1) * self.tasks + self.tasks)
                        by (nonlinear_arith)
                        requires self.measured_batches_done >= 1;
                }
                if self.measured_batches_done < self.reps {
                    self.phase = SpawnPhase::Measuring;
                } else {
                    self.phase = SpawnPhase::Done;
                }
            },
        }
        Ok(())
    }

    /// Feed a whole run's batches through the driver in order: first the
    /// configured warmup batches, then the measured ones. Succeeds exactly
    /// when every batch yielded one latency sample per configured unit;
    /// then the run is done, with one creation span per measured batch and
    /// `tasks` start latencies per measured batch accumulated.
    pub fn run_batches(&mut self, batches: &Vec<BatchObservation>)
        -> (r: Result<(), BenchError>)
        requires
            old(self).wf(),
            old(self).warmups_done_spec() == 0,
            old(self).reps_done_spec() == 0,
            old(self).phase_spec() == old(self).initial_phase(),
            batches@.len() == old(self).warmups_spec() + old(self).reps_spec(),
        ensures
            final(self).wf(),
            final(self).same_config(*old(self)),
            r is Ok <==> (forall|i: int| 0 <= i < batches@.len()
                ==> #[trigger] batches@[i].unit_start_latencies_nanos@.len()
                    == old(self).tasks_spec()),
            r is Ok ==> {
                &&& final(self).phase_spec() is Done
                &&& final(self).creation_samples().len() == old(self).reps_spec()
                &&& final(self).start_samples().len()
                    == old(self).reps_spec() * old(self).tasks_spec()
            },
    {
        let n = batches.len();
        let mut i: usize = 0;
        while i < n
            invariant
                n == batches@.len(),
                i <= n,
                self.wf(),
                self.same_config(*old(self)),
                self.warmups_done_spec() + self.reps_done_spec() == i,
                n == self.warmups_spec() + self.reps_spec(),
                forall|j: int| 0 <= j < i
                    ==> #[trigger] batches@[j].unit_start_latencies_nanos@.len()
                        == self.tasks_spec(),
            decreases n - i,
        {
            let b = &batches[i];
            let r = self.complete_batch(b.creation_span_nanos, &b.unit_start_latencies_nanos);
            match r {
                Ok(()) => {},
                Err(e) => {
                    return Err(e);
                },
            }
            i = i + 1;
        }
        Ok(())
    }

    /// The report of a finished run. At least one measured batch creating
    /// at least one unit must have completed: the mean and standard
    /// deviation of an empty accumulator are a division by zero.
    pub fn report(&self) -> (r: SpawnReport)
        requires
            self.wf(),
            self.phase_spec() is Done,
            self.reps_spec() >= 1,
            self.tasks_spec() >= 1,
        ensures
            r.batches == self.reps_spec(),
            r.tasks == self.tasks_spec(),
            r.creation_mean_nanos == crate::stats::mean_of(self.creation_samples()),
            r.creation_stddev_nanos == crate::stats::pop_stddev_of(self.creation_samples()),
            r.per_task_creation_mean_nanos == Option::<u64>::Some(
                (crate::stats::mean_of(self.creation_samples())
                    / self.tasks_spec() as int) as u64),
            r.start_mean_nanos == crate::stats::mean_of(self.start_samples()),
            r.start_stddev_nanos == crate::stats::pop_stddev_of(self.start_samples()),
    {
        proof {
            assert(self.reps_spec() * self.tasks_spec() >= 1) by (nonlinear_arith)
                requires self.reps_spec() >= 1, self.tasks_spec() >= 1;
        }
        let creation_mean_nanos = self.creation_stats.mean();
        let creation_stddev_nanos = self.creation_stats.population_stddev();
        let start_mean_nanos = self.start_stats.mean();
        let start_stddev_nanos = self.start_stats.population_stddev();
        SpawnReport {
            batches: self.reps,
            tasks: self.tasks,
            creation_mean_nanos,
            creation_stddev_nanos,
            per_task_creation_mean_nanos: Some(creation_mean_nanos / self.tasks as u64),
            start_mean_nanos,
            start_stddev_nanos,
        }
    }
}

} // verus!
