//! Orchestration of a relay benchmark: untimed warmup traversals followed by
//! timed measured traversals, every measured elapsed time pushed into the
//! statistics accumulator and every warmup discarded. The driver is a state
//! machine so that any substrate - OS threads, cooperative tasks, or the
//! inline-sequential baseline - can run the outer loop and feed observations
//! back; the inline substrate's whole run is itself verified here.

use vstd::prelude::*;

use crate::chain::{iterate_spec, lemma_iterate_identity, lemma_iterate_increment, Chain,
    Transform};
use crate::clock::{duration_as_nanos, elapsed_since, instant_now};
use crate::errors::BenchError;
use crate::stats::{clamp_sample, Stats, MAX_SAMPLE_COUNT, MAX_SAMPLE_NANOS};

verus! {

/// Where a relay benchmark run stands.
#[derive(Clone, Copy, PartialEq, Eq, Structural, Debug)]
pub enum RelayPhase {
    /// The chain is still being constructed and scheduled.
    Building,
    /// Untimed iterations whose results are discarded.
    Warmup,
    /// Timed iterations whose elapsed times are recorded.
    Measuring,
    /// All configured iterations have completed.
    Done,
}

/// The final report of a relay benchmark run, in whole nanoseconds.
pub struct RelayReport {
    /// Number of measured iterations.
    pub iterations: u64,
    /// Number of forwarding units in the chain.
    pub units: usize,
    /// Mean elapsed time per iteration.
    pub mean_nanos: u64,
    /// Population standard deviation of the elapsed times.
    pub stddev_nanos: u64,
    /// Mean divided by the unit count: the per-unit overhead estimate.
    /// `None` when the chain has no units.
    pub per_unit_mean_nanos: Option<u64>,
}

/// Drives warmup and measured iterations over a chain and accumulates the
/// measured elapsed times.
pub struct RelayBenchmarkDriver {
    n_units: usize,
    transform: Transform,
    entry_value: u64,
    warmups: u64,
    reps: u64,
    warmups_done: u64,
    reps_done: u64,
    phase: RelayPhase,
    stats: Stats,
}

impl RelayBenchmarkDriver {
    /// Number of forwarding units the chain must have.
    pub closed spec fn n_units_spec(self) -> usize {
        self.n_units
    }

    /// The transform every unit of the chain applies.
    pub closed spec fn transform_spec(self) -> Transform {
        self.transform
    }

    /// The payload injected at the entry of every iteration.
    pub closed spec fn entry_spec(self) -> u64 {
        self.entry_value
    }

    /// Configured number of warmup iterations.
    pub closed spec fn warmups_spec(self) -> u64 {
        self.warmups
    }

    /// Configured number of measured iterations.
    pub closed spec fn reps_spec(self) -> u64 {
        self.reps
    }

    /// Warmup iterations completed so far.
    pub closed spec fn warmups_done_spec(self) -> u64 {
        self.warmups_done
    }

    /// Measured iterations completed so far.
    pub closed spec fn reps_done_spec(self) -> u64 {
        self.reps_done
    }

    /// Where the run stands.
    pub closed spec fn phase_spec(self) -> RelayPhase {
        self.phase
    }

    /// The elapsed-time samples recorded so far, one per measured iteration.
    pub closed spec fn samples(self) -> Seq<u64> {
        self.stats@
    }

    /// The payload value every full traversal must deliver at the exit.
    pub open spec fn expected_exit_spec(self) -> int {
        iterate_spec(self.transform_spec(), self.entry_spec() as int, self.n_units_spec() as nat)
    }

    /// The configuration fields of `self` and `other` agree.
    pub open spec fn same_config(self, other: Self) -> bool {
        &&& self.n_units_spec() == other.n_units_spec()
        &&& self.transform_spec() == other.transform_spec()
        &&& self.entry_spec() == other.entry_spec()
        &&& self.warmups_spec() == other.warmups_spec()
        &&& self.reps_spec() == other.reps_spec()
    }

    /// Counters stay within the configuration, the accumulator holds exactly
    /// one sample per completed measured iteration (never one of a warmup),
    /// and the phase agrees with the counters.
    pub closed spec fn wf(self) -> bool {
        &&& self.stats.wf()
        &&& self.stats@.len() == self.reps_done
        &&& self.reps <= MAX_SAMPLE_COUNT
        &&& self.warmups_done <= self.warmups
        &&& self.reps_done <= self.reps
        &&& (self.transform is IncrementByOne ==> self.entry_value + self.n_units <= u64::MAX)
        &&& match self.phase {
            RelayPhase::Building => self.warmups_done == 0 && self.reps_done == 0,
            RelayPhase::Warmup => self.warmups_done < self.warmups && self.reps_done == 0,
            RelayPhase::Measuring => self.warmups_done == self.warmups
                && self.reps_done < self.reps,
            RelayPhase::Done => self.warmups_done == self.warmups && self.reps_done == self.reps,
        }
    }

    /// The phase a run enters once construction is confirmed: warmup if any
    /// warmups are configured, else measuring, else immediately done.
    pub open spec fn phase_after_building(self) -> RelayPhase {
        if self.warmups_spec() > 0 {
            RelayPhase::Warmup
        } else if self.reps_spec() > 0 {
            RelayPhase::Measuring
        } else {
            RelayPhase::Done
        }
    }

    /// The phase after one more warmup iteration completes.
    pub open spec fn phase_after_warmup_iteration(self) -> RelayPhase {
        if self.warmups_done_spec() + 1 < self.warmups_spec() {
            RelayPhase::Warmup
        } else if self.reps_spec() > 0 {
            RelayPhase::Measuring
        } else {
            RelayPhase::Done
        }
    }

    /// The phase after one more measured iteration completes.
    pub open spec fn phase_after_measured_iteration(self) -> RelayPhase {
        if self.reps_done_spec() + 1 < self.reps_spec() {
            RelayPhase::Measuring
        } else {
            RelayPhase::Done
        }
    }

    /// Configure a run. The sample-count bound is a machine limit of the
    /// accumulator; the entry bound keeps the increment-by-one variant from
    /// overflowing its payload.
    pub fn new(n_units: usize, transform: Transform, entry_value: u64, warmups: u64, reps: u64)
        -> (r: RelayBenchmarkDriver)
        requires
            reps <= MAX_SAMPLE_COUNT,
            transform is IncrementByOne ==> entry_value + n_units <= u64::MAX,
        ensures
            r.wf(),
            r.phase_spec() is Building,
            r.n_units_spec() == n_units,
            r.transform_spec() == transform,
            r.entry_spec() == entry_value,
            r.warmups_spec() == warmups,
            r.reps_spec() == reps,
            r.samples() == Seq::<u64>::empty(),
    {
        RelayBenchmarkDriver {
            n_units,
            transform,
            entry_value,
            warmups,
            reps,
            warmups_done: 0,
            reps_done: 0,
            phase: RelayPhase::Building,
            stats: Stats::new(),
        }
    }

    /// Where the run stands.
    pub fn phase(&self) -> (r: RelayPhase)
        ensures
            r == self.phase_spec(),
    {
        self.phase
    }

    /// Measured iterations completed so far.
    pub fn reps_done(&self) -> (r: u64)
        ensures
            r == self.reps_done_spec(),
    {
        self.reps_done
    }

    /// The accumulated measured-iteration statistics.
    pub fn stats(&self) -> (r: &Stats)
        ensures
            *r == self.stats_spec(),
    {
        &self.stats
    }

    /// The statistics accumulator as a value.
    pub closed spec fn stats_spec(self) -> Stats {
        self.stats
    }

    /// The payload value every full traversal must deliver at the exit.
    pub fn expected_exit(&self) -> (r: u64)
        requires
            self.wf(),
        ensures
            r == self.expected_exit_spec(),
    {
        proof {
            lemma_iterate_identity(self.entry_value as int, self.n_units as nat);
            lemma_iterate_increment(self.entry_value as int, self.n_units as nat);
        }
        match self.transform {
            Transform::Identity => self.entry_value,
            Transform::IncrementByOne => self.entry_value + self.n_units as u64,
        }
    }

    /// Record that the chain is fully constructed and all units are
    /// scheduled: the run leaves `Building`.
    pub fn confirm_built(&mut self)
        requires
            old(self).wf(),
            old(self).phase_spec() is Building,
        ensures
            final(self).wf(),
            final(self).same_config(*old(self)),
            final(self).phase_spec() == old(self).phase_after_building(),
            final(self).samples() == old(self).samples(),
            final(self).warmups_done_spec() == 0,
            final(self).reps_done_spec() == 0,
    {
        if self.warmups > 0 {
            self.phase = RelayPhase::Warmup;
        } else if self.reps > 0 {
            self.phase = RelayPhase::Measuring;
        } else {
            self.phase = RelayPhase::Done;
        }
    }

    /// Record one completed traversal: the payload observed at the exit and
    /// the elapsed wall-clock time. A warmup iteration is discarded, never
    /// pushed into the statistics; a measured iteration pushes its elapsed
    /// time, clamped to the admissible sample range. An observed payload
    /// other than the expected one is a fatal protocol violation: the
    /// driver is left unchanged and the run must be aborted.
    pub fn complete_iteration(&mut self, observed: u64, elapsed_nanos: u64)
        -> (r: Result<(), BenchError>)
        requires
            old(self).wf(),
            old(self).phase_spec() is Warmup || old(self).phase_spec() is Measuring,
        ensures
            final(self).wf(),
            final(self).same_config(*old(self)),
            r is Err <==> observed as int != old(self).expected_exit_spec(),
            r is Err ==> *final(self) == *old(self)
                && r == Result::<(), BenchError>::Err(BenchError::ProtocolViolation {
                    expected: old(self).expected_exit_spec() as u64,
                    observed,
                }),
            r is Ok && old(self).phase_spec() is Warmup ==> {
                &&& final(self).samples() == old(self).samples()
                &&& final(self).warmups_done_spec() == old(self).warmups_done_spec() + 1
                &&& final(self).reps_done_spec() == 0
                &&& final(self).phase_spec() == old(self).phase_after_warmup_iteration()
            },
            r is Ok && old(self).phase_spec() is Measuring ==> {
                &&& final(self).samples() == old(self).samples().push(clamp_sample(elapsed_nanos))
                &&& final(self).warmups_done_spec() == old(self).warmups_done_spec()
                &&& final(self).reps_done_spec() == old(self).reps_done_spec() + 1
                &&& final(self).phase_spec() == old(self).phase_after_measured_iteration()
            },
    {
        let expected = self.expected_exit();
        if observed != expected {
            return Err(BenchError::ProtocolViolation { expected, observed });
        }
        match self.phase {
            RelayPhase::Warmup => {
                self.warmups_done = self.warmups_done + 1;
                if self.warmups_done < self.warmups {
                    self.phase = RelayPhase::Warmup;
                } else if self.reps > 0 {
                    self.phase = RelayPhase::Measuring;
                } else {
                    self.phase = RelayPhase::Done;
                }
            },
            _ => {
                let sample = if elapsed_nanos > MAX_SAMPLE_NANOS {
                    MAX_SAMPLE_NANOS
                } else {
                    elapsed_nanos
                };
                self.stats.push(sample);
                self.reps_done = self.reps_done + 1;
                if self.reps_done < self.reps {
                    self.phase = RelayPhase::Measuring;
                } else {
                    self.phase = RelayPhase::Done;
                }
            },
        }
        Ok(())
    }

    /// Run the whole benchmark on the inline-sequential substrate: `W`
    /// discarded warmup traversals, then `R` timed traversals, all within
    /// this one call. The chain's contract makes a wrong exit payload
    /// impossible, so the run always succeeds, ends `Done`, holds exactly
    /// one sample per measured iteration, and leaves the chain empty.
    pub fn run_inline(&mut self, chain: &mut Chain)
        requires
            old(self).wf(),
            old(self).phase_spec() is Building,
            old(chain).wf(),
            old(chain).all_empty(),
            old(chain).units_spec() == old(self).n_units_spec(),
            old(chain).transform_spec() == old(self).transform_spec(),
        ensures
            final(self).wf(),
            final(self).same_config(*old(self)),
            final(self).phase_spec() is Done,
            final(self).samples().len() == old(self).reps_spec(),
            final(chain).wf(),
            final(chain).all_empty(),
            final(chain).units_spec() == old(chain).units_spec(),
            final(chain).transform_spec() == old(chain).transform_spec(),
    {
        self.confirm_built();
        while self.phase() == RelayPhase::Warmup
            invariant
                self.wf(),
                self.same_config(*old(self)),
                !(self.phase_spec() is Building),
                self.reps_done_spec() == 0,
                chain.wf(),
                chain.all_empty(),
                chain.units_spec() == self.n_units_spec(),
                chain.transform_spec() == self.transform_spec(),
            decreases self.warmups_spec() - self.warmups_done_spec(),
        {
            let observed = chain.relay_once(self.entry_value);
            let r = self.complete_iteration(observed, 0);
            match r {
                Ok(()) => {},
                Err(_) => {
                    proof {
                        assert(false);
                    }
                },
            }
        }
        while self.phase() == RelayPhase::Measuring
            invariant
                self.wf(),
                self.same_config(*old(self)),
                !(self.phase_spec() is Building),
                !(self.phase_spec() is Warmup),
                chain.wf(),
                chain.all_empty(),
                chain.units_spec() == self.n_units_spec(),
                chain.transform_spec() == self.transform_spec(),
            decreases self.reps_spec() - self.reps_done_spec(),
        {
            let start = instant_now();
            let observed = chain.relay_once(self.entry_value);
            let duration = elapsed_since(&start);
            let elapsed_wide = duration_as_nanos(&duration);
            let elapsed = if elapsed_wide > MAX_SAMPLE_NANOS as u128 {
                MAX_SAMPLE_NANOS
            } else {
                elapsed_wide as u64
            };
            let r = self.complete_iteration(observed, elapsed);
            match r {
                Ok(()) => {},
                Err(_) => {
                    proof {
                        assert(false);
                    }
                },
            }
        }
    }

    /// The report of a finished run: iteration count, unit count, mean,
    /// population standard deviation, and the per-unit overhead estimate.
    /// At least one measured iteration must have completed: the mean and
    /// standard deviation of an empty accumulator are a division by zero.
    pub fn report(&self) -> (r: RelayReport)
        requires
            self.wf(),
            self.phase_spec() is Done,
            self.reps_spec() >= 1,
        ensures
            r.iterations == self.reps_spec(),
            r.units == self.n_units_spec(),
            r.mean_nanos == crate::stats::mean_of(self.samples()),
            r.stddev_nanos == crate::stats::pop_stddev_of(self.samples()),
            r.per_unit_mean_nanos == (if self.n_units_spec() == 0 {
                Option::<u64>::None
            } else {
                Option::<u64>::Some((crate::stats::mean_of(self.samples())
                    / self.n_units_spec() as int) as u64)
            }),
    {
        let mean_nanos = self.stats.mean();
        let stddev_nanos = self.stats.population_stddev();
        let per_unit_mean_nanos = if self.n_units == 0 {
            None
        } else {
            Some(mean_nanos / self.n_units as u64)
        };
        RelayReport {
            iterations: self.reps,
            units: self.n_units,
            mean_nanos,
            stddev_nanos,
            per_unit_mean_nanos,
        }
    }
}

} // verus!
