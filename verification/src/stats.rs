//! Streaming accumulator of count, sum, and sum of squares over
//! nanosecond-valued samples, with mean and population standard deviation
//! derived on demand.

use vstd::prelude::*;

verus! {

/// Largest admissible sample, in nanoseconds (a little under five hours).
/// Together with `MAX_SAMPLE_COUNT` it keeps every 128-bit intermediate of
/// the variance formula below `u128::MAX`.
pub const MAX_SAMPLE_NANOS: u64 = 0xFFF_FFFF_FFFF;

/// Largest admissible number of samples.
pub const MAX_SAMPLE_COUNT: u64 = 0x10_0000;

/// Sum of the samples of `s`.
pub open spec fn sum_of(s: Seq<u64>) -> int
    decreases s.len(),
{
    if s.len() == 0 {
        0
    } else {
        sum_of(s.drop_last()) + s.last()
    }
}

/// Sum of the squares of the samples of `s`.
pub open spec fn sum_sq_of(s: Seq<u64>) -> int
    decreases s.len(),
{
    if s.len() == 0 {
        0
    } else {
        sum_sq_of(s.drop_last()) + s.last() * s.last()
    }
}

/// A raw clock reading clamped to the largest admissible sample, so that an
/// absurd reading can never push the accumulator out of bounds.
pub open spec fn clamp_sample(x: u64) -> u64 {
    if x > MAX_SAMPLE_NANOS {
        MAX_SAMPLE_NANOS
    } else {
        x
    }
}

/// `r` is the integer square root of `v`, rounded down.
pub open spec fn is_sqrt_floor(v: int, r: int) -> bool {
    0 <= r && r * r <= v && v < (r + 1) * (r + 1)
}

/// The integer square root of `v`, rounded down.
pub open spec fn sqrt_floor(v: int) -> int {
    choose|r: int| is_sqrt_floor(v, r)
}

/// Numerator under the square root of the population-standard-deviation
/// formula: `count * sumSquares - sum^2`.
pub open spec fn variance_num_of(s: Seq<u64>) -> int {
    s.len() * sum_sq_of(s) - sum_of(s) * sum_of(s)
}

/// The arithmetic mean of `s`, rounded down to whole nanoseconds.
pub open spec fn mean_of(s: Seq<u64>) -> int {
    sum_of(s) / s.len() as int
}

/// The population standard deviation of `s`,
/// `sqrt(count * sumSquares - sum^2) / count`, rounded down.
pub open spec fn pop_stddev_of(s: Seq<u64>) -> int {
    sqrt_floor(variance_num_of(s)) / s.len() as int
}

/// Streaming statistics accumulator. It stores only the count, the sum and
/// the sum of squares of the samples pushed so far; mean and population
/// standard deviation are derived, never stored. The view of an accumulator
/// is the sequence of samples pushed into it.
pub struct Stats {
    count: u64,
    sum: u128,
    sum_sq: u128,
    samples: Ghost<Seq<u64>>,
}

impl View for Stats {
    type V = Seq<u64>;

    closed spec fn view(&self) -> Seq<u64> {
        self.samples@
    }
}

impl Stats {
    /// The fields hold exactly the count, sum and sum of squares of the
    /// samples pushed so far, each sample within the admissible bounds.
    pub closed spec fn wf(self) -> bool {
        &&& self.count == self@.len()
        &&& self.count <= MAX_SAMPLE_COUNT
        &&& self.sum == sum_of(self@)
        &&& self.sum_sq == sum_sq_of(self@)
        &&& forall|i: int| 0 <= i < self@.len() ==> #[trigger] self@[i] <= MAX_SAMPLE_NANOS
    }

    /// A fresh accumulator: no samples yet.
    pub fn new() -> (r: Stats)
        ensures
            r.wf(),
            r@ == Seq::<u64>::empty(),
    {
        Stats { count: 0, sum: 0, sum_sq: 0, samples: Ghost(Seq::empty()) }
    }

    /// How many samples have been pushed.
    pub fn count(&self) -> (r: u64)
        requires
            self.wf(),
        ensures
            r == self@.len(),
    {
        self.count
    }

    /// The sum of all pushed samples.
    pub fn sum(&self) -> (r: u128)
        requires
            self.wf(),
        ensures
            r == sum_of(self@),
    {
        self.sum
    }

    /// Record one sample.
    pub fn push(&mut self, x: u64)
        requires
            old(self).wf(),
            old(self)@.len() < MAX_SAMPLE_COUNT,
            x <= MAX_SAMPLE_NANOS,
        ensures
            final(self).wf(),
            final(self)@ == old(self)@.push(x),
    {
        proof {
            lemma_sum_bounds(self@);
            assert(self@.push(x).drop_last() == self@);
            assert((x as int) * (x as int) <= (MAX_SAMPLE_NANOS as int) * (MAX_SAMPLE_NANOS as int))
                by (nonlinear_arith)
                requires 0 <= x <= MAX_SAMPLE_NANOS;
        }
        self.count = self.count + 1;
        self.sum = self.sum + x as u128;
        self.sum_sq = self.sum_sq + (x as u128) * (x as u128);
        self.samples = Ghost(self.samples@.push(x));
    }

    /// Record every sample of `xs`, in order.
    pub fn extend(&mut self, xs: &Vec<u64>)
        requires
            old(self).wf(),
            old(self)@.len() + xs@.len() <= MAX_SAMPLE_COUNT,
            forall|i: int| 0 <= i < xs@.len() ==> #[trigger] xs@[i] <= MAX_SAMPLE_NANOS,
        ensures
            final(self).wf(),
            final(self)@ == old(self)@ + xs@,
    {
        let n = xs.len();
        let mut i: usize = 0;
        while i < n
            invariant
                n == xs@.len(),
                i <= n,
                self.wf(),
                self@ == old(self)@ + xs@.take(i as int),
                old(self)@.len() + xs@.len() <= MAX_SAMPLE_COUNT,
                forall|j: int| 0 <= j < xs@.len() ==> #[trigger] xs@[j] <= MAX_SAMPLE_NANOS,
            decreases n - i,
        {
            proof {
                assert(xs@.take(i as int).push(xs@[i as int]) == xs@.take(i as int + 1));
            }
            self.push(xs[i]);
            i = i + 1;
        }
        proof {
            assert(xs@.take(n as int) == xs@);
        }
    }
}

impl Stats {
    /// The arithmetic mean of the pushed samples, in whole nanoseconds,
    /// rounded down. Division by zero at count zero is a caller error,
    /// ruled out by the precondition.
    pub fn mean(&self) -> (r: u64)
        requires
            self.wf(),
            self@.len() >= 1,
        ensures
            r == mean_of(self@),
    {
        proof {
            lemma_sum_bounds(self@);
            assert(sum_of(self@) / self@.len() as int <= MAX_SAMPLE_NANOS)
                by (nonlinear_arith)
                requires
                    self@.len() >= 1,
                    0 <= sum_of(self@) <= self@.len() * MAX_SAMPLE_NANOS;
        }
        (self.sum / (self.count as u128)) as u64
    }

    /// The population standard deviation of the pushed samples,
    /// `sqrt(count * sumSquares - sum^2) / count`, in whole nanoseconds,
    /// rounded down. Division by zero at count zero is a caller error,
    /// ruled out by the precondition.
    pub fn population_stddev(&self) -> (r: u64)
        requires
            self.wf(),
            self@.len() >= 1,
        ensures
            r == pop_stddev_of(self@),
    {
        proof {
            lemma_sum_bounds(self@);
            lemma_variance_num_nonneg(self@);
            assert(self@.len() * sum_sq_of(self@) <= u128::MAX
                && sum_of(self@) * sum_of(self@) <= u128::MAX)
                by (nonlinear_arith)
                requires
                    1 <= self@.len() <= MAX_SAMPLE_COUNT,
                    0 <= sum_of(self@) <= self@.len() * MAX_SAMPLE_NANOS,
                    0 <= sum_sq_of(self@)
                        <= self@.len() * (MAX_SAMPLE_NANOS as int) * (MAX_SAMPLE_NANOS as int);
        }
        let num: u128 = (self.count as u128) * self.sum_sq - self.sum * self.sum;
        let root: u64 = isqrt_u128(num);
        proof {
            lemma_sqrt_floor_is_sqrt(num as int, root as int);
        }
        ((root as u128) / (self.count as u128)) as u64
    }
}

/// Binary search for the integer square root of `v`, rounded down.
pub fn isqrt_u128(v: u128) -> (r: u64)
    ensures
        is_sqrt_floor(v as int, r as int),
{
    let mut lo: u128 = 0;
    let mut hi: u128 = 0xFFFF_FFFF_FFFF_FFFF;
    proof {
        assert(v < (0xFFFF_FFFF_FFFF_FFFFu128 + 1) * (0xFFFF_FFFF_FFFF_FFFFu128 + 1))
            by (nonlinear_arith)
            requires v <= u128::MAX;
    }
    while lo < hi
        invariant
            lo <= hi <= 0xFFFF_FFFF_FFFF_FFFF,
            lo * lo <= v,
            v < (hi + 1) * (hi + 1),
        decreases hi - lo,
    {
        let mid: u128 = lo + (hi - lo + 1) / 2;
        proof {
            assert(mid * mid <= u128::MAX) by (nonlinear_arith)
                requires 0 <= mid <= 0xFFFF_FFFF_FFFF_FFFFu128;
        }
        if mid * mid <= v {
            lo = mid;
        } else {
            hi = mid - 1;
        }
    }
    lo as u64
}

/// The integer square root, rounded down, is unique.
pub proof fn lemma_sqrt_floor_unique(v: int, r1: int, r2: int)
    by (nonlinear_arith)
    requires
        0 <= r1,
        r1 * r1 <= v < (r1 + 1) * (r1 + 1),
        0 <= r2,
        r2 * r2 <= v < (r2 + 1) * (r2 + 1),
    ensures
        r1 == r2,
{
}

/// Any witness of `is_sqrt_floor(v, r)` is `sqrt_floor(v)`.
pub proof fn lemma_sqrt_floor_is_sqrt(v: int, r: int)
    requires
        is_sqrt_floor(v, r),
    ensures
        sqrt_floor(v) == r,
{
    assert(exists|r0: int| is_sqrt_floor(v, r0));
    lemma_sqrt_floor_unique(v, r, sqrt_floor(v));
}

/// Sums and sums of squares of unsigned samples are non-negative.
pub proof fn lemma_sums_nonneg(s: Seq<u64>)
    ensures
        sum_of(s) >= 0,
        sum_sq_of(s) >= 0,
    decreases s.len(),
{
    if s.len() > 0 {
        lemma_sums_nonneg(s.drop_last());
        assert(s.last() * s.last() >= 0) by (nonlinear_arith);
    }
}

/// One step of the Cauchy-Schwarz argument: pushing one more sample keeps
/// `count * sumSquares` at least `sum^2`.
proof fn lemma_push_preserves_cauchy(c: int, s: int, q: int, x: int)
    by (nonlinear_arith)
    requires
        c >= 0,
        s >= 0,
        q >= 0,
        x >= 0,
        c * q >= s * s,
    ensures
        (c + 1) * (q + x * x) >= (s + x) * (s + x),
{
    assert(c * (c * x * x - 2 * s * x + q) == (c * x - s) * (c * x - s) + (c * q - s * s));
}

/// For every sample sequence, `count * sumSquares - sum^2` is non-negative,
/// so the variance numerator never underflows.
pub proof fn lemma_variance_num_nonneg(s: Seq<u64>)
    ensures
        variance_num_of(s) >= 0,
    decreases s.len(),
{
    if s.len() == 0 {
        assert(variance_num_of(s) == 0);
    } else {
        let p = s.drop_last();
        lemma_variance_num_nonneg(p);
        lemma_sums_nonneg(p);
        lemma_push_preserves_cauchy(p.len() as int, sum_of(p), sum_sq_of(p), s.last() as int);
    }
}

/// A single sample is its own mean, and its population standard deviation
/// is zero.
pub proof fn lemma_single_sample_stats(s: Seq<u64>)
    requires
        s.len() == 1,
    ensures
        mean_of(s) == s[0],
        pop_stddev_of(s) == 0,
{
    assert(s.drop_last().len() == 0);
    assert(sum_of(s.drop_last()) == 0);
    assert(sum_sq_of(s.drop_last()) == 0);
    assert(sum_of(s) == s[0]);
    assert(sum_sq_of(s) == s[0] * s[0]);
    assert(variance_num_of(s) == 0);
    assert(is_sqrt_floor(0, 0));
    lemma_sqrt_floor_is_sqrt(0, 0);
}

/// The sum of samples bounded by `MAX_SAMPLE_NANOS` is at most
/// `len * MAX_SAMPLE_NANOS`, and likewise for the sum of squares;
/// both are non-negative.
pub proof fn lemma_sum_bounds(s: Seq<u64>)
    requires
        forall|i: int| 0 <= i < s.len() ==> #[trigger] s[i] <= MAX_SAMPLE_NANOS,
    ensures
        0 <= sum_of(s) <= s.len() * MAX_SAMPLE_NANOS,
        0 <= sum_sq_of(s) <= s.len() * (MAX_SAMPLE_NANOS as int) * (MAX_SAMPLE_NANOS as int),
    decreases s.len(),
{
    if s.len() > 0 {
        lemma_sum_bounds(s.drop_last());
        assert(s.last() * s.last() <= (MAX_SAMPLE_NANOS as int) * (MAX_SAMPLE_NANOS as int))
            by (nonlinear_arith)
            requires 0 <= s.last() <= MAX_SAMPLE_NANOS;
        assert((s.len() - 1) * MAX_SAMPLE_NANOS + MAX_SAMPLE_NANOS == s.len() * MAX_SAMPLE_NANOS)
            by (nonlinear_arith);
        assert((s.len() - 1) * (MAX_SAMPLE_NANOS as int) * (MAX_SAMPLE_NANOS as int)
            + (MAX_SAMPLE_NANOS as int) * (MAX_SAMPLE_NANOS as int)
            == s.len() * (MAX_SAMPLE_NANOS as int) * (MAX_SAMPLE_NANOS as int))
            by (nonlinear_arith);
    }
}

} // verus!
