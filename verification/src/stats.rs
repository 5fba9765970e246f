use vstd::prelude::*;
use vstd::arithmetic::div_mod::{lemma_div_is_ordered, lemma_div_multiples_vanish};

verus! {

/// Running latency statistics for one pacing stream: extremes, truncated
/// running mean, a cycle counter and a deadline-miss counter, all latencies
/// in microseconds. Before any observation the minimum holds the sentinel
/// `u64::MAX` and everything else is zero.
#[derive(Debug, Clone, Copy)]
pub struct RtStats {
    pub min_latency_us: u64,
    pub max_latency_us: u64,
    pub avg_latency_us: u64,
    pub cycles_count: u64,
    pub deadline_misses: u64,
}

/// Mathematical image of an `RtStats` value, over unbounded integers.
pub ghost struct StatsModel {
    pub min: int,
    pub max: int,
    pub avg: int,
    pub cycles: int,
    pub misses: int,
}

/// The aggregate before any observation: sentinel minimum, zero elsewhere.
pub open spec fn fresh_model() -> StatsModel {
    StatsModel { min: u64::MAX as int, max: 0, avg: 0, cycles: 0, misses: 0 }
}

/// One observation folded into an aggregate: the extremes absorb the new
/// latency, the mean is recomputed exactly as `(avg * n + latency) / (n + 1)`
/// with the division truncating, the cycle counter grows by one, and the
/// miss counter grows by one exactly when the latency exceeded its deadline.
pub open spec fn updated_model(m: StatsModel, latency_us: u64, deadline_us: u64) -> StatsModel {
    StatsModel {
        min: if (latency_us as int) < m.min { latency_us as int } else { m.min },
        max: if (latency_us as int) > m.max { latency_us as int } else { m.max },
        avg: (m.avg * m.cycles + latency_us as int) / (m.cycles + 1),
        cycles: m.cycles + 1,
        misses: m.misses + (if latency_us > deadline_us { 1int } else { 0int }),
    }
}

/// An aggregate that some sequence of observations can produce: counters are
/// consistent, the empty state is the sentinel state, and once an observation
/// is in, the extremes bracket the mean.
pub open spec fn model_wf(m: StatsModel) -> bool {
    &&& 0 <= m.cycles
    &&& 0 <= m.misses <= m.cycles
    &&& m.cycles == 0 ==> m.min == u64::MAX as int && m.max == 0 && m.avg == 0
    &&& m.cycles >= 1 ==> 0 <= m.min <= m.avg <= m.max <= u64::MAX as int
}

/// Number of observations in `obs` whose latency exceeded its deadline.
pub open spec fn misses_in(obs: Seq<(u64, u64)>) -> int
    decreases obs.len(),
{
    if obs.len() == 0 {
        0
    } else {
        misses_in(obs.drop_last()) + (if obs.last().0 > obs.last().1 { 1int } else { 0int })
    }
}

/// The aggregate that results from folding the observations of `obs`, in
/// order, into a fresh aggregate.
pub open spec fn model_after(obs: Seq<(u64, u64)>) -> StatsModel
    decreases obs.len(),
{
    if obs.len() == 0 {
        fresh_model()
    } else {
        updated_model(model_after(obs.drop_last()), obs.last().0, obs.last().1)
    }
}

/// One observation keeps an aggregate well-formed; in particular the
/// truncated mean stays between the updated extremes.
pub proof fn lemma_updated_model_wf(m: StatsModel, latency_us: u64, deadline_us: u64)
    requires
        model_wf(m),
    ensures
        model_wf(updated_model(m, latency_us, deadline_us)),
{
    let u = updated_model(m, latency_us, deadline_us);
    let l = latency_us as int;
    let n = m.cycles;
    let sum = m.avg * n + l;
    if n == 0 {
        assert(sum == l);
        lemma_div_multiples_vanish(l, 1);
        assert(1 * l == l);
        assert(u.avg == l);
    } else {
        let lo = u.min;
        let hi = u.max;
        assert(lo <= m.avg && lo <= l);
        assert(m.avg <= hi && l <= hi);
        assert(lo * (n + 1) <= sum) by (nonlinear_arith)
            requires
                sum == m.avg * n + l,
                lo <= m.avg,
                lo <= l,
                1 <= n;
        assert(sum <= hi * (n + 1)) by (nonlinear_arith)
            requires
                sum == m.avg * n + l,
                m.avg <= hi,
                l <= hi,
                1 <= n;
        lemma_div_is_ordered(lo * (n + 1), sum, n + 1);
        lemma_div_is_ordered(sum, hi * (n + 1), n + 1);
        lemma_div_multiples_vanish(lo, n + 1);
        lemma_div_multiples_vanish(hi, n + 1);
        assert(lo * (n + 1) == (n + 1) * lo) by (nonlinear_arith);
        assert(hi * (n + 1) == (n + 1) * hi) by (nonlinear_arith);
        assert(lo <= u.avg && u.avg <= hi);
    }
}

/// Law: fold any sequence of `(latency, deadline)` observations into a fresh
/// aggregate. After each prefix — and so in particular after the whole
/// sequence — the cycle counter equals the number of observations taken, the
/// miss counter counts exactly the observations whose latency exceeded their
/// deadline, and once at least one observation is in, the extremes bracket
/// the mean: `min <= avg <= max`.
pub proof fn lemma_stats_sequence(obs: Seq<(u64, u64)>)
    ensures
        model_after(obs).cycles == obs.len(),
        model_after(obs).misses == misses_in(obs),
        model_wf(model_after(obs)),
        obs.len() >= 1 ==> model_after(obs).min <= model_after(obs).avg
            <= model_after(obs).max,
    decreases obs.len(),
{
    if obs.len() == 0 {
    } else {
        lemma_stats_sequence(obs.drop_last());
        lemma_updated_model_wf(model_after(obs.drop_last()), obs.last().0, obs.last().1);
    }
}

impl RtStats {
    /// The abstract value of this aggregate.
    pub open spec fn model(self) -> StatsModel {
        StatsModel {
            min: self.min_latency_us as int,
            max: self.max_latency_us as int,
            avg: self.avg_latency_us as int,
            cycles: self.cycles_count as int,
            misses: self.deadline_misses as int,
        }
    }

    /// This aggregate is one that a sequence of observations can produce.
    pub open spec fn wf(self) -> bool {
        model_wf(self.model())
    }

    /// Creates the empty aggregate: no cycles, no misses, sentinel minimum.
    pub fn new() -> (r: RtStats)
        ensures
            r.model() == fresh_model(),
            r.wf(),
    {
        RtStats {
            min_latency_us: u64::MAX,
            max_latency_us: 0,
            avg_latency_us: 0,
            cycles_count: 0,
            deadline_misses: 0,
        }
    }

    /// Folds the observed latency of one completed cycle, measured against
    /// the deadline it had to meet, into the aggregate. The mean is the
    /// exact truncated running mean; a miss is counted exactly when
    /// `latency_us > deadline_us`.
    pub fn update(&mut self, latency_us: u64, deadline_us: u64)
        requires
            old(self).wf(),
            old(self).cycles_count < u64::MAX,
        ensures
            final(self).model() == updated_model(old(self).model(), latency_us, deadline_us),
            final(self).wf(),
    {
        proof {
            lemma_updated_model_wf(old(self).model(), latency_us, deadline_us);
        }
        if latency_us < self.min_latency_us {
            self.min_latency_us = latency_us;
        }
        if latency_us > self.max_latency_us {
            self.max_latency_us = latency_us;
        }
        let a: u64 = self.avg_latency_us;
        let n: u64 = self.cycles_count;
        proof {
            assert((a as int) * (n as int) <= (u64::MAX as int) * (u64::MAX as int))
                by (nonlinear_arith)
                requires
                    a <= u64::MAX,
                    n <= u64::MAX,
                    0 <= a,
                    0 <= n;
        }
        let sum: u128 = (a as u128) * (n as u128) + (latency_us as u128);
        let divisor: u128 = (n as u128) + 1;
        let mean: u128 = sum / divisor;
        proof {
            let cap: int = if latency_us as int > a as int { latency_us as int } else { a as int };
            assert(sum as int <= cap * (divisor as int)) by (nonlinear_arith)
                requires
                    sum as int == (a as int) * (n as int) + latency_us as int,
                    divisor as int == n as int + 1,
                    a as int <= cap,
                    latency_us as int <= cap,
                    0 <= n as int;
            lemma_div_is_ordered(sum as int, cap * (divisor as int), divisor as int);
            lemma_div_multiples_vanish(cap, divisor as int);
            assert(cap * (divisor as int) == (divisor as int) * cap) by (nonlinear_arith);
            assert(mean as int <= cap);
        }
        self.avg_latency_us = mean as u64;
        self.cycles_count = self.cycles_count + 1;
        if latency_us > deadline_us {
            self.deadline_misses = self.deadline_misses + 1;
        }
    }
}

impl Default for RtStats {
    /// The default aggregate is the empty one.
    fn default() -> (r: Self)
        ensures
            r.model() == fresh_model(),
            r.wf(),
    {
        RtStats::new()
    }
}

} // verus!
