use vstd::prelude::*;
use vstd::arithmetic::div_mod::{lemma_div_non_zero, lemma_div_nonincreasing};
use crate::errors::Layer0Error;
use crate::stats::{fresh_model, updated_model, RtStats};
use std::time::Instant;

verus! {

/// Relies on std::time::Instant as an opaque reading of the monotonic
/// clock; the pacer stores its start reference in one and only ever asks
/// how much time has passed since it.
#[verifier::external_type_specification]
#[verifier::external_body]
pub struct ExInstant(Instant);

/// Relies on std::time::Instant::now: takes the current reading of the
/// monotonic clock. The value depends on the clock, so nothing is promised
/// of it.
#[verifier::external_body]
fn instant_now() -> Instant {
    Instant::now()
}

/// Relies on std::time::Instant::elapsed: the time passed since `start`,
/// converted to whole nanoseconds. The value depends on the clock, so
/// nothing is promised of it.
#[verifier::external_body]
fn elapsed_ns(start: &Instant) -> u64 {
    start.elapsed().as_nanos() as u64
}

/// Relies on std::hint::spin_loop: the processor's busy-wait hint; it
/// computes nothing and changes nothing the program can observe.
#[verifier::external_body]
fn spin_hint() {
    std::hint::spin_loop();
}

/// The cycle pacer: a fixed whole-microsecond period derived from a
/// frequency, a monotonic start reference that anchors the cycle grid, and
/// the running statistics of every completed cycle.
pub struct RtTimer {
    pub start: Instant,
    pub period_us: u64,
    pub stats: RtStats,
}

impl RtTimer {
    /// A usable pacer: a positive whole-microsecond period, no longer than
    /// one second, and well-formed statistics.
    pub open spec fn wf(self) -> bool {
        &&& 1 <= self.period_us <= 1_000_000
        &&& self.stats.wf()
    }

    /// Creates a pacer for `frequency_hz` cycles per second, anchored at
    /// the current clock reading, with empty statistics. The period is the
    /// whole number of microseconds in one cycle, so the frequency must be
    /// at least one and no more than one million cycles per second.
    pub fn new(frequency_hz: u32) -> (r: RtTimer)
        requires
            1 <= frequency_hz <= 1_000_000,
        ensures
            r.period_us as int == 1_000_000int / (frequency_hz as int),
            r.stats.model() == fresh_model(),
            r.wf(),
    {
        proof {
            lemma_div_non_zero(1_000_000int, frequency_hz as int);
            lemma_div_nonincreasing(1_000_000int, frequency_hz as int);
        }
        let period_us: u64 = 1_000_000u64 / (frequency_hz as u64);
        RtTimer { start: instant_now(), period_us, stats: RtStats::new() }
    }

    /// Records one completed cycle whose wait was measured as `latency_us`
    /// microseconds: folds the observation into the statistics
    /// unconditionally — a miss is never hidden — and then reports
    /// `RealTimeViolation`, carrying the period as the expected value and
    /// the measurement as the actual one, exactly when the latency
    /// exceeded the period.
    pub fn finish_cycle(&mut self, latency_us: u64) -> (r: Result<(), Layer0Error>)
        requires
            old(self).wf(),
            old(self).stats.cycles_count < u64::MAX,
        ensures
            final(self).wf(),
            final(self).period_us == old(self).period_us,
            final(self).start == old(self).start,
            final(self).stats.model() == updated_model(
                old(self).stats.model(),
                latency_us,
                old(self).period_us,
            ),
            match r {
                Ok(()) => latency_us <= old(self).period_us,
                Err(Layer0Error::RealTimeViolation { expected_us, actual_us }) => expected_us
                    == old(self).period_us && actual_us == latency_us && latency_us > old(
                    self,
                ).period_us,
                Err(_) => false,
            },
    {
        let deadline_us: u64 = self.period_us;
        self.stats.update(latency_us, deadline_us);
        if latency_us > deadline_us {
            Err(Layer0Error::RealTimeViolation { expected_us: deadline_us, actual_us: latency_us })
        } else {
            Ok(())
        }
    }

    /// One pacing step. Reads the monotonic clock, computes the next cycle
    /// boundary on the fixed grid anchored at the start reference — the
    /// drift-compensating scheme: the boundary lies `period - (elapsed mod
    /// period)` ahead, so rounding never accumulates — busy-waits until
    /// that boundary, then measures the actual delay of this cycle and
    /// hands it to `finish_cycle`: the statistics take exactly one
    /// observation with the period as its deadline, and a violation
    /// carrying period and measurement is returned exactly when the
    /// measured latency exceeded the period. The spin is fuel-bounded so
    /// that the wait provably terminates even on a clock that never
    /// advances.
    pub fn wait_next_cycle(&mut self) -> (r: Result<(), Layer0Error>)
        requires
            old(self).wf(),
            old(self).stats.cycles_count < u64::MAX,
        ensures
            final(self).wf(),
            final(self).period_us == old(self).period_us,
            final(self).start == old(self).start,
            exists|lat: u64|
                {
                    &&& final(self).stats.model() == #[trigger] updated_model(
                        old(self).stats.model(),
                        lat,
                        old(self).period_us,
                    )
                    &&& match r {
                        Ok(()) => lat <= old(self).period_us,
                        Err(Layer0Error::RealTimeViolation { expected_us, actual_us }) => expected_us
                            == old(self).period_us && actual_us == lat && lat > old(
                            self,
                        ).period_us,
                        Err(_) => false,
                    }
                },
    {
        let cycle_start_ns: u64 = elapsed_ns(&self.start);
        let period_ns: u64 = self.period_us * 1000;
        let remainder: u64 = cycle_start_ns % period_ns;
        let wait_ns: u64 = period_ns - remainder;
        let target_ns: u128 = (cycle_start_ns as u128) + (wait_ns as u128);
        let mut now_ns: u64 = elapsed_ns(&self.start);
        let mut fuel: u64 = u64::MAX;
        #[verifier::loop_isolation(false)]
        while (now_ns as u128) < target_ns && fuel > 0
            decreases fuel,
        {
            spin_hint();
            now_ns = elapsed_ns(&self.start);
            fuel = fuel - 1;
        }
        let latency_us: u64 = if now_ns > cycle_start_ns {
            (now_ns - cycle_start_ns) / 1000
        } else {
            0
        };
        self.finish_cycle(latency_us)
    }

    /// Returns a snapshot of the statistics gathered so far; the pacer and
    /// its stream of observations are untouched.
    pub fn get_stats(&self) -> (r: RtStats)
        ensures
            r == self.stats,
    {
        self.stats
    }
}

} // verus!
