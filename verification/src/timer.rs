//! A repeating frame-time timer: an accumulator advanced by each frame's
//! delta that reports how many whole periods elapsed during the frame.

use vstd::prelude::*;

verus! {

/// A repeating countdown. `elapsed_us` is the time accumulated since the
/// last expiry; it always stays below the period.
pub struct RepeatTimer {
    pub period_us: u64,
    pub elapsed_us: u64,
}

impl RepeatTimer {
    /// The timer is well formed: a positive period, and an accumulator
    /// strictly below it.
    pub open spec fn wf(self) -> bool {
        0 < self.period_us && self.elapsed_us < self.period_us
    }

    pub fn new(period_us: u64) -> (t: RepeatTimer)
        requires
            0 < period_us,
        ensures
            t.wf(),
            t.period_us == period_us,
            t.elapsed_us == 0,
    {
        RepeatTimer { period_us, elapsed_us: 0 }
    }

    /// Advance the timer by one frame's delta. Returns how many whole
    /// periods expired during this frame; the accumulator keeps the
    /// remainder, so no elapsed time is ever lost between frames.
    pub fn tick(&mut self, delta_us: u64) -> (fires: u64)
        requires
            old(self).wf(),
            old(self).elapsed_us + delta_us <= u64::MAX,
        ensures
            final(self).wf(),
            final(self).period_us == old(self).period_us,
            fires == (old(self).elapsed_us + delta_us) as int / old(self).period_us as int,
            final(self).elapsed_us == (old(self).elapsed_us + delta_us) as int % old(self).period_us as int,
    {
        let total: u64 = self.elapsed_us + delta_us;
        let fires: u64 = total / self.period_us;
        self.elapsed_us = total % self.period_us;
        fires
    }
}

/// For a positive divisor and a non-negative dividend, the quotient is at
/// least one exactly when the dividend reaches the divisor: a timer fires
/// during a frame exactly when accumulated time reaches its period.
pub proof fn lemma_div_at_least_one(a: int, p: int)
    requires
        0 <= a,
        0 < p,
    ensures
        a / p >= 1 <==> a >= p,
{
    if a >= p {
        vstd::arithmetic::div_mod::lemma_div_is_ordered(p, a, p);
        vstd::arithmetic::div_mod::lemma_div_by_self(p);
    } else {
        vstd::arithmetic::div_mod::lemma_basic_div(a, p);
    }
}

/// Total time over a run of frame deltas.
pub open spec fn spec_sum(deltas: Seq<int>) -> int
    decreases deltas.len(),
{
    if deltas.len() == 0 {
        0
    } else {
        deltas.first() + spec_sum(deltas.drop_first())
    }
}

/// Every frame delta in a run is non-negative.
pub open spec fn spec_deltas_ok(deltas: Seq<int>) -> bool {
    forall|i: int| 0 <= i < deltas.len() ==> deltas[i] >= 0
}

/// Total number of timer expiries over a run of frames, starting from a
/// given accumulator, ticking once per frame.
pub open spec fn spec_fires(elapsed: int, period: int, deltas: Seq<int>) -> int
    decreases deltas.len(),
{
    if deltas.len() == 0 {
        0
    } else {
        (elapsed + deltas.first()) / period + spec_fires(
            (elapsed + deltas.first()) % period,
            period,
            deltas.drop_first(),
        )
    }
}

/// The accumulator left after a run of frames, ticking once per frame.
pub open spec fn spec_elapsed_after(elapsed: int, period: int, deltas: Seq<int>) -> int
    decreases deltas.len(),
{
    if deltas.len() == 0 {
        elapsed
    } else {
        spec_elapsed_after((elapsed + deltas.first()) % period, period, deltas.drop_first())
    }
}

/// Number of frames on which the timer reports at least one expiry: the
/// frames on which a frame callback gated on the timer acts at most once.
pub open spec fn spec_firing_frames(elapsed: int, period: int, deltas: Seq<int>) -> int
    decreases deltas.len(),
{
    if deltas.len() == 0 {
        0
    } else {
        (if (elapsed + deltas.first()) / period >= 1 {
            1int
        } else {
            0int
        }) + spec_firing_frames((elapsed + deltas.first()) % period, period, deltas.drop_first())
    }
}

proof fn lemma_sum_nonneg(deltas: Seq<int>)
    requires
        spec_deltas_ok(deltas),
    ensures
        spec_sum(deltas) >= 0,
    decreases deltas.len(),
{
    if deltas.len() > 0 {
        assert(deltas[0] >= 0);
        assert(spec_deltas_ok(deltas.drop_first()));
        lemma_sum_nonneg(deltas.drop_first());
    }
}

/// The timer's rate is fixed and drift-free: over any run of frames,
/// however the elapsed time is split into deltas, the number of expiries
/// is exactly the whole number of periods in the accumulated time, and
/// the leftover accumulator is exactly the remainder.
pub proof fn lemma_timer_fixed_rate(elapsed: int, period: int, deltas: Seq<int>)
    requires
        0 < period,
        0 <= elapsed < period,
        spec_deltas_ok(deltas),
    ensures
        spec_fires(elapsed, period, deltas) == (elapsed + spec_sum(deltas)) / period,
        spec_elapsed_after(elapsed, period, deltas) == (elapsed + spec_sum(deltas)) % period,
    decreases deltas.len(),
{
    if deltas.len() == 0 {
        vstd::arithmetic::div_mod::lemma_basic_div(elapsed, period);
        vstd::arithmetic::div_mod::lemma_small_mod(elapsed as nat, period as nat);
    } else {
        let d0 = deltas.first();
        assert(deltas[0] >= 0);
        let a = elapsed + d0;
        let rest = deltas.drop_first();
        let s = spec_sum(rest);
        assert(spec_deltas_ok(rest));
        vstd::arithmetic::div_mod::lemma_mod_bound(a, period);
        lemma_timer_fixed_rate(a % period, period, rest);
        lemma_sum_nonneg(rest);
        vstd::arithmetic::div_mod::lemma_fundamental_div_mod(a, period);
        let q2 = (a % period + s) / period;
        let r2 = (a % period + s) % period;
        vstd::arithmetic::div_mod::lemma_fundamental_div_mod(a % period + s, period);
        vstd::arithmetic::div_mod::lemma_mod_bound(a % period + s, period);
        assert(a + s == period * (a / period + q2) + r2) by (nonlinear_arith)
            requires
                a == period * (a / period) + a % period,
                a % period + s == period * q2 + r2,
        ;
        vstd::arithmetic::div_mod::lemma_fundamental_div_mod_converse(
            a + s,
            period,
            a / period + q2,
            r2,
        );
        assert(spec_sum(deltas) == d0 + s);
    }
}

/// Frame-rate independence outright: two runs that accumulate the same
/// total time see the same number of timer expiries, however differently
/// that time is cut into frames.
pub proof fn lemma_timer_rate_independent(
    elapsed: int,
    period: int,
    deltas1: Seq<int>,
    deltas2: Seq<int>,
)
    requires
        0 < period,
        0 <= elapsed < period,
        spec_deltas_ok(deltas1),
        spec_deltas_ok(deltas2),
        spec_sum(deltas1) == spec_sum(deltas2),
    ensures
        spec_fires(elapsed, period, deltas1) == spec_fires(elapsed, period, deltas2),
{
    lemma_timer_fixed_rate(elapsed, period, deltas1);
    lemma_timer_fixed_rate(elapsed, period, deltas2);
}

/// A callback that acts at most once per frame on which the timer fired
/// acts at most once per elapsed period: firing frames never outnumber
/// expiries, and so never outnumber whole periods of accumulated time.
pub proof fn lemma_at_most_one_per_period(elapsed: int, period: int, deltas: Seq<int>)
    requires
        0 < period,
        0 <= elapsed < period,
        spec_deltas_ok(deltas),
    ensures
        spec_firing_frames(elapsed, period, deltas) <= spec_fires(elapsed, period, deltas),
        spec_fires(elapsed, period, deltas) == (elapsed + spec_sum(deltas)) / period,
    decreases deltas.len(),
{
    lemma_timer_fixed_rate(elapsed, period, deltas);
    if deltas.len() > 0 {
        let d0 = deltas.first();
        assert(deltas[0] >= 0);
        let a = elapsed + d0;
        let rest = deltas.drop_first();
        assert(spec_deltas_ok(rest));
        vstd::arithmetic::div_mod::lemma_mod_bound(a, period);
        vstd::arithmetic::div_mod::lemma_div_pos_is_pos(a, period);
        lemma_at_most_one_per_period(a % period, period, rest);
    }
}

} // verus!
