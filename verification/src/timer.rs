//! A repeating countdown that counts time in whole nanoseconds.

use vstd::arithmetic::div_mod::*;
use vstd::prelude::*;

verus! {

/// What a [`Timer`] holds, as mathematical integers.
pub struct TimerView {
    /// Length of one cycle, in nanoseconds.
    pub period: nat,
    /// Time into the current cycle, in nanoseconds.
    pub elapsed: nat,
    /// Cycles completed by the latest tick.
    pub times_finished_this_tick: nat,
}

impl TimerView {
    /// A cycle has positive length and the timer stands inside it.
    pub open spec fn wf(self) -> bool {
        0 < self.period && self.elapsed < self.period
    }

    /// The timer after `delta` more nanoseconds: every full period that has
    /// gone by counts as one completed cycle, and the rest carries over.
    pub open spec fn tick(self, delta: nat) -> TimerView {
        TimerView {
            period: self.period,
            elapsed: (self.elapsed + delta) % self.period,
            times_finished_this_tick: (self.elapsed + delta) / self.period,
        }
    }

    /// The latest tick completed at least one cycle.
    pub open spec fn just_finished(self) -> bool {
        self.times_finished_this_tick > 0
    }

    /// The timer after the ticks `deltas`, applied in order.
    pub open spec fn run(self, deltas: Seq<nat>) -> TimerView
        decreases deltas.len(),
    {
        if deltas.len() == 0 {
            self
        } else {
            self.run(deltas.drop_last()).tick(deltas.last())
        }
    }

    /// Cycles completed over the ticks `deltas`, summed tick by tick.
    pub open spec fn cycles_over(self, deltas: Seq<nat>) -> nat
        decreases deltas.len(),
    {
        if deltas.len() == 0 {
            0
        } else {
            self.cycles_over(deltas.drop_last()) + self.run(deltas).times_finished_this_tick
        }
    }

    /// Ticks among `deltas` after which the timer reports `just_finished`.
    pub open spec fn fires_over(self, deltas: Seq<nat>) -> nat
        decreases deltas.len(),
    {
        if deltas.len() == 0 {
            0
        } else {
            self.fires_over(deltas.drop_last()) + if self.run(deltas).just_finished() {
                1nat
            } else {
                0nat
            }
        }
    }
}

/// Sum of the entries of `deltas`.
pub open spec fn total(deltas: Seq<nat>) -> nat
    decreases deltas.len(),
{
    if deltas.len() == 0 {
        0
    } else {
        total(deltas.drop_last()) + deltas.last()
    }
}

/// A countdown that starts over each time its period has elapsed.
#[derive(Clone, Copy, Debug)]
pub struct Timer {
    period: u64,
    elapsed: u64,
    times_finished_this_tick: u64,
}

impl View for Timer {
    type V = TimerView;

    closed spec fn view(&self) -> TimerView {
        TimerView {
            period: self.period as nat,
            elapsed: self.elapsed as nat,
            times_finished_this_tick: self.times_finished_this_tick as nat,
        }
    }
}

impl DeepView for Timer {
    type V = TimerView;

    open spec fn deep_view(&self) -> TimerView {
        self@
    }
}

impl Timer {
    #[verifier::type_invariant]
    pub open spec fn well_formed(&self) -> bool {
        self@.wf()
    }

    /// A timer at the start of its first cycle.
    pub fn new(period_nanos: u64) -> (timer: Timer)
        requires
            period_nanos > 0,
        ensures
            timer@ == (TimerView {
                period: period_nanos as nat,
                elapsed: 0,
                times_finished_this_tick: 0,
            }),
    {
        Timer { period: period_nanos, elapsed: 0, times_finished_this_tick: 0 }
    }

    /// Advances the timer by `delta_nanos`.
    pub fn tick(&mut self, delta_nanos: u64)
        ensures
            final(self)@ == old(self)@.tick(delta_nanos as nat),
    {
        proof {
            use_type_invariant(&*self);
        }
        let period: u128 = self.period as u128;
        let reached: u128 = self.elapsed as u128 + delta_nanos as u128;
        let cycles: u128 = reached / period;
        let rest: u128 = reached % period;
        proof {
            lemma_cycles_fit(self.period as nat, self.elapsed as nat, delta_nanos as nat);
            lemma_mod_bound(reached as int, period as int);
        }
        self.elapsed = rest as u64;
        self.times_finished_this_tick = cycles as u64;
    }

    /// True if the latest tick completed a cycle.
    pub fn just_finished(&self) -> (finished: bool)
        ensures
            finished == self@.just_finished(),
    {
        self.times_finished_this_tick > 0
    }

    /// Cycles completed by the latest tick.
    pub fn times_finished_this_tick(&self) -> (times: u64)
        ensures
            times == self@.times_finished_this_tick,
    {
        self.times_finished_this_tick
    }

    /// Nanoseconds into the current cycle; always less than the period.
    pub fn elapsed(&self) -> (nanos: u64)
        ensures
            nanos == self@.elapsed,
            nanos < self@.period,
    {
        proof {
            use_type_invariant(self);
        }
        self.elapsed
    }

    /// Length of one cycle in nanoseconds; never zero.
    pub fn period(&self) -> (nanos: u64)
        ensures
            nanos == self@.period,
            nanos > 0,
    {
        proof {
            use_type_invariant(self);
        }
        self.period
    }
}

/// One tick moves the timer on by exactly its length: the cycles it completes
/// and the time it leaves in the new cycle add up to the time that was there
/// before plus `delta`.
pub proof fn tick_conserves_time(timer: TimerView, delta: nat)
    requires
        timer.wf(),
    ensures
        timer.tick(delta).wf(),
        timer.tick(delta).times_finished_this_tick * timer.period + timer.tick(delta).elapsed
            == timer.elapsed + delta,
{
    let reached = (timer.elapsed + delta) as int;
    let period = timer.period as int;
    lemma_fundamental_div_mod(reached, period);
    lemma_mod_pos_bound(reached, period);
    assert(period * (reached / period) == (reached / period) * period) by (nonlinear_arith);
}

/// The timer completes exactly one cycle per full period of elapsed time,
/// however the time is cut into ticks: over any run of ticks the cycles add
/// up to the whole periods contained in the time accumulated, and what is
/// left of that time stands on the timer.
pub proof fn cycles_match_elapsed_time(timer: TimerView, deltas: Seq<nat>)
    requires
        timer.wf(),
    ensures
        timer.run(deltas).wf(),
        timer.run(deltas).period == timer.period,
        timer.run(deltas).elapsed == (timer.elapsed + total(deltas)) % timer.period,
        timer.cycles_over(deltas) == (timer.elapsed + total(deltas)) / timer.period,
    decreases deltas.len(),
{
    let period = timer.period as int;
    if deltas.len() == 0 {
        lemma_small_mod(timer.elapsed, timer.period);
        lemma_basic_div(timer.elapsed as int, period);
    } else {
        let before = deltas.drop_last();
        let delta = deltas.last();
        cycles_match_elapsed_time(timer, before);
        let reached = (timer.elapsed + total(before)) as int;
        let cycles = reached / period;
        let rest = reached % period;
        lemma_fundamental_div_mod(reached, period);
        lemma_mod_multiples_vanish(cycles, rest + delta, period);
        lemma_hoist_over_denominator(rest + delta, cycles, timer.period);
        assert(cycles * period == period * cycles) by (nonlinear_arith);
        lemma_mod_pos_bound(rest + delta, period);
    }
}

/// While no tick is longer than the period, a tick completes at most one
/// cycle, so the ticks on which the timer reports `just_finished` number
/// exactly the full periods that have elapsed.
pub proof fn fires_once_per_period(timer: TimerView, deltas: Seq<nat>)
    requires
        timer.wf(),
        forall|i: int| 0 <= i < deltas.len() ==> deltas[i] <= timer.period,
    ensures
        timer.fires_over(deltas) == (timer.elapsed + total(deltas)) / timer.period,
    decreases deltas.len(),
{
    cycles_match_elapsed_time(timer, deltas);
    if deltas.len() > 0 {
        let before = deltas.drop_last();
        fires_once_per_period(timer, before);
        cycles_match_elapsed_time(timer, before);
        let at = timer.run(before);
        let reached = (at.elapsed + deltas.last()) as int;
        let period = timer.period as int;
        if reached < period {
            lemma_basic_div(reached, period);
        } else {
            lemma_fundamental_div_mod(reached - period, period);
            lemma_basic_div(reached - period, period);
            lemma_hoist_over_denominator(reached - period, 1, timer.period);
        }
    }
}

/// One tick cannot complete more cycles than a `u64` counts.
proof fn lemma_cycles_fit(period: nat, elapsed: nat, delta: nat)
    requires
        0 < period,
        elapsed < period <= u64::MAX,
        delta <= u64::MAX,
    ensures
        (elapsed + delta) / period <= u64::MAX,
{
    let reached = (elapsed + delta) as int;
    if period == 1 {
        lemma_div_by_self_bound(reached);
    } else {
        lemma_div_is_ordered_by_denominator(reached, 2, period as int);
    }
}

proof fn lemma_div_by_self_bound(x: int)
    requires
        0 <= x,
    ensures
        x / 1 == x,
{
}

proof fn lemma_mod_bound(x: int, m: int)
    requires
        0 <= x,
        0 < m,
    ensures
        0 <= x % m < m,
{
    lemma_mod_pos_bound(x, m);
}

} // verus!
