use vstd::prelude::*;

verus! {

/// A one-shot countdown, advanced by elapsed frame time. It reports the
/// tick on which it reaches zero exactly once; afterwards it stays
/// finished and never fires again.
#[derive(Clone, Copy, PartialEq, Eq, Structural, Debug)]
pub struct CountdownTimer {
    pub remaining_ms: u64,
    pub finished: bool,
}

impl CountdownTimer {
    pub open spec fn new_spec(duration_ms: u64) -> CountdownTimer {
        CountdownTimer { remaining_ms: duration_ms, finished: false }
    }

    pub fn new(duration_ms: u64) -> (r: CountdownTimer)
        ensures
            r == CountdownTimer::new_spec(duration_ms),
    {
        CountdownTimer { remaining_ms: duration_ms, finished: false }
    }

    /// The state after one tick of `delta_ms` elapsed time.
    pub open spec fn ticked_spec(self, delta_ms: u64) -> CountdownTimer {
        if delta_ms >= self.remaining_ms {
            CountdownTimer { remaining_ms: 0, finished: true }
        } else {
            CountdownTimer {
                remaining_ms: (self.remaining_ms - delta_ms) as u64,
                finished: self.finished,
            }
        }
    }

    /// Whether a tick of `delta_ms` makes the countdown fire: it reaches
    /// zero on this very tick, not having finished before.
    pub open spec fn fires_spec(self, delta_ms: u64) -> bool {
        !self.finished && delta_ms >= self.remaining_ms
    }

    pub fn tick(&mut self, delta_ms: u64) -> (fired: bool)
        ensures
            *final(self) == old(self).ticked_spec(delta_ms),
            fired == old(self).fires_spec(delta_ms),
    {
        if delta_ms >= self.remaining_ms {
            self.remaining_ms = 0;
            let was_finished = self.finished;
            self.finished = true;
            !was_finished
        } else {
            self.remaining_ms = self.remaining_ms - delta_ms;
            false
        }
    }

    pub fn remaining(&self) -> (r: u64)
        ensures
            r == self.remaining_ms,
    {
        self.remaining_ms
    }
}

/// The state of a countdown after a whole sequence of ticks.
pub open spec fn countdown_after(t: CountdownTimer, deltas: Seq<u64>) -> CountdownTimer
    decreases deltas.len(),
{
    if deltas.len() == 0 {
        t
    } else {
        countdown_after(t.ticked_spec(deltas.first()), deltas.drop_first())
    }
}

/// How many ticks of the sequence make the countdown fire.
pub open spec fn countdown_fire_count(t: CountdownTimer, deltas: Seq<u64>) -> nat
    decreases deltas.len(),
{
    if deltas.len() == 0 {
        0
    } else {
        (if t.fires_spec(deltas.first()) {
            1nat
        } else {
            0nat
        }) + countdown_fire_count(t.ticked_spec(deltas.first()), deltas.drop_first())
    }
}

/// Total elapsed time of a sequence of ticks.
pub open spec fn sum_deltas(deltas: Seq<u64>) -> int
    decreases deltas.len(),
{
    if deltas.len() == 0 {
        0
    } else {
        deltas.first() + sum_deltas(deltas.drop_first())
    }
}

/// A finished countdown never fires again, however it is ticked.
pub proof fn lemma_finished_never_fires(t: CountdownTimer, deltas: Seq<u64>)
    requires
        t.finished,
    ensures
        countdown_fire_count(t, deltas) == 0,
    decreases deltas.len(),
{
    if deltas.len() > 0 {
        lemma_finished_never_fires(t.ticked_spec(deltas.first()), deltas.drop_first());
    }
}

/// A countdown that has not finished fires exactly once over any sequence
/// of ticks whose total elapsed time reaches its remaining duration, and
/// not at all over one that falls short. Countdowns are always set to
/// positive durations.
pub proof fn lemma_countdown_fires_exactly_once(t: CountdownTimer, deltas: Seq<u64>)
    requires
        !t.finished,
        t.remaining_ms > 0,
    ensures
        countdown_fire_count(t, deltas) == (if sum_deltas(deltas) >= t.remaining_ms {
            1int
        } else {
            0int
        }),
    decreases deltas.len(),
{
    if deltas.len() > 0 {
        let t2 = t.ticked_spec(deltas.first());
        assert(sum_deltas(deltas) == deltas.first() + sum_deltas(deltas.drop_first()));
        assert(countdown_fire_count(t, deltas) == (if t.fires_spec(deltas.first()) {
            1nat
        } else {
            0nat
        }) + countdown_fire_count(t2, deltas.drop_first()));
        if t.fires_spec(deltas.first()) {
            lemma_finished_never_fires(t2, deltas.drop_first());
            lemma_sum_deltas_nonneg(deltas.drop_first());
        } else {
            lemma_countdown_fires_exactly_once(t2, deltas.drop_first());
        }
    }
}

pub proof fn lemma_sum_deltas_nonneg(deltas: Seq<u64>)
    ensures
        sum_deltas(deltas) >= 0,
    decreases deltas.len(),
{
    if deltas.len() > 0 {
        lemma_sum_deltas_nonneg(deltas.drop_first());
    }
}

/// A repeating timer with a fixed period, advanced by elapsed frame time.
/// It fires on every tick that crosses a period boundary and wraps the
/// accumulated time, as a repeating frame timer does.
#[derive(Clone, Copy, PartialEq, Eq, Structural, Debug)]
pub struct RepeatingTimer {
    pub period_ms: u64,
    pub elapsed_ms: u64,
}

impl RepeatingTimer {
    /// Well-formed: a positive period that leaves room for one more tick,
    /// and accumulated time strictly inside the current period.
    pub open spec fn wf(self) -> bool {
        &&& 0 < self.period_ms
        &&& self.elapsed_ms < self.period_ms
    }

    pub open spec fn new_spec(period_ms: u64) -> RepeatingTimer {
        RepeatingTimer { period_ms, elapsed_ms: 0 }
    }

    pub fn new(period_ms: u64) -> (r: RepeatingTimer)
        requires
            period_ms > 0,
        ensures
            r == RepeatingTimer::new_spec(period_ms),
            r.wf(),
    {
        RepeatingTimer { period_ms, elapsed_ms: 0 }
    }

    /// The state after one tick: accumulated time advances and wraps at
    /// the period.
    pub open spec fn ticked_spec(self, delta_ms: u64) -> RepeatingTimer {
        RepeatingTimer {
            period_ms: self.period_ms,
            elapsed_ms: ((self.elapsed_ms + delta_ms) % (self.period_ms as int)) as u64,
        }
    }

    /// Whether a tick of `delta_ms` crosses a period boundary.
    pub open spec fn fires_spec(self, delta_ms: u64) -> bool {
        self.elapsed_ms + delta_ms >= self.period_ms
    }

    pub fn tick(&mut self, delta_ms: u64) -> (fired: bool)
        requires
            old(self).wf(),
            old(self).elapsed_ms + delta_ms <= u64::MAX,
        ensures
            *final(self) == old(self).ticked_spec(delta_ms),
            fired == old(self).fires_spec(delta_ms),
            final(self).wf(),
    {
        let total = self.elapsed_ms + delta_ms;
        if total >= self.period_ms {
            self.elapsed_ms = total % self.period_ms;
            true
        } else {
            proof {
                vstd::arithmetic::div_mod::lemma_small_mod(
                    total as nat,
                    self.period_ms as nat,
                );
            }
            self.elapsed_ms = total;
            false
        }
    }
}

/// The state of a repeating timer after a whole sequence of ticks.
pub open spec fn repeating_after(t: RepeatingTimer, deltas: Seq<u64>) -> RepeatingTimer
    decreases deltas.len(),
{
    if deltas.len() == 0 {
        t
    } else {
        repeating_after(t.ticked_spec(deltas.first()), deltas.drop_first())
    }
}

/// How many ticks of the sequence make the repeating timer fire.
pub open spec fn repeating_fire_count(t: RepeatingTimer, deltas: Seq<u64>) -> nat
    decreases deltas.len(),
{
    if deltas.len() == 0 {
        0
    } else {
        (if t.fires_spec(deltas.first()) {
            1nat
        } else {
            0nat
        }) + repeating_fire_count(t.ticked_spec(deltas.first()), deltas.drop_first())
    }
}

/// Over ticks that each stay within one period, a repeating timer fires
/// once per full period of accumulated time: the number of firing ticks
/// is the total elapsed time divided by the period.
pub proof fn lemma_repeating_fire_count(t: RepeatingTimer, deltas: Seq<u64>)
    requires
        t.wf(),
        forall|i: int| 0 <= i < deltas.len() ==> #[trigger] deltas[i] <= t.period_ms,
    ensures
        repeating_fire_count(t, deltas) == (t.elapsed_ms + sum_deltas(deltas)) / (
        t.period_ms as int),
        repeating_after(t, deltas).wf(),
        repeating_after(t, deltas).period_ms == t.period_ms,
    decreases deltas.len(),
{
    let p = t.period_ms as int;
    if deltas.len() == 0 {
        vstd::arithmetic::div_mod::lemma_basic_div(t.elapsed_ms as int, p);
    } else {
        let d = deltas.first();
        let t2 = t.ticked_spec(d);
        let total = t.elapsed_ms + d;
        vstd::arithmetic::div_mod::lemma_mod_bound(total, p);
        assert(forall|i: int|
            0 <= i < deltas.drop_first().len() ==> #[trigger] deltas.drop_first()[i]
                <= t.period_ms) by {
            assert(forall|i: int|
                0 <= i < deltas.drop_first().len() ==> deltas.drop_first()[i] == #[trigger] deltas[
                i + 1]);
        }
        lemma_repeating_fire_count(t2, deltas.drop_first());
        lemma_sum_deltas_nonneg(deltas.drop_first());
        let rest = sum_deltas(deltas.drop_first());
        if t.fires_spec(d) {
            // the tick crosses exactly one boundary: total lies in [p, 2p)
            vstd::arithmetic::div_mod::lemma_fundamental_div_mod_converse(total, p, 1, total - p);
            assert(t2.elapsed_ms == total - p);
            let x = total - p + rest;
            vstd::arithmetic::div_mod::lemma_fundamental_div_mod(x, p);
            vstd::arithmetic::div_mod::lemma_mod_bound(x, p);
            let q = x / p;
            let r = x % p;
            assert(x + p == (q + 1) * p + r) by (nonlinear_arith)
                requires
                    x == p * q + r,
            ;
            vstd::arithmetic::div_mod::lemma_fundamental_div_mod_converse(x + p, p, q + 1, r);
            assert((x + p) / p == x / p + 1);
        } else {
            vstd::arithmetic::div_mod::lemma_small_mod(total as nat, p as nat);
            assert(t2.elapsed_ms == total);
        }
    }
}

} // verus!
