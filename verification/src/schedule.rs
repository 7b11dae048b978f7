//! The fixed-rate timer that paces a periodic activity.
//!
//! A timer has a period and a next due instant, both in milliseconds on the
//! caller's monotonic clock. It fires when it is asked at or after the due
//! instant, and then moves the due instant along its grid to the first
//! point after the asking. Ticks that were missed in between are dropped:
//! however late the asking, one tick fires, and the next one falls on the
//! original grid.

use vstd::prelude::*;
use vstd::arithmetic::div_mod::{lemma_fundamental_div_mod, lemma_mod_multiples_basic};
use vstd::arithmetic::mul::{
    lemma_mul_is_commutative,
    lemma_mul_is_distributive_add_other_way,
    lemma_mul_inequality,
};

verus! {

/// The period of the sampler and of the controller unless the caller
/// chooses another: 60 seconds.
pub const DEFAULT_PERIOD: u64 = 60_000;

/// The first point of the grid `due`, `due + period`, `due + 2 * period`,
/// ... that lies after `now`.
pub open spec fn first_due_after(due: int, period: int, now: int) -> int {
    due + ((now - due) / period + 1) * period
}

/// `instant`, or the last instant of the clock where `instant` lies beyond.
pub open spec fn clamped(instant: int) -> int {
    if instant <= u64::MAX {
        instant
    } else {
        u64::MAX as int
    }
}

/// What a timer holds.
pub struct IntervalView {
    pub period: nat,
    pub due: nat,
}

impl IntervalView {
    /// The timer after it was asked at `now`, and whether it fired. It
    /// fires exactly when `now` has reached the due instant, and the due
    /// instant then moves to the first grid point after `now`, or to the
    /// end of the clock where that point lies beyond it.
    pub open spec fn asked(self, now: u64) -> (IntervalView, bool) {
        if now >= self.due {
            (
                IntervalView {
                    period: self.period,
                    due: clamped(
                        first_due_after(self.due as int, self.period as int, now as int),
                    ) as nat,
                },
                true,
            )
        } else {
            (self, false)
        }
    }
}

/// A fixed-rate timer. Its period is never zero.
#[derive(Debug)]
pub struct Interval {
    period: u64,
    due: u64,
}

impl View for Interval {
    type V = IntervalView;

    closed spec fn view(&self) -> IntervalView {
        IntervalView { period: self.period as nat, due: self.due as nat }
    }
}

impl Interval {
    #[verifier::type_invariant]
    spec fn positive_period(self) -> bool {
        self.period > 0
    }

    /// A timer of the given period whose first tick is due at `start`.
    /// There is no timer of period zero.
    pub fn new(start: u64, period: u64) -> (r: Option<Interval>)
        ensures
            match r {
                Some(timer) => period > 0 && timer@ == (IntervalView {
                    period: period as nat,
                    due: start as nat,
                }),
                None => period == 0,
            },
    {
        if period == 0 {
            None
        } else {
            Some(Interval { period, due: start })
        }
    }

    /// The period, in milliseconds.
    pub fn period(&self) -> (p: u64)
        ensures
            p == self@.period,
            p > 0,
    {
        proof {
            use_type_invariant(self);
        }
        self.period
    }

    /// The instant at which the next tick is due.
    pub fn next_due(&self) -> (d: u64)
        ensures
            d == self@.due,
    {
        self.due
    }

    /// Asks the timer at `now`, and says whether it fired. A timer that
    /// does not fire is left as it is.
    pub fn tick(&mut self, now: u64) -> (fired: bool)
        ensures
            (final(self)@, fired) == old(self)@.asked(now),
            fired == (now >= old(self)@.due),
    {
        proof {
            use_type_invariant(&*self);
        }
        if now < self.due {
            return false;
        }
        let elapsed: u64 = now - self.due;
        let whole: u64 = elapsed / self.period;
        proof {
            lemma_fundamental_div_mod(elapsed as int, self.period as int);
            lemma_mul_is_commutative(self.period as int, whole as int);
            lemma_mul_is_distributive_add_other_way(self.period as int, whole as int, 1);
        }
        let covered: u64 = whole * self.period;
        let next: u128 = self.due as u128 + covered as u128 + self.period as u128;
        self.due = if next > u64::MAX as u128 {
            u64::MAX
        } else {
            next as u64
        };
        true
    }
}

/// The due instant that a firing timer moves to is the first point of its
/// grid after the asking: it lies after `now`, at most one period after
/// it, a whole number of periods after the old due instant, and no grid
/// point lies between `now` and it.
pub proof fn next_due_is_first_grid_point(due: int, period: int, now: int)
    requires
        period > 0,
        due <= now,
    ensures
        now < first_due_after(due, period, now) <= now + period,
        (first_due_after(due, period, now) - due) % period == 0,
        forall|k: int|
            due + #[trigger] (k * period) > now ==> due + k * period >= first_due_after(
                due,
                period,
                now,
            ),
{
    let elapsed: int = now - due;
    let whole: int = elapsed / period;
    lemma_fundamental_div_mod(elapsed, period);
    lemma_mul_is_distributive_add_other_way(period, whole, 1);
    lemma_mod_multiples_basic(whole + 1, period);
    assert forall|k: int| due + #[trigger] (k * period) > now implies due + k * period
        >= first_due_after(due, period, now) by {
        if k <= whole {
            lemma_mul_inequality(k, whole, period);
        } else {
            lemma_mul_inequality(whole + 1, k, period);
        }
    }
}

} // verus!
