//! The Schedule data structure implements a value that increases over time.
//!
//! A schedule accrues `rate` units per month (of `MS_PER_MONTH` milliseconds);
//! `offset` is the value already taken out of it.

use vstd::prelude::*;
use crate::Balance;

verus! {

pub const MS_PER_MONTH: u128 = 31 * 24 * 3600 * 1000;

#[must_use]
#[derive(Clone, Copy, PartialEq, Eq, Structural, Debug)]
pub struct Schedule {
    pub rate: Balance,
    pub offset: Balance,
}

/// The value accrued at a rate from time zero to `time_ms`, rounded down.
pub open spec fn accrued(rate: int, time_ms: int) -> int {
    rate * time_ms / (MS_PER_MONTH as int)
}

impl Schedule {
    /// The value of the schedule at a time: accrued minus taken.
    pub open spec fn value_at(self, time_ms: int) -> int {
        accrued(self.rate as int, time_ms) - self.offset
    }

    /// The last millisecond before the value passes `value`, or `u64::MAX`
    /// for a schedule that does not grow.
    pub open spec fn time_of(self, value: int) -> int {
        if self.rate == 0 {
            u64::MAX as int
        } else {
            (self.offset + value) * (MS_PER_MONTH as int) / (self.rate as int)
        }
    }

    /// Whether `value_at_time` can compute the value at this time.
    pub open spec fn defined_at(self, time_ms: int) -> bool {
        &&& self.rate * time_ms <= u128::MAX
        &&& accrued(self.rate as int, time_ms) >= self.offset
    }

    pub fn new(start_ms: u64, rate: Balance) -> (s: Schedule)
        requires
            rate * start_ms <= u128::MAX,
        ensures
            s.rate == rate,
            s.offset == accrued(rate as int, start_ms as int),
    {
        let offset = rate * start_ms as Balance / MS_PER_MONTH;
        Schedule { rate, offset }
    }

    pub fn empty() -> (s: Schedule)
        ensures
            s.rate == 0 && s.offset == 0,
    {
        Schedule::new(0, 0)
    }

    pub fn value_at_time(&self, time_ms: u64) -> (v: Balance)
        requires
            self.defined_at(time_ms as int),
        ensures
            v == self.value_at(time_ms as int),
    {
        let absolute = self.rate * time_ms as Balance / MS_PER_MONTH;
        absolute - self.offset
    }

    /// The time at which the value reaches `value`, or `u64::MAX` for a
    /// schedule that does not grow.
    pub fn time_of_value(&self, value: Balance) -> (t: u64)
        requires
            self.rate > 0 ==> self.offset + value <= u128::MAX,
            self.rate > 0 ==> (self.offset + value) * MS_PER_MONTH <= u128::MAX,
        ensures
            self.rate == 0 ==> t == u64::MAX,
            self.rate > 0 ==> t == (((self.offset + value) * MS_PER_MONTH) / (self.rate as int)) as u64,
            t == self.time_of(value as int) as u64,
    {
        if self.rate == 0 {
            return u64::MAX;
        }
        let absolute = self.offset + value;
        let time = absolute * MS_PER_MONTH / self.rate;
        #[verifier::truncate] (time as u64)
    }

    pub fn add_schedule(&mut self, to_add: Schedule)
        requires
            old(self).offset + to_add.offset <= u128::MAX,
            old(self).rate + to_add.rate <= u128::MAX,
        ensures
            final(self).offset == old(self).offset + to_add.offset,
            final(self).rate == old(self).rate + to_add.rate,
    {
        self.offset = self.offset + to_add.offset;
        self.rate = self.rate + to_add.rate;
    }

    pub fn take_value(&mut self, value: Balance)
        requires
            old(self).offset + value <= u128::MAX,
        ensures
            final(self).offset == old(self).offset + value,
            final(self).rate == old(self).rate,
    {
        self.offset = self.offset + value;
    }

    #[must_use]
    pub fn take_value_at_time(&mut self, now_ms: u64) -> (v: Balance)
        requires
            old(self).defined_at(now_ms as int),
        ensures
            v == old(self).value_at(now_ms as int),
            final(self).rate == old(self).rate,
            final(self).offset == accrued(old(self).rate as int, now_ms as int),
    {
        let value = self.value_at_time(now_ms);
        self.offset = self.offset + value;
        value
    }
}

/// The accrued value never decreases as time goes on.
pub proof fn lemma_accrued_monotonic(rate: int, t1: int, t2: int)
    requires
        0 <= rate,
        0 <= t1 <= t2,
    ensures
        accrued(rate, t1) <= accrued(rate, t2),
{
    assert(rate * t1 <= rate * t2) by (nonlinear_arith)
        requires
            0 <= rate,
            t1 <= t2,
    ;
    vstd::arithmetic::div_mod::lemma_div_is_ordered(rate * t1, rate * t2, MS_PER_MONTH as int);
}

/// A schedule's value never decreases as time goes on.
pub proof fn lemma_value_monotonic(s: Schedule, t1: int, t2: int)
    requires
        0 <= t1 <= t2,
    ensures
        s.value_at(t1) <= s.value_at(t2),
{
    lemma_accrued_monotonic(s.rate as int, t1, t2);
}

/// A schedule created at a start time has no value at that time.
pub proof fn lemma_new_schedule_starts_empty(start_ms: int, rate: int, s: Schedule)
    requires
        s.rate == rate,
        s.offset == accrued(rate, start_ms),
    ensures
        s.value_at(start_ms) == 0,
{
}

/// Taking the value at a time leaves nothing at that time, and every later
/// value drops by exactly what was taken.
pub proof fn lemma_take_value_at_time(before: Schedule, after: Schedule, now_ms: int, taken: int, later_ms: int)
    requires
        after.rate == before.rate,
        after.offset == accrued(before.rate as int, now_ms),
        taken == before.value_at(now_ms),
    ensures
        after.value_at(now_ms) == 0,
        after.value_at(later_ms) == before.value_at(later_ms) - taken,
{
}

/// Adding a schedule to another yields, at any time, the sum of the two
/// values, or one unit more from rounding.
pub proof fn lemma_add_schedule_value(a: Schedule, b: Schedule, sum: Schedule, t: int)
    requires
        0 <= t,
        sum.rate == a.rate + b.rate,
        sum.offset == a.offset + b.offset,
    ensures
        a.value_at(t) + b.value_at(t) <= sum.value_at(t) <= a.value_at(t) + b.value_at(t) + 1,
{
    let m = MS_PER_MONTH as int;
    let x = a.rate * t;
    let y = b.rate * t;
    assert(sum.rate * t == x + y) by (nonlinear_arith)
        requires
            sum.rate == a.rate + b.rate,
            x == a.rate * t,
            y == b.rate * t,
    ;
    assert(x / m + y / m <= (x + y) / m <= x / m + y / m + 1) by (nonlinear_arith)
        requires
            m > 0,
            x >= 0,
            y >= 0,
    {
        vstd::arithmetic::div_mod::lemma_fundamental_div_mod(x, m);
        vstd::arithmetic::div_mod::lemma_fundamental_div_mod(y, m);
        vstd::arithmetic::div_mod::lemma_fundamental_div_mod(x + y, m);
    }
}

/// The time that `time_of_value` gives for a growing schedule is the last
/// millisecond at which the value has not yet passed `value`: up to it the
/// value is at most `value`, and from the next millisecond on it is at
/// least `value`; its accrual stays within what `time_of_value` multiplies.
/// A schedule that does not grow never reaches a value: its time is
/// `u64::MAX`.
pub proof fn lemma_time_of_value(s: Schedule, value: Balance)
    requires
        s.rate > 0 ==> s.time_of(value as int) < u64::MAX,
    ensures
        s.rate == 0 ==> s.time_of(value as int) == u64::MAX,
        s.rate > 0 ==> {
            let t = s.time_of(value as int);
            &&& 0 <= t
            &&& s.value_at(t) <= value
            &&& s.value_at(t + 1) >= value
            &&& s.rate * t <= (s.offset + value) * (MS_PER_MONTH as int)
            &&& forall|u: int| 0 <= u <= t ==> #[trigger] s.value_at(u) <= value
            &&& forall|u: int| u > t ==> #[trigger] s.value_at(u) >= value
        },
{
    if s.rate > 0 {
        let m = MS_PER_MONTH as int;
        let r = s.rate as int;
        let a = (s.offset + value) * m;
        let ti = s.time_of(value as int);
        assert(ti == a / r);
        assert(0 <= ti && r * ti <= a && a < r * (ti + 1)) by (nonlinear_arith)
            requires
                r > 0,
                a >= 0,
                ti == a / r,
        {
            vstd::arithmetic::div_mod::lemma_fundamental_div_mod(a, r);
        }
        assert forall|u: int| 0 <= u <= ti implies #[trigger] s.value_at(u) <= value by {
            assert(r * u <= r * ti) by (nonlinear_arith)
                requires
                    r > 0,
                    u <= ti,
            ;
            assert((r * u) / m <= s.offset + value) by (nonlinear_arith)
                requires
                    m > 0,
                    r * u <= (s.offset + value) * m,
            {
                vstd::arithmetic::div_mod::lemma_fundamental_div_mod(r * u, m);
            }
        }
        assert forall|u: int| u > ti implies #[trigger] s.value_at(u) >= value by {
            assert(r * u >= r * (ti + 1)) by (nonlinear_arith)
                requires
                    r > 0,
                    u >= ti + 1,
            ;
            assert((r * u) / m >= s.offset + value) by (nonlinear_arith)
                requires
                    m > 0,
                    r * u > (s.offset + value) * m,
            {
                vstd::arithmetic::div_mod::lemma_fundamental_div_mod(r * u, m);
            }
        }
        assert(s.value_at(ti) <= value);
        assert(s.value_at(ti + 1) >= value);
    }
}

} // verus!
