//! A billing account: a deposit, the amount locked for payments already
//! due, and the schedule of the payments it makes.

use vstd::prelude::*;
use crate::{Balance, Error, Result};
use crate::cash::{Cash, Payable};
use crate::schedule::{Schedule, MS_PER_MONTH, accrued};

verus! {

#[derive(Clone, Copy, PartialEq, Eq, Structural, Debug)]
pub struct BillingAccount {
    pub deposit: Cash,
    pub payable_locked: Balance,
    pub payable_schedule: Schedule,
}

impl BillingAccount {
    /// What the account owes at a time: the locked amount and what its
    /// schedule has accrued.
    pub open spec fn consumed_at(self, time_ms: int) -> int {
        self.payable_locked + self.payable_schedule.value_at(time_ms)
    }

    /// Whether what the account owes at a time can be computed.
    pub open spec fn readable_at(self, time_ms: int) -> bool {
        &&& self.payable_schedule.defined_at(time_ms)
        &&& self.consumed_at(time_ms) <= u128::MAX
    }

    /// The deposit that the account does not owe at a time.
    pub open spec fn withdrawable_at(self, time_ms: int) -> int {
        if self.deposit.0 >= self.consumed_at(time_ms) {
            self.deposit.0 - self.consumed_at(time_ms)
        } else {
            0
        }
    }

    /// The account after what its schedule accrued by `now_ms` is moved to
    /// the locked amount, and `unlocked` leaves the locked amount.
    pub open spec fn unlocked_at(self, now_ms: int, unlocked: Balance) -> BillingAccount {
        BillingAccount {
            payable_locked: (self.payable_locked + self.payable_schedule.value_at(now_ms) - unlocked) as u128,
            payable_schedule: Schedule { offset: accrued(self.payable_schedule.rate as int, now_ms) as u128, ..self.payable_schedule },
            ..self
        }
    }

    pub fn new() -> (a: BillingAccount)
        ensures
            a == (BillingAccount { deposit: Cash(0), payable_locked: 0, payable_schedule: Schedule { rate: 0, offset: 0 } }),
    {
        BillingAccount { deposit: Cash(0), payable_locked: 0, payable_schedule: Schedule::empty() }
    }

    pub fn deposit(&mut self, cash: Cash)
        requires
            old(self).deposit.0 + cash.0 <= u128::MAX,
        ensures
            *final(self) == (BillingAccount { deposit: Cash((old(self).deposit.0 + cash.0) as u128), ..*old(self) }),
    {
        self.deposit.increase(cash);
    }

    /// Pays from the deposit what the account does not owe at this time.
    pub fn withdraw(&mut self, time_ms: u64, payable: Payable) -> (r: Result<()>)
        requires
            old(self).readable_at(time_ms as int),
        ensures
            old(self).withdrawable_at(time_ms as int) >= payable.0 ==> r == Ok::<(), Error>(())
                && *final(self) == (BillingAccount { deposit: Cash((old(self).deposit.0 - payable.0) as u128), ..*old(self) }),
            old(self).withdrawable_at(time_ms as int) < payable.0 ==> r == Err::<(), Error>(Error::InsufficientBalance)
                && *final(self) == *old(self),
    {
        if self.get_withdrawable(time_ms) >= payable.peek() {
            self.deposit.pay_unchecked(payable);
            Ok(())
        } else {
            Err(Error::InsufficientBalance)
        }
    }

    pub fn get_withdrawable(&self, time_ms: u64) -> (w: Balance)
        requires
            self.readable_at(time_ms as int),
        ensures
            w == self.withdrawable_at(time_ms as int),
    {
        let deposit = self.deposit.peek();
        let consumed = self.payable_locked + self.payable_schedule.value_at_time(time_ms);
        if deposit >= consumed {
            deposit - consumed
        } else {
            0
        }
    }

    /// The time at which the schedule will have consumed the deposit, or
    /// `u64::MAX` for a schedule that does not grow.
    pub fn schedule_covered_until(&self) -> (t: u64)
        requires
            self.payable_schedule.rate > 0 ==> self.payable_schedule.offset + self.deposit.0 <= u128::MAX,
            self.payable_schedule.rate > 0 ==> (self.payable_schedule.offset + self.deposit.0) * MS_PER_MONTH <= u128::MAX,
        ensures
            self.payable_schedule.rate == 0 ==> t == u64::MAX,
            self.payable_schedule.rate > 0 ==> t == (((self.payable_schedule.offset + self.deposit.0) * MS_PER_MONTH)
                / (self.payable_schedule.rate as int)) as u64,
    {
        self.payable_schedule.time_of_value(self.deposit.peek())
    }

    /// Moves what the schedule accrued by `now_ms` to the locked amount,
    /// releases the payable from it, and pays the payable from the deposit.
    /// The release stands when the deposit cannot pay.
    pub fn pay_scheduled(&mut self, now_ms: u64, payable: Payable) -> (r: Result<()>)
        requires
            old(self).payable_schedule.defined_at(now_ms as int),
            old(self).consumed_at(now_ms as int) <= u128::MAX,
            old(self).consumed_at(now_ms as int) >= payable.0,
        ensures
            ({
                let u = old(self).unlocked_at(now_ms as int, payable.0);
                &&& u.deposit.0 >= payable.0 ==> r == Ok::<(), Error>(())
                    && *final(self) == (BillingAccount { deposit: Cash((u.deposit.0 - payable.0) as u128), ..u })
                &&& u.deposit.0 < payable.0 ==> r == Err::<(), Error>(Error::InsufficientBalance) && *final(self) == u
            }),
    {
        self.unlock_scheduled_amount(now_ms, payable.peek());
        self.pay(payable)
    }

    fn pay(&mut self, payable: Payable) -> (r: Result<()>)
        ensures
            old(self).deposit.0 >= payable.0 ==> r == Ok::<(), Error>(())
                && *final(self) == (BillingAccount { deposit: Cash((old(self).deposit.0 - payable.0) as u128), ..*old(self) }),
            old(self).deposit.0 < payable.0 ==> r == Err::<(), Error>(Error::InsufficientBalance) && *final(self) == *old(self),
    {
        if self.deposit.peek() >= payable.peek() {
            self.deposit.pay_unchecked(payable);
            Ok(())
        } else {
            Err(Error::InsufficientBalance)
        }
    }

    fn unlock_scheduled_amount(&mut self, now_ms: u64, unlocked: Balance)
        requires
            old(self).payable_schedule.defined_at(now_ms as int),
            old(self).consumed_at(now_ms as int) <= u128::MAX,
            old(self).consumed_at(now_ms as int) >= unlocked,
        ensures
            *final(self) == old(self).unlocked_at(now_ms as int, unlocked),
    {
        let taken = self.payable_schedule.take_value_at_time(now_ms);
        self.payable_locked = self.payable_locked + taken - unlocked;
    }
}

} // verus!
