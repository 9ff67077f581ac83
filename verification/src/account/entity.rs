//! The data structure of Accounts.

use vstd::prelude::*;
use crate::{Balance, Error};
use crate::cash::{Cash, Payable};
use crate::currency::{CurrencyConverter, USD, PRECISION, cere_of};
use crate::schedule::Schedule;

verus! {

pub const MS_PER_WEEK: u64 = 7 * 24 * 3600 * 1000;

#[derive(Clone, Copy, PartialEq, Eq, Structural, Debug)]
pub struct Account {
    pub deposit: Cash,
    pub bonded: Cash,
    pub negative: Cash,
    pub unbonded_amount: Cash,
    pub unbonded_timestamp: u64,
    pub payable_schedule: Schedule,
}

impl Account {
    /// Whether the amount locked by the payment schedule can be priced in
    /// CERE at this time.
    pub open spec fn priceable_at(self, time_ms: int, conv: CurrencyConverter) -> bool {
        &&& self.payable_schedule.defined_at(time_ms)
        &&& conv.spec_rate() > 0
        &&& self.payable_schedule.value_at(time_ms) * PRECISION <= u128::MAX
    }

    /// The deposit that is not locked by the payment schedule at this time.
    pub open spec fn withdrawable(self, time_ms: int, conv: CurrencyConverter) -> int {
        let consumed = cere_of(conv.spec_rate(), self.payable_schedule.value_at(time_ms));
        if self.deposit.0 >= consumed {
            self.deposit.0 - consumed
        } else {
            0
        }
    }

    /// The bonded amount that has not been scheduled for unbonding.
    pub open spec fn remaining_bonded(self) -> int {
        self.bonded.0 - self.unbonded_amount.0
    }

    /// Whether the bonded funds can take what bonding `amount` adds to them,
    /// on the inputs where bonding goes ahead.
    pub open spec fn bond_fits(self, time_ms: int, conv: CurrencyConverter, amount: Balance) -> bool {
        self.withdrawable(time_ms, conv) >= amount && (self.negative.0 == 0 || amount >= self.negative.0)
            ==> self.bonded.0 + amount - self.negative.0 <= u128::MAX
    }

    /// The account after bonding `amount`, or the error that refuses it.
    pub open spec fn bonded_by(self, time_ms: int, conv: CurrencyConverter, amount: Balance) -> Result<Account, Error> {
        if self.withdrawable(time_ms, conv) < amount {
            Err(Error::InsufficientBalance)
        } else if self.negative.0 > 0 && amount < self.negative.0 {
            Err(Error::InsufficientBalance)
        } else if self.negative.0 > 0 {
            Ok(Account {
                deposit: Cash((self.deposit.0 - amount) as u128),
                bonded: Cash((self.bonded.0 + amount - self.negative.0) as u128),
                ..self
            })
        } else {
            Ok(Account {
                deposit: Cash((self.deposit.0 - amount) as u128),
                bonded: Cash((self.bonded.0 + amount) as u128),
                ..self
            })
        }
    }

    /// The account after scheduling `amount` for unbonding at `timestamp`,
    /// or the error that refuses it.
    pub open spec fn unbonded_by(self, amount: Balance, timestamp: u64) -> Result<Account, Error> {
        if self.remaining_bonded() >= amount {
            Ok(Account {
                bonded: Cash((self.bonded.0 - amount) as u128),
                unbonded_amount: Cash((self.unbonded_amount.0 + amount) as u128),
                unbonded_timestamp: (timestamp + MS_PER_WEEK) as u64,
                ..self
            })
        } else {
            Err(Error::InsufficientBalance)
        }
    }

    /// The account after withdrawing `amount` from the deposit, or the error
    /// that refuses it.
    pub open spec fn withdrawn_by(self, time_ms: int, conv: CurrencyConverter, amount: Balance) -> Result<Account, Error> {
        if self.withdrawable(time_ms, conv) >= amount {
            Ok(Account { deposit: Cash((self.deposit.0 - amount) as u128), ..self })
        } else {
            Err(Error::InsufficientBalance)
        }
    }

    /// The account after paying `amount` from the bonded funds.
    pub open spec fn bonded_paid(self, amount: Balance) -> Account {
        if self.remaining_bonded() >= amount {
            Account { bonded: Cash((self.bonded.0 - amount) as u128), ..self }
        } else {
            Account {
                bonded: Cash((self.bonded.0 - amount) as u128),
                negative: Cash((self.negative.0 + amount - self.remaining_bonded()) as u128),
                ..self
            }
        }
    }

    /// The account after returning the unbonded funds at `timestamp`, or the
    /// error that refuses it.
    pub open spec fn unbonded_returned(self, timestamp: u64) -> Result<Account, Error> {
        if timestamp >= self.unbonded_timestamp {
            Ok(Account {
                deposit: Cash((self.deposit.0 + self.unbonded_amount.0) as u128),
                unbonded_amount: Cash(0),
                unbonded_timestamp: 0,
                ..self
            })
        } else {
            Err(Error::BondingPeriodNotFinished)
        }
    }

    /// A fresh account: nothing deposited, bonded or scheduled.
    pub open spec fn new_spec() -> Account {
        Account {
            deposit: Cash(0),
            bonded: Cash(0),
            negative: Cash(0),
            unbonded_amount: Cash(0),
            unbonded_timestamp: 0,
            payable_schedule: Schedule { rate: 0, offset: 0 },
        }
    }

    pub fn new() -> (a: Account)
        ensures
            a == Account::new_spec(),
            a.deposit.0 == 0 && a.bonded.0 == 0 && a.negative.0 == 0,
            a.unbonded_amount.0 == 0 && a.unbonded_timestamp == 0,
            a.payable_schedule.rate == 0 && a.payable_schedule.offset == 0,
    {
        Account {
            deposit: Cash(0),
            bonded: Cash(0),
            negative: Cash(0),
            unbonded_amount: Cash(0),
            unbonded_timestamp: 0,
            payable_schedule: Schedule::empty(),
        }
    }

    pub fn deposit(&mut self, cash: Cash)
        requires
            old(self).deposit.0 + cash.0 <= u128::MAX,
        ensures
            *final(self) == (Account { deposit: Cash((old(self).deposit.0 + cash.0) as u128), ..*old(self) }),
    {
        self.deposit.increase(cash);
    }

    /// Moves `bond_amount` of the withdrawable deposit into the bonded funds,
    /// less any negative balance.
    pub fn bond(&mut self, time_ms: u64, conv: &CurrencyConverter, bond_amount: Balance) -> (r: Result<(), Error>)
        requires
            old(self).priceable_at(time_ms as int, *conv),
            old(self).bond_fits(time_ms as int, *conv, bond_amount),
        ensures
            match old(self).bonded_by(time_ms as int, *conv, bond_amount) {
                Ok(a) => r == Ok::<(), Error>(()) && *final(self) == a,
                Err(e) => r == Err::<(), Error>(e) && *final(self) == *old(self),
            },
            r is Ok <==> (old(self).withdrawable(time_ms as int, *conv) >= bond_amount
                && (old(self).negative.0 == 0 || bond_amount >= old(self).negative.0)),
            r is Ok ==> final(self).deposit.0 == old(self).deposit.0 - bond_amount
                && final(self).bonded.0 == old(self).bonded.0 + bond_amount - old(self).negative.0
                && final(self).negative == old(self).negative
                && final(self).unbonded_amount == old(self).unbonded_amount
                && final(self).unbonded_timestamp == old(self).unbonded_timestamp
                && final(self).payable_schedule == old(self).payable_schedule,
            r is Err ==> r == Err::<(), Error>(Error::InsufficientBalance) && *final(self) == *old(self),
    {
        let payable = Payable(bond_amount);
        if self.get_withdrawable(time_ms, conv) >= payable.peek() {
            let parsed_payable: u128;
            if self.negative.peek() > 0 && payable.peek() >= self.negative.peek() {
                parsed_payable = payable.peek() - self.negative.peek();
                self.deposit.pay_unchecked(payable);
                self.bonded.increase(Cash(parsed_payable));
                Ok(())
            } else if self.negative.peek() > 0 && payable.peek() < self.negative.peek() {
                Err(Error::InsufficientBalance)
            } else {
                let bonded_amount = Cash(payable.peek());
                self.deposit.pay_unchecked(payable);
                self.bonded.increase(bonded_amount);
                Ok(())
            }
        } else {
            Err(Error::InsufficientBalance)
        }
    }

    /// Schedules `amount_to_unbond` of the bonded funds to return to the
    /// deposit one week after `timestamp`.
    pub fn unbond(&mut self, amount_to_unbond: Cash, timestamp: u64) -> (r: Result<(), Error>)
        requires
            old(self).bonded.0 >= old(self).unbonded_amount.0,
            old(self).remaining_bonded() >= amount_to_unbond.0 ==> timestamp + MS_PER_WEEK <= u64::MAX,
        ensures
            match old(self).unbonded_by(amount_to_unbond.0, timestamp) {
                Ok(a) => r == Ok::<(), Error>(()) && *final(self) == a,
                Err(e) => r == Err::<(), Error>(e) && *final(self) == *old(self),
            },
    {
        let remaining_bonded = self.bonded.peek() - self.unbonded_amount.peek();
        if remaining_bonded >= amount_to_unbond.peek() {
            self.bonded.pay_unchecked(Payable(amount_to_unbond.peek()));
            self.unbonded_amount.increase(amount_to_unbond);
            self.unbonded_timestamp = timestamp + MS_PER_WEEK;
            Ok(())
        } else {
            Err(Error::InsufficientBalance)
        }
    }

    pub fn withdraw(&mut self, time_ms: u64, conv: &CurrencyConverter, payable: Payable) -> (r: Result<(), Error>)
        requires
            old(self).priceable_at(time_ms as int, *conv),
        ensures
            match old(self).withdrawn_by(time_ms as int, *conv, payable.0) {
                Ok(a) => r == Ok::<(), Error>(()) && *final(self) == a,
                Err(e) => r == Err::<(), Error>(e) && *final(self) == *old(self),
            },
    {
        if self.get_withdrawable(time_ms, conv) >= payable.peek() {
            self.deposit.pay_unchecked(payable);
            Ok(())
        } else {
            Err(Error::InsufficientBalance)
        }
    }

    /// Pays from the bonded funds; what the remaining bonded funds do not
    /// cover is recorded as a negative balance.
    pub fn withdraw_bonded(&mut self, payable: Payable) -> (r: Result<(), Error>)
        requires
            old(self).bonded.0 >= old(self).unbonded_amount.0,
            old(self).bonded.0 >= payable.0,
            old(self).remaining_bonded() < payable.0 ==> old(self).negative.0 + payable.0 - old(self).remaining_bonded() <= u128::MAX,
        ensures
            r == Ok::<(), Error>(()),
            *final(self) == old(self).bonded_paid(payable.0),
            final(self).bonded.0 == old(self).bonded.0 - payable.0,
            final(self).negative.0 == old(self).negative.0 + if payable.0 > old(self).bonded.0 - old(self).unbonded_amount.0 {
                payable.0 - (old(self).bonded.0 - old(self).unbonded_amount.0)
            } else {
                0
            },
            final(self).deposit == old(self).deposit,
            final(self).unbonded_amount == old(self).unbonded_amount,
            final(self).unbonded_timestamp == old(self).unbonded_timestamp,
            final(self).payable_schedule == old(self).payable_schedule,
    {
        let remaining_bonded = self.bonded.peek() - self.unbonded_amount.peek();
        if remaining_bonded >= payable.peek() {
            self.bonded.pay_unchecked(payable);
            Ok(())
        } else {
            let negative_balance = payable.peek() - remaining_bonded;
            self.bonded.pay_unchecked(payable);
            self.negative.increase(Cash(negative_balance));
            Ok(())
        }
    }

    /// Returns the unbonded funds to the deposit once the bonding period ends.
    pub fn withdraw_unbonded(&mut self, timestamp: u64) -> (r: Result<(), Error>)
        requires
            old(self).deposit.0 + old(self).unbonded_amount.0 <= u128::MAX,
        ensures
            match old(self).unbonded_returned(timestamp) {
                Ok(a) => r == Ok::<(), Error>(()) && *final(self) == a,
                Err(e) => r == Err::<(), Error>(e) && *final(self) == *old(self),
            },
    {
        if timestamp >= self.unbonded_timestamp {
            self.deposit.increase(self.unbonded_amount);
            self.unbonded_amount = Cash(0);
            self.unbonded_timestamp = 0;
            Ok(())
        } else {
            Err(Error::BondingPeriodNotFinished)
        }
    }

    pub fn get_withdrawable(&self, time_ms: u64, conv: &CurrencyConverter) -> (b: Balance)
        requires
            self.priceable_at(time_ms as int, *conv),
        ensures
            b == self.withdrawable(time_ms as int, *conv),
    {
        let deposit = self.deposit.peek();
        let consumed_usd = self.payable_schedule.value_at_time(time_ms);
        let consumed = conv.to_cere(consumed_usd);
        if deposit >= consumed {
            deposit - consumed
        } else {
            0
        }
    }

    pub fn lock_schedule(&mut self, payable_schedule: Schedule)
        requires
            old(self).payable_schedule.offset + payable_schedule.offset <= u128::MAX,
            old(self).payable_schedule.rate + payable_schedule.rate <= u128::MAX,
        ensures
            *final(self) == (Account {
                payable_schedule: Schedule {
                    rate: (old(self).payable_schedule.rate + payable_schedule.rate) as u128,
                    offset: (old(self).payable_schedule.offset + payable_schedule.offset) as u128,
                },
                ..*old(self)
            }),
    {
        self.payable_schedule.add_schedule(payable_schedule);
    }

    pub fn schedule_covered_until(&self, deposit_usd: USD) -> (t: u64)
        requires
            self.payable_schedule.rate > 0 ==> self.payable_schedule.offset + deposit_usd <= u128::MAX,
            self.payable_schedule.rate > 0 ==> (self.payable_schedule.offset + deposit_usd) * crate::schedule::MS_PER_MONTH <= u128::MAX,
        ensures
            self.payable_schedule.rate == 0 ==> t == u64::MAX,
            self.payable_schedule.rate > 0 ==> t == (((self.payable_schedule.offset + deposit_usd) * crate::schedule::MS_PER_MONTH) / (self.payable_schedule.rate as int)) as u64,
    {
        self.payable_schedule.time_of_value(deposit_usd)
    }

    /// Releases `payable_usd` from the schedule, then pays `payable` from the
    /// deposit if it covers it. The release happens either way.
    pub fn pay_scheduled(&mut self, payable: Payable, payable_usd: USD) -> (r: Result<(), Error>)
        requires
            old(self).payable_schedule.offset + payable_usd <= u128::MAX,
        ensures
            final(self).payable_schedule == (Schedule {
                offset: (old(self).payable_schedule.offset + payable_usd) as u128,
                ..old(self).payable_schedule
            }),
            old(self).deposit.0 >= payable.0 ==> r == Ok::<(), Error>(()) && final(self).deposit.0 == old(self).deposit.0 - payable.0,
            old(self).deposit.0 < payable.0 ==> r == Err::<(), Error>(Error::InsufficientBalance) && final(self).deposit == old(self).deposit,
            final(self).bonded == old(self).bonded && final(self).negative == old(self).negative,
            final(self).unbonded_amount == old(self).unbonded_amount,
            final(self).unbonded_timestamp == old(self).unbonded_timestamp,
    {
        self.unlock_scheduled_amount(payable_usd);
        self.pay(payable)
    }

    fn pay(&mut self, payable: Payable) -> (r: Result<(), Error>)
        ensures
            old(self).deposit.0 >= payable.0 ==> r == Ok::<(), Error>(()) && *final(self) == (Account {
                deposit: Cash((old(self).deposit.0 - payable.0) as u128),
                ..*old(self)
            }),
            old(self).deposit.0 < payable.0 ==> r == Err::<(), Error>(Error::InsufficientBalance) && *final(self) == *old(self),
    {
        if self.deposit.peek() >= payable.peek() {
            self.deposit.pay_unchecked(payable);
            Ok(())
        } else {
            Err(Error::InsufficientBalance)
        }
    }

    fn unlock_scheduled_amount(&mut self, unlocked: Balance)
        requires
            old(self).payable_schedule.offset + unlocked <= u128::MAX,
        ensures
            *final(self) == (Account {
                payable_schedule: Schedule {
                    offset: (old(self).payable_schedule.offset + unlocked) as u128,
                    ..old(self).payable_schedule
                },
                ..*old(self)
            }),
    {
        self.payable_schedule.take_value(unlocked);
    }
}

/// Bonding moves the amount from the deposit to the bonded funds of an
/// account without a negative balance: their sum does not change.
pub proof fn lemma_bond_conserves(a: Account, time_ms: int, conv: CurrencyConverter, amount: Balance)
    requires
        a.negative.0 == 0,
        a.priceable_at(time_ms, conv),
        a.bonded.0 + amount <= u128::MAX,
        a.bonded_by(time_ms, conv, amount) is Ok,
    ensures
        ({
            let b = a.bonded_by(time_ms, conv, amount)->Ok_0;
            &&& b.deposit.0 + b.bonded.0 == a.deposit.0 + a.bonded.0
            &&& b.deposit.0 == a.deposit.0 - amount
        }),
{
    lemma_consumed_nonnegative(a, time_ms, conv);
}

/// What the payment schedule locks is never negative.
proof fn lemma_consumed_nonnegative(a: Account, time_ms: int, conv: CurrencyConverter)
    requires
        a.priceable_at(time_ms, conv),
    ensures
        cere_of(conv.spec_rate(), a.payable_schedule.value_at(time_ms)) >= 0,
        a.withdrawable(time_ms, conv) <= a.deposit.0,
{
    let v = a.payable_schedule.value_at(time_ms);
    let r = conv.spec_rate();
    assert(v * PRECISION / r >= 0) by (nonlinear_arith)
        requires
            v >= 0,
            r > 0,
    ;
}

/// Unbonding moves the amount from the bonded funds to the funds being
/// unbonded: their sum does not change.
pub proof fn lemma_unbond_conserves(a: Account, amount: Balance, timestamp: u64)
    requires
        a.unbonded_by(amount, timestamp) is Ok,
    ensures
        ({
            let b = a.unbonded_by(amount, timestamp)->Ok_0;
            &&& b.bonded.0 + b.unbonded_amount.0 == a.bonded.0 + a.unbonded_amount.0
            &&& b.deposit == a.deposit
        }),
{
}

/// Bonding an amount, unbonding it, and withdrawing the unbonded funds once
/// the bonding period is over gives the deposit back, together with the
/// funds that were already being unbonded; the bonded funds are as before.
pub proof fn lemma_bond_unbond_withdraw_round_trip(
    a: Account,
    time_ms: int,
    conv: CurrencyConverter,
    amount: Balance,
    unbond_at: u64,
    withdraw_at: u64,
)
    requires
        a.negative.0 == 0,
        a.priceable_at(time_ms, conv),
        a.bonded.0 >= a.unbonded_amount.0,
        a.withdrawable(time_ms, conv) >= amount,
        a.bonded.0 + amount <= u128::MAX,
        a.unbonded_amount.0 + amount <= u128::MAX,
        a.deposit.0 + a.unbonded_amount.0 <= u128::MAX,
        unbond_at + MS_PER_WEEK <= u64::MAX,
        withdraw_at >= unbond_at + MS_PER_WEEK,
    ensures
        a.bonded_by(time_ms, conv, amount) is Ok,
        a.bonded_by(time_ms, conv, amount)->Ok_0.unbonded_by(amount, unbond_at) is Ok,
        a.bonded_by(time_ms, conv, amount)->Ok_0.unbonded_by(amount, unbond_at)->Ok_0.unbonded_returned(withdraw_at) is Ok,
        ({
            let c = a.bonded_by(time_ms, conv, amount)->Ok_0.unbonded_by(amount, unbond_at)->Ok_0.unbonded_returned(
                withdraw_at,
            )->Ok_0;
            &&& c.deposit.0 == a.deposit.0 + a.unbonded_amount.0
            &&& c.bonded == a.bonded
            &&& c.unbonded_amount.0 == 0
            &&& c.negative == a.negative
            &&& c.payable_schedule == a.payable_schedule
        }),
{
    lemma_consumed_nonnegative(a, time_ms, conv);
}

/// An account whose unbonding was last scheduled at `t0` gets its unbonded
/// funds back into its deposit from one week after `t0` on, and is refused
/// before that; the unbonding is scheduled whenever the remaining bonded
/// funds cover the amount.
pub proof fn lemma_unbond_then_withdraw_unbonded(a: Account, amount: Balance, t0: u64, now: u64)
    requires
        a.remaining_bonded() >= amount,
        t0 + MS_PER_WEEK <= u64::MAX,
    ensures
        a.unbonded_by(amount, t0) is Ok,
        ({
            let b = a.unbonded_by(amount, t0)->Ok_0;
            &&& b.unbonded_amount.0 == a.unbonded_amount.0 + amount
            &&& b.unbonded_timestamp == t0 + MS_PER_WEEK
            &&& b.deposit == a.deposit
            &&& now < t0 + MS_PER_WEEK ==> b.unbonded_returned(now) == Err::<Account, Error>(Error::BondingPeriodNotFinished)
            &&& now >= t0 + MS_PER_WEEK ==> b.unbonded_returned(now) is Ok && ({
                let c = b.unbonded_returned(now)->Ok_0;
                &&& a.deposit.0 + a.unbonded_amount.0 + amount <= u128::MAX
                    ==> c.deposit.0 == a.deposit.0 + a.unbonded_amount.0 + amount
                &&& c.unbonded_amount == Cash(0)
                &&& c.unbonded_timestamp == 0
                &&& c.bonded == b.bonded
            })
        }),
{
}

/// Bonding, withdrawing from the deposit and paying from the bonded funds
/// leave the funds being unbonded, and when they are due, as they were.
pub proof fn lemma_unbonding_kept(a: Account, time_ms: int, conv: CurrencyConverter, amount: Balance)
    ensures
        a.bonded_by(time_ms, conv, amount) is Ok ==> a.bonded_by(time_ms, conv, amount)->Ok_0.unbonded_amount
            == a.unbonded_amount && a.bonded_by(time_ms, conv, amount)->Ok_0.unbonded_timestamp == a.unbonded_timestamp,
        a.withdrawn_by(time_ms, conv, amount) is Ok ==> a.withdrawn_by(time_ms, conv, amount)->Ok_0.unbonded_amount
            == a.unbonded_amount && a.withdrawn_by(time_ms, conv, amount)->Ok_0.unbonded_timestamp == a.unbonded_timestamp,
        a.bonded_paid(amount).unbonded_amount == a.unbonded_amount,
        a.bonded_paid(amount).unbonded_timestamp == a.unbonded_timestamp,
{
}

/// Bonding succeeds exactly when the deposit not locked by the payment
/// schedule covers the amount and the amount covers any negative balance.
/// Then the whole amount leaves the deposit; the bonded funds grow by the
/// amount less the negative balance, which the bond pays off, so deposit
/// plus bonded funds drop by exactly the negative balance. Nothing else in
/// the account changes; a refused bond changes nothing.
pub proof fn lemma_bond_moves_amount(a: Account, time_ms: int, conv: CurrencyConverter, amount: Balance)
    requires
        a.priceable_at(time_ms, conv),
        a.bond_fits(time_ms, conv, amount),
    ensures
        a.bonded_by(time_ms, conv, amount) is Ok <==> (a.withdrawable(time_ms, conv) >= amount
            && (a.negative.0 == 0 || amount >= a.negative.0)),
        a.bonded_by(time_ms, conv, amount) is Err ==> a.bonded_by(time_ms, conv, amount) == Err::<Account, Error>(
            Error::InsufficientBalance,
        ),
        a.bonded_by(time_ms, conv, amount) is Ok ==> ({
            let b = a.bonded_by(time_ms, conv, amount)->Ok_0;
            &&& b.deposit.0 == a.deposit.0 - amount
            &&& b.bonded.0 == a.bonded.0 + amount - a.negative.0
            &&& b.deposit.0 + b.bonded.0 == a.deposit.0 + a.bonded.0 - a.negative.0
            &&& b.negative == a.negative
            &&& b.unbonded_amount == a.unbonded_amount
            &&& b.unbonded_timestamp == a.unbonded_timestamp
            &&& b.payable_schedule == a.payable_schedule
        }),
{
    lemma_consumed_nonnegative(a, time_ms, conv);
}

/// Paying `p` from the bonded funds always lowers them by `p`; what the
/// bonded funds not being unbonded do not cover is added to the negative
/// balance as debt. The deposit and the unbonding are untouched.
pub proof fn lemma_bonded_payment_records_debt(a: Account, p: Balance)
    requires
        a.bonded.0 >= a.unbonded_amount.0,
        a.bonded.0 >= p,
        a.remaining_bonded() < p ==> a.negative.0 + p - a.remaining_bonded() <= u128::MAX,
    ensures
        a.bonded_paid(p).bonded.0 == a.bonded.0 - p,
        p <= a.bonded.0 - a.unbonded_amount.0 ==> a.bonded_paid(p).negative == a.negative,
        p > a.bonded.0 - a.unbonded_amount.0 ==> a.bonded_paid(p).negative.0
            == a.negative.0 + (p - (a.bonded.0 - a.unbonded_amount.0)),
        a.bonded_paid(p).deposit == a.deposit,
        a.bonded_paid(p).unbonded_amount == a.unbonded_amount,
        a.bonded_paid(p).unbonded_timestamp == a.unbonded_timestamp,
        a.bonded_paid(p).payable_schedule == a.payable_schedule,
{
}

} // verus!
