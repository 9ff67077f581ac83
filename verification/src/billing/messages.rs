//! The public interface of the billing layer.

use vstd::prelude::*;
use crate::{AccountId, Balance, DdcBucket, Error, Event, Part, Result};
use crate::cash::{Cash, Payable};
use crate::schedule::{Schedule, MS_PER_MONTH, accrued};
use super::account::BillingAccount;
use super::flow::{BillingFlow, FlowId};
use super::store::deposited;

verus! {

impl DdcBucket {
    /// The billing accounts after `amount` is withdrawn from `from` now, or
    /// the error that refuses it.
    pub open spec fn billing_withdrawn(&self, from: AccountId, amount: Balance) -> Result<Map<AccountId, BillingAccount>> {
        let accs = self.billing_accounts@;
        if !accs.contains_key(from) {
            Err(Error::InsufficientBalance)
        } else if accs[from].withdrawable_at(self.env.block_timestamp as int) < amount {
            Err(Error::InsufficientBalance)
        } else {
            Ok(accs.insert(from, BillingAccount { deposit: Cash((accs[from].deposit.0 - amount) as u128), ..accs[from] }))
        }
    }

    /// Credits the transferred value to the caller's billing deposit.
    pub fn message_deposit(&mut self) -> (r: Result<()>)
        requires
            old(self).billing_accounts@.contains_key(old(self).caller()) ==> old(self).billing_accounts@[old(self).caller()].deposit.0
                + old(self).env.transferred_value <= u128::MAX,
        ensures
            r == Ok::<(), Error>(()),
            final(self).billing_accounts@ == deposited(
                old(self).billing_accounts@,
                old(self).caller(),
                Cash(old(self).env.transferred_value),
            ),
            final(self).flows == old(self).flows,
            final(self).events@ == old(self).events@.push(Event::Deposit {
                account_id: old(self).caller(),
                value: old(self).env.transferred_value,
            }),
            final(self).only_changed(old(self), set![Part::Billing, Part::Events]),
    {
        let cash = self.receive_cash();
        let value = cash.peek();
        let account_id = self.env.caller;
        self.billing_accounts.deposit(account_id, cash);
        self.events.push(Event::Deposit { account_id, value });
        Ok(())
    }

    /// Pays from the billing deposit of `from` what it does not owe now.
    pub fn billing_withdraw(&mut self, from: AccountId, payable: Payable) -> (r: Result<()>)
        requires
            old(self).billing_accounts@.contains_key(from) ==> old(self).billing_accounts@[from].readable_at(
                old(self).env.block_timestamp as int,
            ),
        ensures
            match old(self).billing_withdrawn(from, payable.0) {
                Ok(accs) => r == Ok::<(), Error>(()) && final(self).billing_accounts@ == accs,
                Err(e) => r == Err::<(), Error>(e) && final(self).billing_accounts@ == old(self).billing_accounts@,
            },
            final(self).flows == old(self).flows,
            final(self).only_changed(old(self), set![Part::Billing]),
    {
        let mut account = match self.billing_accounts.get(&from) {
            Ok(a) => a,
            Err(_) => return Err(Error::InsufficientBalance),
        };
        let time_ms = self.env.block_timestamp;
        match account.withdraw(time_ms, payable) {
            Ok(()) => {},
            Err(e) => return Err(e),
        }
        self.billing_accounts.save(&from, &account);
        Ok(())
    }

    /// The billing deposit of `from` that it does not owe now, or zero for
    /// an unknown account.
    pub fn billing_get_net(&self, from: AccountId) -> (b: Balance)
        requires
            self.billing_accounts@.contains_key(from) ==> self.billing_accounts@[from].readable_at(self.env.block_timestamp as int),
        ensures
            b == if self.billing_accounts@.contains_key(from) {
                self.billing_accounts@[from].withdrawable_at(self.env.block_timestamp as int)
            } else {
                0
            },
    {
        match self.billing_accounts.get(&from) {
            Err(_) => 0,
            Ok(account) => {
                let time_ms = self.env.block_timestamp;
                account.get_withdrawable(time_ms)
            },
        }
    }

    /// Moves `amount` from what `from` does not owe to the deposit of `to`.
    pub fn billing_transfer(&mut self, from: AccountId, to: AccountId, amount: Balance) -> (r: Result<()>)
        requires
            old(self).billing_accounts@.contains_key(from) ==> old(self).billing_accounts@[from].readable_at(
                old(self).env.block_timestamp as int,
            ),
            match old(self).billing_withdrawn(from, amount) {
                Ok(accs) => accs.contains_key(to) ==> accs[to].deposit.0 + amount <= u128::MAX,
                Err(_) => true,
            },
        ensures
            match old(self).billing_withdrawn(from, amount) {
                Ok(accs) => r == Ok::<(), Error>(()) && final(self).billing_accounts@ == deposited(accs, to, Cash(amount)),
                Err(e) => r == Err::<(), Error>(e) && final(self).billing_accounts@ == old(self).billing_accounts@,
            },
            final(self).flows == old(self).flows,
            final(self).only_changed(old(self), set![Part::Billing]),
    {
        let (payable, cash) = Cash::borrow_payable_cash(amount);
        match self.billing_withdraw(from, payable) {
            Ok(()) => {},
            Err(e) => return Err(e),
        }
        self.billing_accounts.deposit(to, cash);
        Ok(())
    }

    /// The time until which the deposit of a flow's payer covers its
    /// payment schedule.
    pub fn billing_flow_covered_until(&self, flow_id: FlowId) -> (r: Result<u64>)
        requires
            flow_id < self.flows@.len() && self.billing_accounts@.contains_key(self.flows@[flow_id as int].from) ==> {
                let a = self.billing_accounts@[self.flows@[flow_id as int].from];
                &&& a.payable_schedule.rate > 0 ==> a.payable_schedule.offset + a.deposit.0 <= u128::MAX
                &&& a.payable_schedule.rate > 0 ==> (a.payable_schedule.offset + a.deposit.0) * MS_PER_MONTH <= u128::MAX
            },
        ensures
            flow_id >= self.flows@.len() ==> r == Err::<u64, Error>(Error::FlowDoesNotExist),
            flow_id < self.flows@.len() && !self.billing_accounts@.contains_key(self.flows@[flow_id as int].from)
                ==> r == Err::<u64, Error>(Error::AccountDoesNotExist),
            flow_id < self.flows@.len() && self.billing_accounts@.contains_key(self.flows@[flow_id as int].from) ==> {
                let a = self.billing_accounts@[self.flows@[flow_id as int].from];
                &&& a.payable_schedule.rate == 0 ==> r == Ok::<u64, Error>(u64::MAX)
                &&& a.payable_schedule.rate > 0 ==> r == Ok::<u64, Error>(
                    (((a.payable_schedule.offset + a.deposit.0) * MS_PER_MONTH) / (a.payable_schedule.rate as int)) as u64,
                )
            },
    {
        let flow = match self.flows.get(flow_id) {
            Ok(f) => f,
            Err(e) => return Err(e),
        };
        let account = match self.billing_accounts.get(&flow.from) {
            Ok(a) => a,
            Err(e) => return Err(e),
        };
        Ok(account.schedule_covered_until())
    }

    /// Takes what a flow has accrued by now, and has its payer pay it from
    /// the deposit, releasing it from the locked amount. The flow's taken
    /// value, and the payer's release, stand when a later step fails.
    pub fn billing_settle_flow(&mut self, flow_id: FlowId) -> (r: Result<Cash>)
        requires
            flow_id < old(self).flows@.len() ==> ({
                let now = old(self).env.block_timestamp as int;
                let f = old(self).flows@[flow_id as int];
                let flowed = f.schedule.value_at(now);
                &&& f.schedule.defined_at(now)
                &&& old(self).billing_accounts@.contains_key(f.from) ==> {
                    let a = old(self).billing_accounts@[f.from];
                    &&& a.payable_schedule.defined_at(now)
                    &&& a.consumed_at(now) <= u128::MAX
                    &&& a.consumed_at(now) >= flowed
                }
            }),
        ensures
            ({
                let now = old(self).env.block_timestamp as int;
                let f = old(self).flows@[flow_id as int];
                let flowed = f.schedule.value_at(now);
                let accs = old(self).billing_accounts@;
                let u = accs[f.from].unlocked_at(now, flowed as u128);
                &&& flow_id >= old(self).flows@.len() ==> r == Err::<Cash, Error>(Error::FlowDoesNotExist)
                    && *final(self) == *old(self)
                &&& flow_id < old(self).flows@.len() ==> final(self).flows@ == old(self).flows@.update(
                    flow_id as int,
                    BillingFlow { schedule: Schedule { offset: accrued(f.schedule.rate as int, now) as u128, ..f.schedule }, ..f },
                )
                &&& flow_id < old(self).flows@.len() && !accs.contains_key(f.from)
                    ==> r == Err::<Cash, Error>(Error::AccountDoesNotExist) && final(self).billing_accounts@ == accs
                &&& flow_id < old(self).flows@.len() && accs.contains_key(f.from) && u.deposit.0 >= flowed
                    ==> r == Ok::<Cash, Error>(Cash(flowed as u128))
                    && final(self).billing_accounts@ == accs.insert(
                        f.from,
                        BillingAccount { deposit: Cash((u.deposit.0 - flowed) as u128), ..u },
                    )
                &&& flow_id < old(self).flows@.len() && accs.contains_key(f.from) && u.deposit.0 < flowed
                    ==> r == Err::<Cash, Error>(Error::InsufficientBalance) && final(self).billing_accounts@ == accs.insert(f.from, u)
            }),
            final(self).only_changed(old(self), set![Part::Billing]),
    {
        let now_ms = self.env.block_timestamp;
        let mut flow = match self.flows.get(flow_id) {
            Ok(f) => f,
            Err(e) => return Err(e),
        };
        let flowed_amount = flow.schedule.take_value_at_time(now_ms);
        self.flows.save(flow_id, flow);
        let (payable, cash) = Cash::borrow_payable_cash(flowed_amount);
        let mut account = match self.billing_accounts.get(&flow.from) {
            Ok(a) => a,
            Err(e) => return Err(e),
        };
        let paid = account.pay_scheduled(now_ms, payable);
        self.billing_accounts.save(&flow.from, &account);
        match paid {
            Ok(()) => Ok(cash),
            Err(e) => Err(e),
        }
    }
}

} // verus!
