//! The store to create and access Accounts.

use vstd::prelude::*;
use crate::{AccountId, Balance, Error, Result};
use crate::cash::{Cash, Payable};
use crate::currency::{CurrencyConverter, PRECISION, cere_of, usd_of};
use crate::flow::Flow;
use crate::keymap::KeyMap;
use crate::schedule::{Schedule, MS_PER_MONTH, accrued};
use super::entity::Account;

verus! {

pub const MAX_ACCOUNTS_LEN_IN_VEC: usize = 400;

pub struct AccountStore {
    pub accounts: KeyMap<AccountId, Account>,
    pub accounts_keys: Vec<AccountId>,
}

/// `s` with another schedule of this rate, started at this time, added to it.
pub open spec fn with_added(s: Schedule, start_ms: int, rate: int) -> Schedule {
    Schedule { rate: (s.rate + rate) as u128, offset: (s.offset + accrued(rate, start_ms)) as u128 }
}

impl AccountStore {
    pub open spec fn view(&self) -> Map<AccountId, Account> {
        self.accounts@
    }

    /// The list of account ids names each account once, and nothing else.
    pub open spec fn wf(&self) -> bool {
        &&& self.accounts_keys@.no_duplicates()
        &&& forall|k: AccountId| #[trigger] self@.contains_key(k) <==> self.accounts_keys@.contains(k)
    }

    pub fn new() -> (s: AccountStore)
        ensures
            s.wf(),
            s@ == Map::<AccountId, Account>::empty(),
            s.accounts_keys@ == Seq::<AccountId>::empty(),
    {
        AccountStore { accounts: KeyMap::new(), accounts_keys: Vec::new() }
    }

    /// Creates an empty account for the id unless it exists; refused when the
    /// list of accounts is full.
    pub fn create_if_not_exist(&mut self, account_id: AccountId) -> (r: Result<()>)
        ensures
            old(self)@.contains_key(account_id) ==> r == Ok::<(), Error>(()) && *final(self) == *old(self),
            !old(self)@.contains_key(account_id) && old(self).accounts_keys@.len() >= MAX_ACCOUNTS_LEN_IN_VEC
                ==> r == Err::<(), Error>(Error::AccountsSizeExceedsLimit) && *final(self) == *old(self),
            !old(self)@.contains_key(account_id) && old(self).accounts_keys@.len() < MAX_ACCOUNTS_LEN_IN_VEC
                ==> r == Ok::<(), Error>(())
                && final(self)@ == old(self)@.insert(account_id, Account::new_spec())
                && final(self).accounts_keys@ == old(self).accounts_keys@.push(account_id),
            old(self).wf() ==> final(self).wf(),
    {
        if !self.accounts.contains(&account_id) {
            if self.accounts_keys.len() >= MAX_ACCOUNTS_LEN_IN_VEC {
                return Err(Error::AccountsSizeExceedsLimit);
            }
            let acc = Account::new();
            self.accounts.insert(account_id, acc);
            self.accounts_keys.push(account_id);
            proof {
                if old(self).wf() {
                    assert(!old(self).accounts_keys@.contains(account_id));
                    assert forall|i: int, j: int| 0 <= i < j < self.accounts_keys@.len() implies
                        self.accounts_keys@[i] != self.accounts_keys@[j] by {
                        if j == self.accounts_keys@.len() - 1 {
                            assert(old(self).accounts_keys@[i] == self.accounts_keys@[i]);
                        }
                    }
                    assert forall|k: AccountId| #[trigger] self@.contains_key(k) <==> self.accounts_keys@.contains(k) by {
                        if k != account_id && self.accounts_keys@.contains(k) {
                            let i = self.accounts_keys@.index_of(k);
                            assert(old(self).accounts_keys@[i] == k);
                        }
                        if old(self).accounts_keys@.contains(k) {
                            let i = old(self).accounts_keys@.index_of(k);
                            assert(self.accounts_keys@[i] == k);
                        }
                        assert(self.accounts_keys@[old(self).accounts_keys@.len() as int] == account_id);
                    }
                }
            }
        }
        Ok(())
    }

    /// The deposit of an account, or zero for an unknown account.
    pub fn balance(&self, account_id: &AccountId) -> (b: Balance)
        ensures
            b == if self@.contains_key(*account_id) { self@[*account_id].deposit.0 } else { 0 },
    {
        match self.accounts.get(account_id) {
            None => 0,
            Some(account) => account.deposit.peek(),
        }
    }

    pub fn get(&self, account_id: &AccountId) -> (r: Result<Account>)
        ensures
            self@.contains_key(*account_id) ==> r == Ok::<Account, Error>(self@[*account_id]),
            !self@.contains_key(*account_id) ==> r == Err::<Account, Error>(Error::AccountDoesNotExist),
    {
        match self.accounts.get(account_id) {
            Some(a) => Ok(*a),
            None => Err(Error::AccountDoesNotExist),
        }
    }

    pub fn save(&mut self, account_id: &AccountId, account: &Account)
        ensures
            final(self)@ == old(self)@.insert(*account_id, *account),
            final(self).accounts_keys@ == old(self).accounts_keys@,
            old(self).wf() && old(self)@.contains_key(*account_id) ==> final(self).wf(),
    {
        self.accounts.insert(*account_id, *account)
    }

    /// Increases the rate of the flow from `start_ms` on, and locks the same
    /// schedule in the payer's account. The flow grows even when the payer
    /// has no account.
    pub fn increase_flow(&mut self, start_ms: u64, extra_rate: Balance, flow: &mut Flow) -> (r: Result<()>)
        requires
            extra_rate * start_ms <= u128::MAX,
            old(flow).schedule.rate + extra_rate <= u128::MAX,
            old(flow).schedule.offset + accrued(extra_rate as int, start_ms as int) <= u128::MAX,
            old(self)@.contains_key(old(flow).from) ==> old(self)@[old(flow).from].payable_schedule.rate + extra_rate <= u128::MAX,
            old(self)@.contains_key(old(flow).from) ==> old(self)@[old(flow).from].payable_schedule.offset
                + accrued(extra_rate as int, start_ms as int) <= u128::MAX,
        ensures
            *final(flow) == (Flow { from: old(flow).from, schedule: with_added(old(flow).schedule, start_ms as int, extra_rate as int) }),
            old(self)@.contains_key(old(flow).from) ==> r == Ok::<(), Error>(()) && final(self)@ == old(self)@.insert(
                old(flow).from,
                Account {
                    payable_schedule: with_added(old(self)@[old(flow).from].payable_schedule, start_ms as int, extra_rate as int),
                    ..old(self)@[old(flow).from]
                },
            ),
            !old(self)@.contains_key(old(flow).from) ==> r == Err::<(), Error>(Error::AccountDoesNotExist) && *final(self) == *old(self),
            final(self).accounts_keys@ == old(self).accounts_keys@,
    {
        let extra_schedule = Schedule::new(start_ms, extra_rate);
        flow.schedule.add_schedule(extra_schedule);
        let mut from_account = match self.get(&flow.from) {
            Ok(a) => a,
            Err(e) => return Err(e),
        };
        from_account.lock_schedule(extra_schedule);
        self.save(&flow.from, &from_account);
        Ok(())
    }

    /// Takes what the flow accrued until now, converts it to CERE and pays it
    /// from the payer's deposit. The flow is settled even when the payment
    /// fails; a failed payment leaves the account as it was.
    pub fn settle_flow(&mut self, now_ms: u64, flow: &mut Flow, curr_converter: &CurrencyConverter) -> (r: Result<Cash>)
        requires
            old(flow).schedule.defined_at(now_ms as int),
            curr_converter.spec_rate() > 0,
            old(flow).schedule.value_at(now_ms as int) * PRECISION <= u128::MAX,
            old(self)@.contains_key(old(flow).from) ==> old(self)@[old(flow).from].payable_schedule.offset
                + old(flow).schedule.value_at(now_ms as int) <= u128::MAX,
        ensures
            ({
                let usd = old(flow).schedule.value_at(now_ms as int);
                let cere = cere_of(curr_converter.spec_rate(), usd);
                let from = old(flow).from;
                &&& *final(flow) == (Flow { from, schedule: Schedule {
                        rate: old(flow).schedule.rate,
                        offset: accrued(old(flow).schedule.rate as int, now_ms as int) as u128,
                    } })
                &&& !old(self)@.contains_key(from) ==> r == Err::<Cash, Error>(Error::AccountDoesNotExist) && *final(self) == *old(self)
                &&& old(self)@.contains_key(from) && old(self)@[from].deposit.0 < cere
                    ==> r == Err::<Cash, Error>(Error::InsufficientBalance) && *final(self) == *old(self)
                &&& old(self)@.contains_key(from) && old(self)@[from].deposit.0 >= cere
                    ==> r == Ok::<Cash, Error>(Cash(cere as u128)) && final(self)@ == old(self)@.insert(from, Account {
                        deposit: Cash((old(self)@[from].deposit.0 - cere) as u128),
                        payable_schedule: Schedule {
                            offset: (old(self)@[from].payable_schedule.offset + usd) as u128,
                            ..old(self)@[from].payable_schedule
                        },
                        ..old(self)@[from]
                    })
            }),
            final(self).accounts_keys@ == old(self).accounts_keys@,
    {
        let flowed_usd = flow.schedule.take_value_at_time(now_ms);
        let flowed_cere = curr_converter.to_cere(flowed_usd);
        let (payable, cash) = Cash::borrow_payable_cash(flowed_cere);
        let mut account = match self.get(&flow.from) {
            Ok(a) => a,
            Err(e) => return Err(e),
        };
        match account.pay_scheduled(payable, flowed_usd) {
            Ok(()) => {},
            Err(e) => return Err(e),
        }
        self.save(&flow.from, &account);
        Ok(cash)
    }

    /// The time until which the payer's deposit covers its payment schedule.
    pub fn flow_covered_until(&self, flow: &Flow, curr_converter: &CurrencyConverter) -> (r: Result<u64>)
        requires
            self@.contains_key(flow.from) ==> self.covered_until_computable(flow.from, *curr_converter),
        ensures
            !self@.contains_key(flow.from) ==> r == Err::<u64, Error>(Error::AccountDoesNotExist),
            self@.contains_key(flow.from) ==> r == Ok::<u64, Error>(self.covered_until(flow.from, *curr_converter)),
    {
        let account = match self.get(&flow.from) {
            Ok(a) => a,
            Err(e) => return Err(e),
        };
        let deposit_cere = account.deposit.peek();
        let deposit_usd = curr_converter.to_usd(deposit_cere);
        Ok(account.schedule_covered_until(deposit_usd))
    }

    /// Whether the coverage time of an account can be computed without overflow.
    pub open spec fn covered_until_computable(&self, account_id: AccountId, conv: CurrencyConverter) -> bool {
        let a = self@[account_id];
        let usd = usd_of(conv.spec_rate(), a.deposit.0 as int);
        &&& conv.spec_rate() * a.deposit.0 <= u128::MAX
        &&& a.payable_schedule.rate > 0 ==> a.payable_schedule.offset + usd <= u128::MAX
        &&& a.payable_schedule.rate > 0 ==> (a.payable_schedule.offset + usd) * MS_PER_MONTH <= u128::MAX
    }

    /// The time at which the schedule of an account reaches its deposit in USD.
    pub open spec fn covered_until(&self, account_id: AccountId, conv: CurrencyConverter) -> u64 {
        let a = self@[account_id];
        let usd = usd_of(conv.spec_rate(), a.deposit.0 as int);
        if a.payable_schedule.rate == 0 {
            u64::MAX
        } else {
            (((a.payable_schedule.offset + usd) * MS_PER_MONTH) / (a.payable_schedule.rate as int)) as u64
        }
    }
}

} // verus!
