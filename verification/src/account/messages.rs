//! The public interface of Accounts and deposits.

use vstd::prelude::*;
use crate::{AccountId, Balance, DdcBucket, Error, Event, Part, Result, TOKEN};
use crate::cash::{Cash, Payable};
use crate::currency::usd_of;
use crate::perm::entity::Permission;
use super::entity::{Account, MS_PER_WEEK};
use super::store::MAX_ACCOUNTS_LEN_IN_VEC;

verus! {

impl DdcBucket {
    /// The accounts after the caller schedules `amount` of its bonded funds
    /// for unbonding now, or the error that refuses it.
    pub open spec fn unbonding(&self, amount: Balance) -> Result<Map<AccountId, Account>> {
        let id = self.caller();
        let accs = self.accounts@;
        if !accs.contains_key(id) {
            Err(Error::AccountDoesNotExist)
        } else {
            match accs[id].unbonded_by(amount, self.env.block_timestamp) {
                Ok(a) => Ok(accs.insert(id, a)),
                Err(e) => Err(e),
            }
        }
    }

    /// The accounts after the caller's unbonded funds return to its deposit
    /// now, or the error that refuses it.
    pub open spec fn unbonded_withdrawal(&self) -> Result<Map<AccountId, Account>> {
        let id = self.caller();
        let accs = self.accounts@;
        if !accs.contains_key(id) {
            Err(Error::AccountDoesNotExist)
        } else {
            match accs[id].unbonded_returned(self.env.block_timestamp) {
                Ok(a) => Ok(accs.insert(id, a)),
                Err(e) => Err(e),
            }
        }
    }

    /// The accounts in the order in which they were created.
    pub fn message_get_accounts(&self) -> (r: Vec<AccountId>)
        ensures
            r@ == self.accounts.accounts_keys@,
    {
        let r = self.accounts.accounts_keys.clone();
        assert(r@ =~= self.accounts.accounts_keys@);
        r
    }

    /// Credits the transferred value to the caller's deposit, creating the
    /// account if needed. The deposit event is emitted before the account is
    /// looked up, so it is emitted also when the account list is full.
    pub fn message_account_deposit(&mut self) -> (r: Result<()>)
        requires
            old(self).accounts@.contains_key(old(self).caller()) ==> old(self).accounts@[old(self).caller()].deposit.0
                + old(self).env.transferred_value <= u128::MAX,
        ensures
            ({
                let id = old(self).caller();
                let v = old(self).env.transferred_value;
                let accs = old(self).accounts@;
                let keys = old(self).accounts.accounts_keys@;
                &&& final(self).events@ == old(self).events@.push(Event::Deposit { account_id: id, value: v })
                &&& accs.contains_key(id) ==> r == Ok::<(), Error>(())
                    && final(self).accounts@ == accs.insert(id, Account { deposit: Cash((accs[id].deposit.0 + v) as u128), ..accs[id] })
                    && final(self).accounts.accounts_keys@ == keys
                &&& !accs.contains_key(id) && keys.len() < MAX_ACCOUNTS_LEN_IN_VEC ==> r == Ok::<(), Error>(())
                    && final(self).accounts@ == accs.insert(id, Account { deposit: Cash(v), ..Account::new_spec() })
                    && final(self).accounts.accounts_keys@ == keys.push(id)
                &&& !accs.contains_key(id) && keys.len() >= MAX_ACCOUNTS_LEN_IN_VEC
                    ==> r == Err::<(), Error>(Error::AccountDoesNotExist) && final(self).accounts == old(self).accounts
            }),
            final(self).only_changed(old(self), set![Part::Accounts, Part::Events]),
            old(self).accounts.wf() ==> final(self).accounts.wf(),
    {
        let cash = self.receive_cash();
        let account_id = self.env.caller;
        let _ = self.accounts.create_if_not_exist(account_id);
        self.events.push(Event::Deposit { account_id, value: cash.peek() });
        let mut account = match self.accounts.get(&account_id) {
            Ok(a) => a,
            Err(e) => return Err(e),
        };
        account.deposit(cash);
        self.accounts.save(&account_id, &account);
        Ok(())
    }

    /// Bonds part of the caller's withdrawable deposit.
    pub fn message_account_bond(&mut self, bond_amount: Balance) -> (r: Result<()>)
        requires
            old(self).accounts@.contains_key(old(self).caller()) ==> {
                let a = old(self).accounts@[old(self).caller()];
                &&& a.priceable_at(old(self).env.block_timestamp as int, old(self).protocol.curr_converter)
                &&& a.bond_fits(old(self).env.block_timestamp as int, old(self).protocol.curr_converter, bond_amount)
            },
        ensures
            ({
                let id = old(self).caller();
                let accs = old(self).accounts@;
                &&& !accs.contains_key(id) ==> r == Err::<(), Error>(Error::InsufficientBalance) && *final(self) == *old(self)
                &&& accs.contains_key(id) ==> match accs[id].bonded_by(old(self).env.block_timestamp as int, old(self).protocol.curr_converter, bond_amount) {
                    Ok(a) => r == Ok::<(), Error>(()) && final(self).accounts@ == accs.insert(id, a),
                    Err(e) => r == Err::<(), Error>(e) && final(self).accounts@ == accs,
                }
            }),
            final(self).accounts.accounts_keys@ == old(self).accounts.accounts_keys@,
            final(self).only_changed(old(self), set![Part::Accounts]),
            old(self).accounts.wf() ==> final(self).accounts.wf(),
    {
        let time_ms = self.env.block_timestamp;
        let account_id = self.env.caller;
        match self.accounts.get(&account_id) {
            Ok(mut account) => {
                let conv = self.protocol.curr_converter;
                match account.bond(time_ms, &conv, bond_amount) {
                    Ok(()) => {},
                    Err(e) => return Err(e),
                }
                self.accounts.save(&account_id, &account);
                Ok(())
            },
            Err(_) => Err(Error::InsufficientBalance),
        }
    }

    /// Schedules part of the caller's bonded funds to return to the deposit
    /// one week from now.
    pub fn message_account_unbond(&mut self, amount_to_unbond: Cash) -> (r: Result<()>)
        requires
            old(self).accounts@.contains_key(old(self).caller()) ==> {
                let a = old(self).accounts@[old(self).caller()];
                &&& a.bonded.0 >= a.unbonded_amount.0
                &&& a.remaining_bonded() >= amount_to_unbond.0
                    ==> old(self).env.block_timestamp + crate::account::entity::MS_PER_WEEK <= u64::MAX
            },
        ensures
            ({
                let id = old(self).caller();
                let accs = old(self).accounts@;
                &&& !accs.contains_key(id) ==> r == Err::<(), Error>(Error::AccountDoesNotExist) && *final(self) == *old(self)
                &&& match old(self).unbonding(amount_to_unbond.0) {
                    Ok(m) => r == Ok::<(), Error>(()) && final(self).accounts@ == m,
                    Err(e) => r == Err::<(), Error>(e) && final(self).accounts@ == accs,
                }
            }),
            final(self).accounts.accounts_keys@ == old(self).accounts.accounts_keys@,
            final(self).only_changed(old(self), set![Part::Accounts]),
            old(self).accounts.wf() ==> final(self).accounts.wf(),
    {
        let time_ms = self.env.block_timestamp;
        let account_id = self.env.caller;
        let mut account = match self.accounts.get(&account_id) {
            Ok(a) => a,
            Err(e) => return Err(e),
        };
        match account.unbond(amount_to_unbond, time_ms) {
            Ok(()) => {},
            Err(e) => return Err(e),
        }
        self.accounts.save(&account_id, &account);
        Ok(())
    }

    /// Returns the caller's unbonded funds to its deposit once the bonding
    /// period is over.
    pub fn message_account_withdraw_unbonded(&mut self) -> (r: Result<()>)
        requires
            old(self).accounts@.contains_key(old(self).caller()) ==> {
                let a = old(self).accounts@[old(self).caller()];
                a.deposit.0 + a.unbonded_amount.0 <= u128::MAX
            },
        ensures
            ({
                let id = old(self).caller();
                let accs = old(self).accounts@;
                &&& !accs.contains_key(id) ==> r == Err::<(), Error>(Error::AccountDoesNotExist) && *final(self) == *old(self)
                &&& match old(self).unbonded_withdrawal() {
                    Ok(m) => r == Ok::<(), Error>(()) && final(self).accounts@ == m,
                    Err(e) => r == Err::<(), Error>(e) && final(self).accounts@ == accs,
                }
            }),
            final(self).accounts.accounts_keys@ == old(self).accounts.accounts_keys@,
            final(self).only_changed(old(self), set![Part::Accounts]),
            old(self).accounts.wf() ==> final(self).accounts.wf(),
    {
        let time_ms = self.env.block_timestamp;
        let account_id = self.env.caller;
        let mut account = match self.accounts.get(&account_id) {
            Ok(a) => a,
            Err(e) => return Err(e),
        };
        match account.withdraw_unbonded(time_ms) {
            Ok(()) => {},
            Err(e) => return Err(e),
        }
        self.accounts.save(&account_id, &account);
        Ok(())
    }

    /// The USD value of one CERE token at the current exchange rate.
    pub fn message_account_get_usd_per_cere(&self) -> (r: Balance)
        requires
            self.protocol.curr_converter.spec_rate() * TOKEN <= u128::MAX,
        ensures
            r == usd_of(self.protocol.curr_converter.spec_rate(), TOKEN as int),
    {
        self.protocol.curr_converter.to_usd(1 * TOKEN)
    }

    /// Sets the exchange rate; only for holders of the exchange-rate
    /// permission (the call traps for anyone else).
    pub fn message_account_set_usd_per_cere(&mut self, usd_per_cere: Balance)
        requires
            old(self).perms.holds(old(self).caller(), Permission::SetExchangeRate),
            usd_per_cere * crate::currency::PRECISION <= u128::MAX,
        ensures
            final(self).protocol.curr_converter.spec_rate() == usd_per_cere * crate::currency::PRECISION / (TOKEN as int),
            final(self).protocol == (crate::protocol::store::ProtocolStore {
                curr_converter: final(self).protocol.curr_converter,
                ..old(self).protocol
            }),
            final(self).only_changed(old(self), set![Part::Protocol]),
    {
        match self.only_with_permission(Permission::SetExchangeRate) {
            Ok(_) => {},
            Err(_) => {
                assert(false);
                return;
            },
        }
        self.protocol.curr_converter.set_usd_per_cere(usd_per_cere)
    }

    /// Withdraws from the withdrawable deposit of an account.
    fn _account_withdraw(&mut self, from: AccountId, payable: Payable) -> (r: Result<()>)
        requires
            old(self).accounts@.contains_key(from) ==> old(self).accounts@[from].priceable_at(
                old(self).env.block_timestamp as int,
                old(self).protocol.curr_converter,
            ),
        ensures
            !old(self).accounts@.contains_key(from) ==> r == Err::<(), Error>(Error::InsufficientBalance) && *final(self) == *old(self),
            old(self).accounts@.contains_key(from) ==> match old(self).accounts@[from].withdrawn_by(
                old(self).env.block_timestamp as int,
                old(self).protocol.curr_converter,
                payable.0,
            ) {
                Ok(a) => r == Ok::<(), Error>(()) && final(self).accounts@ == old(self).accounts@.insert(from, a),
                Err(e) => r == Err::<(), Error>(e) && final(self).accounts@ == old(self).accounts@,
            },
            final(self).accounts.accounts_keys@ == old(self).accounts.accounts_keys@,
            final(self).only_changed(old(self), set![Part::Accounts]),
            old(self).accounts.wf() ==> final(self).accounts.wf(),
    {
        match self.accounts.get(&from) {
            Ok(mut account) => {
                let time_ms = self.env.block_timestamp;
                let conv = self.protocol.curr_converter;
                match account.withdraw(time_ms, &conv, payable) {
                    Ok(()) => {},
                    Err(e) => return Err(e),
                }
                self.accounts.save(&from, &account);
                Ok(())
            },
            Err(_) => Err(Error::InsufficientBalance),
        }
    }

    /// Pays from the bonded funds of an account.
    fn _account_withdraw_bonded(&mut self, account_id: AccountId, payable: Payable) -> (r: Result<()>)
        requires
            old(self).accounts@.contains_key(account_id) ==> {
                let a = old(self).accounts@[account_id];
                &&& a.bonded.0 >= a.unbonded_amount.0
                &&& a.bonded.0 >= payable.0
                &&& a.remaining_bonded() < payable.0 ==> a.negative.0 + payable.0 - a.remaining_bonded() <= u128::MAX
            },
        ensures
            !old(self).accounts@.contains_key(account_id) ==> r == Err::<(), Error>(Error::InsufficientBalance) && *final(self) == *old(self),
            old(self).accounts@.contains_key(account_id) ==> r == Ok::<(), Error>(())
                && final(self).accounts@ == old(self).accounts@.insert(account_id, old(self).accounts@[account_id].bonded_paid(payable.0)),
            final(self).accounts.accounts_keys@ == old(self).accounts.accounts_keys@,
            final(self).only_changed(old(self), set![Part::Accounts]),
            old(self).accounts.wf() ==> final(self).accounts.wf(),
    {
        match self.accounts.get(&account_id) {
            Ok(mut account) => {
                let _ = account.withdraw_bonded(payable);
                self.accounts.save(&account_id, &account);
                Ok(())
            },
            Err(_) => Err(Error::InsufficientBalance),
        }
    }

    /// The withdrawable deposit of an account now, or zero for an unknown account.
    fn _account_get_net(&self, from: AccountId) -> (b: Balance)
        requires
            self.accounts@.contains_key(from) ==> self.accounts@[from].priceable_at(
                self.env.block_timestamp as int,
                self.protocol.curr_converter,
            ),
        ensures
            b == if self.accounts@.contains_key(from) {
                self.accounts@[from].withdrawable(self.env.block_timestamp as int, self.protocol.curr_converter)
            } else {
                0
            },
    {
        match self.accounts.accounts.get(&from) {
            None => 0,
            Some(account) => {
                let time_ms = self.env.block_timestamp;
                let conv = self.protocol.curr_converter;
                account.get_withdrawable(time_ms, &conv)
            },
        }
    }

    /// Moves `amount` from the withdrawable deposit of `from` to the deposit
    /// of `to`, which gets an account if it has none.
    fn _account_transfer(&mut self, from: AccountId, to: AccountId, amount: Balance) -> (r: Result<()>)
        requires
            old(self).accounts@.contains_key(from) ==> old(self).accounts@[from].priceable_at(
                old(self).env.block_timestamp as int,
                old(self).protocol.curr_converter,
            ),
            old(self).accounts@.contains_key(from) ==> match old(self).accounts@[from].withdrawn_by(
                old(self).env.block_timestamp as int,
                old(self).protocol.curr_converter,
                amount,
            ) {
                Ok(a) => {
                    let accs = old(self).accounts@.insert(from, a);
                    accs.contains_key(to) ==> accs[to].deposit.0 + amount <= u128::MAX
                },
                Err(_) => true,
            },
        ensures
            !old(self).accounts@.contains_key(from) ==> r == Err::<(), Error>(Error::InsufficientBalance) && *final(self) == *old(self),
            old(self).accounts@.contains_key(from) ==> match old(self).accounts@[from].withdrawn_by(
                old(self).env.block_timestamp as int,
                old(self).protocol.curr_converter,
                amount,
            ) {
                Err(e) => r == Err::<(), Error>(e) && final(self).accounts@ == old(self).accounts@
                    && final(self).accounts.accounts_keys@ == old(self).accounts.accounts_keys@,
                Ok(a) => {
                    let accs = old(self).accounts@.insert(from, a);
                    let full = !accs.contains_key(to) && old(self).accounts.accounts_keys@.len() >= MAX_ACCOUNTS_LEN_IN_VEC;
                    let accs2 = if accs.contains_key(to) { accs } else { accs.insert(to, Account::new_spec()) };
                    &&& full ==> r == Err::<(), Error>(Error::AccountDoesNotExist) && final(self).accounts@ == accs
                        && final(self).accounts.accounts_keys@ == old(self).accounts.accounts_keys@
                    &&& !full ==> r == Ok::<(), Error>(())
                        && final(self).accounts@ == accs2.insert(
                            to,
                            Account { deposit: Cash((accs2[to].deposit.0 + amount) as u128), ..accs2[to] },
                        )
                        && final(self).accounts.accounts_keys@ == (if accs.contains_key(to) {
                            old(self).accounts.accounts_keys@
                        } else {
                            old(self).accounts.accounts_keys@.push(to)
                        })
                },
            },
            final(self).only_changed(old(self), set![Part::Accounts]),
            old(self).accounts.wf() ==> final(self).accounts.wf(),
    {
        let (payable, cash) = Cash::borrow_payable_cash(amount);
        match self._account_withdraw(from, payable) {
            Ok(()) => {},
            Err(e) => return Err(e),
        }
        let _ = self.accounts.create_if_not_exist(to);
        let mut account = match self.accounts.get(&to) {
            Ok(a) => a,
            Err(e) => return Err(e),
        };
        account.deposit(cash);
        self.accounts.save(&to, &account);
        Ok(())
    }
}

/// Once the caller has scheduled an unbonding at block time `t0`, and has
/// not withdrawn its unbonded funds since (the other account operations keep
/// them and their due time, see `lemma_unbonding_kept`), withdrawing them is
/// refused until one week after `t0`; from then on the unbonded funds join
/// the caller's deposit and nothing is left being unbonded.
pub proof fn lemma_withdraw_unbonded_a_week_after_unbond(
    unbond_from: DdcBucket,
    unbonded: DdcBucket,
    withdraw_from: DdcBucket,
    amount: Balance,
)
    requires
        unbond_from.env.block_timestamp + MS_PER_WEEK <= u64::MAX,
        unbond_from.unbonding(amount) is Ok,
        unbonded.accounts@ == unbond_from.unbonding(amount)->Ok_0,
        withdraw_from.caller() == unbond_from.caller(),
        withdraw_from.accounts@.contains_key(unbond_from.caller()),
        withdraw_from.accounts@[unbond_from.caller()].unbonded_amount == unbonded.accounts@[unbond_from.caller()].unbonded_amount,
        withdraw_from.accounts@[unbond_from.caller()].unbonded_timestamp
            == unbonded.accounts@[unbond_from.caller()].unbonded_timestamp,
    ensures
        ({
            let c = unbond_from.caller();
            let t0 = unbond_from.env.block_timestamp;
            let now = withdraw_from.env.block_timestamp;
            let u = unbonded.accounts@[c].unbonded_amount;
            let a = withdraw_from.accounts@[c];
            &&& u.0 == unbond_from.accounts@[c].unbonded_amount.0 + amount
            &&& now < t0 + MS_PER_WEEK ==> withdraw_from.unbonded_withdrawal() == Err::<Map<AccountId, Account>, Error>(
                Error::BondingPeriodNotFinished,
            )
            &&& now >= t0 + MS_PER_WEEK ==> withdraw_from.unbonded_withdrawal() is Ok && ({
                let m = withdraw_from.unbonded_withdrawal()->Ok_0;
                &&& m == withdraw_from.accounts@.insert(c, m[c])
                &&& a.deposit.0 + u.0 <= u128::MAX ==> m[c].deposit.0 == a.deposit.0 + u.0
                &&& m[c].unbonded_amount == Cash(0)
                &&& m[c].unbonded_timestamp == 0
                &&& m[c].bonded == a.bonded
            })
        }),
{
    let c = unbond_from.caller();
    assert(unbonded.accounts@[c] == unbond_from.accounts@[c].unbonded_by(amount, unbond_from.env.block_timestamp)->Ok_0);
}

} // verus!
