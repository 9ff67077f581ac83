//! The stores of billing accounts and payment flows.

use vstd::prelude::*;
use crate::{AccountId, Balance, Error, Result};
use crate::cash::Cash;
use crate::keymap::KeyMap;
use crate::schedule::Schedule;
use super::account::BillingAccount;
use super::flow::{BillingFlow, FlowId};

verus! {

/// An account with `cash` deposited, new or not.
pub open spec fn deposited(accounts: Map<AccountId, BillingAccount>, to: AccountId, cash: Cash) -> Map<AccountId, BillingAccount> {
    if accounts.contains_key(to) {
        accounts.insert(to, BillingAccount { deposit: Cash((accounts[to].deposit.0 + cash.0) as u128), ..accounts[to] })
    } else {
        accounts.insert(to, BillingAccount { deposit: cash, payable_locked: 0, payable_schedule: Schedule { rate: 0, offset: 0 } })
    }
}

pub struct AccountStore(pub KeyMap<AccountId, BillingAccount>);

impl AccountStore {
    pub open spec fn view(&self) -> Map<AccountId, BillingAccount> {
        self.0@
    }

    pub fn new() -> (s: AccountStore)
        ensures
            s@ == Map::<AccountId, BillingAccount>::empty(),
    {
        AccountStore(KeyMap::new())
    }

    /// Adds cash to the deposit of an account, creating it if needed.
    pub fn deposit(&mut self, to: AccountId, cash: Cash)
        requires
            old(self)@.contains_key(to) ==> old(self)@[to].deposit.0 + cash.0 <= u128::MAX,
        ensures
            final(self)@ == deposited(old(self)@, to, cash),
    {
        let mut account = match self.0.get(&to) {
            Some(a) => *a,
            None => BillingAccount::new(),
        };
        account.deposit(cash);
        self.0.insert(to, account);
    }

    /// The deposit of an account, or zero for an unknown account.
    pub fn balance(&self, account_id: &AccountId) -> (b: Balance)
        ensures
            b == if self@.contains_key(*account_id) { self@[*account_id].deposit.0 } else { 0 },
    {
        match self.0.get(account_id) {
            None => 0,
            Some(account) => account.deposit.peek(),
        }
    }

    pub fn get(&self, account_id: &AccountId) -> (r: Result<BillingAccount>)
        ensures
            self@.contains_key(*account_id) ==> r == Ok::<BillingAccount, Error>(self@[*account_id]),
            !self@.contains_key(*account_id) ==> r == Err::<BillingAccount, Error>(Error::AccountDoesNotExist),
    {
        match self.0.get(account_id) {
            Some(a) => Ok(*a),
            None => Err(Error::AccountDoesNotExist),
        }
    }

    pub fn save(&mut self, account_id: &AccountId, account: &BillingAccount)
        ensures
            final(self)@ == old(self)@.insert(*account_id, *account),
    {
        self.0.insert(*account_id, *account);
    }
}

/// The payment flows, each at the position of its id.
pub struct FlowStore(pub Vec<BillingFlow>);

impl FlowStore {
    pub open spec fn view(&self) -> Seq<BillingFlow> {
        self.0@
    }

    pub fn new() -> (s: FlowStore)
        ensures
            s@ == Seq::<BillingFlow>::empty(),
    {
        FlowStore(Vec::new())
    }

    pub fn create(&mut self, from: AccountId, schedule: Schedule) -> (flow_id: FlowId)
        requires
            old(self)@.len() < u32::MAX,
        ensures
            flow_id == old(self)@.len(),
            final(self)@ == old(self)@.push(BillingFlow { from, schedule }),
    {
        let flow_id = self.0.len() as FlowId;
        self.0.push(BillingFlow { from, schedule });
        flow_id
    }

    pub fn get(&self, flow_id: FlowId) -> (r: Result<BillingFlow>)
        ensures
            flow_id < self@.len() ==> r == Ok::<BillingFlow, Error>(self@[flow_id as int]),
            flow_id >= self@.len() ==> r == Err::<BillingFlow, Error>(Error::FlowDoesNotExist),
    {
        if (flow_id as usize) < self.0.len() {
            Ok(self.0[flow_id as usize])
        } else {
            Err(Error::FlowDoesNotExist)
        }
    }

    /// Stores a flow at an existing id.
    pub fn save(&mut self, flow_id: FlowId, flow: BillingFlow)
        requires
            flow_id < old(self)@.len(),
        ensures
            final(self)@ == old(self)@.update(flow_id as int, flow),
    {
        self.0.set(flow_id as usize, flow);
    }
}

} // verus!
