//! A payment flow from an account, following a schedule.

use vstd::prelude::*;
use crate::AccountId;
use crate::schedule::Schedule;

verus! {

pub type FlowId = u32;

#[derive(Clone, Copy, PartialEq, Eq, Structural, Debug)]
pub struct BillingFlow {
    pub from: AccountId,
    pub schedule: Schedule,
}

} // verus!
