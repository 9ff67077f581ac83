//! The Flow data structure represents an outgoing stream of payments from an account.

use vstd::prelude::*;
use crate::AccountId;
use crate::schedule::Schedule;

verus! {

#[derive(Clone, Copy, PartialEq, Eq, Structural, Debug)]
pub struct Flow {
    pub from: AccountId,
    pub schedule: Schedule,
}

} // verus!
