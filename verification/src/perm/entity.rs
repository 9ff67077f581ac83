//! The data structure that represents the possible permissions an account may have.

use vstd::prelude::*;
use crate::AccountId;
use crate::keymap::Key;

verus! {

#[derive(Clone, Copy, PartialEq, Eq, Structural, Debug)]
pub enum Permission {
    ClusterManagerTrustedBy(AccountId),
    SetExchangeRate,
    SuperAdmin,
}

/// An account together with one of its permissions.
#[derive(Clone, Copy, PartialEq, Eq, Structural, Debug)]
pub struct PermKey {
    pub account_id: AccountId,
    pub permission: Permission,
}

impl Key for PermKey {
    fn key_eq(&self, other: &Self) -> (r: bool) {
        *self == *other
    }
}

pub open spec fn perm_key(account_id: AccountId, permission: Permission) -> PermKey {
    PermKey { account_id, permission }
}

} // verus!
