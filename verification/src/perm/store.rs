//! The store of granted permissions.

use vstd::prelude::*;
use crate::AccountId;
use crate::keymap::KeyMap;
use super::entity::{Permission, PermKey, perm_key};

verus! {

pub type TrustedBy = AccountId;

pub struct PermStore {
    pub perms: KeyMap<PermKey, bool>,
}

impl PermStore {
    /// The permissions granted explicitly.
    pub open spec fn granted(&self) -> Set<PermKey> {
        self.perms@.dom()
    }

    /// Whether an account holds a permission: granted explicitly, or implied
    /// by the super-admin permission.
    pub open spec fn holds(&self, account_id: AccountId, permission: Permission) -> bool {
        self.granted().contains(perm_key(account_id, permission))
            || self.granted().contains(perm_key(account_id, Permission::SuperAdmin))
    }

    pub fn new() -> (s: PermStore)
        ensures
            s.granted() == Set::<PermKey>::empty(),
    {
        let s = PermStore { perms: KeyMap::new() };
        assert(s.granted() =~= Set::<PermKey>::empty());
        s
    }

    pub fn grant_permission(&mut self, account_id: AccountId, permission: Permission)
        ensures
            final(self).granted() == old(self).granted().insert(perm_key(account_id, permission)),
    {
        self.perms.insert(PermKey { account_id, permission }, true);
        assert(self.granted() =~= old(self).granted().insert(perm_key(account_id, permission)));
    }

    pub fn revoke_permission(&mut self, account_id: AccountId, permission: Permission)
        ensures
            final(self).granted() == old(self).granted().remove(perm_key(account_id, permission)),
    {
        self.perms.remove(&PermKey { account_id, permission });
        assert(self.granted() =~= old(self).granted().remove(perm_key(account_id, permission)));
    }

    pub fn has_permission(&self, account_id: AccountId, permission: Permission) -> (b: bool)
        ensures
            b == self.holds(account_id, permission),
    {
        if self.perms.contains(&PermKey { account_id, permission }) {
            return true;
        }
        self.perms.contains(&PermKey { account_id, permission: Permission::SuperAdmin })
    }
}

/// A super admin holds every permission.
pub proof fn lemma_super_admin_holds_all(store: &PermStore, account_id: AccountId, permission: Permission)
    requires
        store.granted().contains(perm_key(account_id, Permission::SuperAdmin)),
    ensures
        store.holds(account_id, permission),
{
}

/// Granting a permission makes the account hold it; revoking it again takes
/// it away unless the account is a super admin.
pub proof fn lemma_grant_then_revoke(before: Set<PermKey>, account_id: AccountId, permission: Permission)
    requires
        permission != Permission::SuperAdmin,
    ensures
        before.insert(perm_key(account_id, permission)).contains(perm_key(account_id, permission)),
        !before.insert(perm_key(account_id, permission)).remove(perm_key(account_id, permission)).contains(
            perm_key(account_id, permission),
        ),
        before.insert(perm_key(account_id, permission)).remove(perm_key(account_id, permission)).contains(
            perm_key(account_id, Permission::SuperAdmin),
        ) == before.contains(perm_key(account_id, Permission::SuperAdmin)),
{
}

} // verus!
