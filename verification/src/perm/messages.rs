//! The public interface for permission management.

use vstd::prelude::*;
use crate::{AccountId, DdcBucket, Error, Part, Result};
use super::entity::{Permission, perm_key};

verus! {

impl DdcBucket {
    pub fn grant_permission(&mut self, account_id: AccountId, permission: Permission) -> (r: Result<()>)
        ensures
            r == Ok::<(), Error>(()),
            final(self).perms.granted() == old(self).perms.granted().insert(perm_key(account_id, permission)),
            final(self).only_changed(old(self), set![Part::Perms]),
    {
        self.perms.grant_permission(account_id, permission);
        Ok(())
    }

    pub fn revoke_permission(&mut self, account_id: AccountId, permission: Permission) -> (r: Result<()>)
        ensures
            r == Ok::<(), Error>(()),
            final(self).perms.granted() == old(self).perms.granted().remove(perm_key(account_id, permission)),
            final(self).only_changed(old(self), set![Part::Perms]),
    {
        self.perms.revoke_permission(account_id, permission);
        Ok(())
    }

    /// The caller, if it holds the permission.
    pub fn only_with_permission(&self, permission: Permission) -> (r: Result<AccountId>)
        ensures
            r == if self.perms.holds(self.caller(), permission) {
                Ok::<AccountId, Error>(self.caller())
            } else {
                Err(Error::Unauthorized)
            },
    {
        let caller = self.env.caller;
        if self.perms.has_permission(caller, permission) {
            Ok(caller)
        } else {
            Err(Error::Unauthorized)
        }
    }

    /// The caller, if the provider trusts it as a cluster manager.
    pub fn only_trusted_cluster_manager(&self, provider_id: AccountId) -> (r: Result<AccountId>)
        ensures
            r == if self.perms.holds(self.caller(), Permission::ClusterManagerTrustedBy(provider_id)) {
                Ok::<AccountId, Error>(self.caller())
            } else {
                Err(Error::OnlyTrustedClusterManager)
            },
    {
        let caller = self.env.caller;
        let perm = Permission::ClusterManagerTrustedBy(provider_id);
        if self.perms.has_permission(caller, perm) {
            Ok(caller)
        } else {
            Err(Error::OnlyTrustedClusterManager)
        }
    }
}

} // verus!
