//! The privileged interface for admin tasks.

use vstd::prelude::*;
use crate::{AccountId, Balance, DdcBucket, Error, Event, Part, Result, sent};
use crate::cash::{Cash, Payable};
use crate::perm::entity::{Permission, perm_key};
use crate::node::entity::{Node, NodeKey};
use crate::cdn_node::entity::{CdnNode, CdnNodeKey};
use crate::protocol::store::{BasisPoints, NetworkFeeConfig, ProtocolStore};

verus! {

impl DdcBucket {
    /// Whether the caller is a super admin.
    pub open spec fn caller_is_admin(&self) -> bool {
        self.perms.holds(self.caller(), Permission::SuperAdmin)
    }

    pub fn message_admin_grant_permission(&mut self, grantee: AccountId, permission: Permission) -> (r: Result<()>)
        ensures
            !old(self).caller_is_admin() ==> r == Err::<(), Error>(Error::OnlySuperAdmin) && *final(self) == *old(self),
            old(self).caller_is_admin() ==> r == Ok::<(), Error>(())
                && final(self).perms.granted() == old(self).perms.granted().insert(perm_key(grantee, permission))
                && final(self).events@ == old(self).events@.push(Event::PermissionGranted { account_id: grantee, permission }),
            final(self).only_changed(old(self), set![Part::Perms, Part::Events]),
    {
        match self.only_with_permission(Permission::SuperAdmin) {
            Ok(_) => {},
            Err(_) => return Err(Error::OnlySuperAdmin),
        }
        let _ = self.grant_permission(grantee, permission);
        self.events.push(Event::PermissionGranted { account_id: grantee, permission });
        Ok(())
    }

    pub fn message_admin_revoke_permission(&mut self, grantee: AccountId, permission: Permission) -> (r: Result<()>)
        ensures
            !old(self).caller_is_admin() ==> r == Err::<(), Error>(Error::OnlySuperAdmin) && *final(self) == *old(self),
            old(self).caller_is_admin() ==> r == Ok::<(), Error>(())
                && final(self).perms.granted() == old(self).perms.granted().remove(perm_key(grantee, permission))
                && final(self).events@ == old(self).events@.push(Event::PermissionRevoked { account_id: grantee, permission }),
            final(self).only_changed(old(self), set![Part::Perms, Part::Events]),
    {
        match self.only_with_permission(Permission::SuperAdmin) {
            Ok(_) => {},
            Err(_) => return Err(Error::OnlySuperAdmin),
        }
        let _ = self.revoke_permission(grantee, permission);
        self.events.push(Event::PermissionRevoked { account_id: grantee, permission });
        Ok(())
    }

    /// Hands a node owned by the admin over to a new owner.
    pub fn message_admin_transfer_node_ownership(&mut self, node_key: NodeKey, new_owner: AccountId) -> (r: Result<()>)
        ensures
            ({
                let nodes = old(self).nodes.nodes@;
                &&& !old(self).caller_is_admin() ==> r == Err::<(), Error>(Error::OnlySuperAdmin) && *final(self) == *old(self)
                &&& old(self).caller_is_admin() && !nodes.contains_key(node_key)
                    ==> r == Err::<(), Error>(Error::NodeDoesNotExist) && *final(self) == *old(self)
                &&& old(self).caller_is_admin() && nodes.contains_key(node_key) && nodes[node_key].provider_id != old(self).caller()
                    ==> r == Err::<(), Error>(Error::NodeProviderIsNotSuperAdmin) && *final(self) == *old(self)
                &&& old(self).caller_is_admin() && nodes.contains_key(node_key) && nodes[node_key].provider_id == old(self).caller()
                    ==> r == Ok::<(), Error>(())
                    && final(self).nodes.nodes@ == nodes.insert(node_key, Node { provider_id: new_owner, ..nodes[node_key] })
                    && final(self).nodes.keys@ == old(self).nodes.keys@
                    && final(self).events@ == old(self).events@.push(Event::NodeOwnershipTransferred { account_id: new_owner, node_key })
            }),
            final(self).only_changed(old(self), set![Part::Nodes, Part::Events]),
    {
        let admin = match self.only_with_permission(Permission::SuperAdmin) {
            Ok(a) => a,
            Err(_) => return Err(Error::OnlySuperAdmin),
        };
        let mut node = match self.nodes.get(node_key) {
            Ok(n) => n,
            Err(e) => return Err(e),
        };
        match node.only_provider(admin) {
            Ok(()) => {},
            Err(_) => return Err(Error::NodeProviderIsNotSuperAdmin),
        }
        node.provider_id = new_owner;
        match self.nodes.update(node_key, &node) {
            Ok(()) => {},
            Err(e) => return Err(e),
        }
        self.events.push(Event::NodeOwnershipTransferred { account_id: new_owner, node_key });
        Ok(())
    }

    /// Hands a CDN node owned by the admin over to a new owner.
    pub fn message_admin_transfer_cdn_node_ownership(&mut self, cdn_node_key: CdnNodeKey, new_owner: AccountId) -> (r: Result<()>)
        ensures
            ({
                let nodes = old(self).cdn_nodes.cdn_nodes@;
                &&& !old(self).caller_is_admin() ==> r == Err::<(), Error>(Error::OnlySuperAdmin) && *final(self) == *old(self)
                &&& old(self).caller_is_admin() && !nodes.contains_key(cdn_node_key)
                    ==> r == Err::<(), Error>(Error::CdnNodeDoesNotExist) && *final(self) == *old(self)
                &&& old(self).caller_is_admin() && nodes.contains_key(cdn_node_key) && nodes[cdn_node_key].provider_id != old(self).caller()
                    ==> r == Err::<(), Error>(Error::CdnNodeOwnerIsNotSuperAdmin) && *final(self) == *old(self)
                &&& old(self).caller_is_admin() && nodes.contains_key(cdn_node_key) && nodes[cdn_node_key].provider_id == old(self).caller()
                    ==> r == Ok::<(), Error>(())
                    && final(self).cdn_nodes.cdn_nodes@ == nodes.insert(cdn_node_key, CdnNode { provider_id: new_owner, ..nodes[cdn_node_key] })
                    && final(self).cdn_nodes.keys@ == old(self).cdn_nodes.keys@
                    && final(self).events@ == old(self).events@.push(Event::CdnNodeOwnershipTransferred { account_id: new_owner, cdn_node_key })
            }),
            final(self).only_changed(old(self), set![Part::CdnNodes, Part::Events]),
    {
        let admin = match self.only_with_permission(Permission::SuperAdmin) {
            Ok(a) => a,
            Err(_) => return Err(Error::OnlySuperAdmin),
        };
        let mut cdn_node = match self.cdn_nodes.get(cdn_node_key) {
            Ok(n) => n,
            Err(e) => return Err(e),
        };
        match cdn_node.only_provider(admin) {
            Ok(()) => {},
            Err(_) => return Err(Error::CdnNodeOwnerIsNotSuperAdmin),
        }
        cdn_node.provider_id = new_owner;
        match self.cdn_nodes.update(cdn_node_key, &cdn_node) {
            Ok(()) => {},
            Err(e) => return Err(e),
        }
        self.events.push(Event::CdnNodeOwnershipTransferred { account_id: new_owner, cdn_node_key });
        Ok(())
    }

    /// Sends value from the contract to the admin.
    pub fn message_admin_withdraw(&mut self, amount: Balance) -> (r: Result<()>)
        ensures
            !old(self).caller_is_admin() ==> r == Err::<(), Error>(Error::OnlySuperAdmin) && *final(self) == *old(self),
            old(self).caller_is_admin() ==> r == Ok::<(), Error>(())
                && final(self).transfers@ == sent(old(self).transfers@, old(self).caller(), amount),
            final(self).only_changed(old(self), set![Part::Transfers]),
    {
        let admin = match self.only_with_permission(Permission::SuperAdmin) {
            Ok(a) => a,
            Err(_) => return Err(Error::OnlySuperAdmin),
        };
        self.send_cash(admin, Cash(amount))
    }

    pub fn message_admin_set_protocol_fee_bp(&mut self, protocol_fee_bp: BasisPoints) -> (r: Result<()>)
        ensures
            !old(self).caller_is_admin() ==> r == Err::<(), Error>(Error::Unauthorized) && *final(self) == *old(self),
            old(self).caller_is_admin() ==> r == Ok::<(), Error>(())
                && final(self).protocol == (ProtocolStore { protocol_fee_bp, ..old(self).protocol }),
            final(self).only_changed(old(self), set![Part::Protocol]),
    {
        match self.only_with_permission(Permission::SuperAdmin) {
            Ok(_) => {},
            Err(e) => return Err(e),
        }
        self.protocol.set_protocol_fee_bp(protocol_fee_bp);
        Ok(())
    }

    pub fn message_admin_set_network_fee_config(&mut self, config: NetworkFeeConfig) -> (r: Result<()>)
        ensures
            !old(self).caller_is_admin() ==> r == Err::<(), Error>(Error::Unauthorized) && *final(self) == *old(self),
            old(self).caller_is_admin() ==> r == Ok::<(), Error>(())
                && final(self).protocol == (ProtocolStore { network_fee_config: config, ..old(self).protocol }),
            final(self).only_changed(old(self), set![Part::Protocol]),
    {
        match self.only_with_permission(Permission::SuperAdmin) {
            Ok(_) => {},
            Err(e) => return Err(e),
        }
        self.protocol.set_network_fee_config(config);
        Ok(())
    }

    /// Takes protocol revenues out and sends them to the protocol fee destination.
    pub fn message_admin_withdraw_revenues(&mut self, amount: u128) -> (r: Result<()>)
        ensures
            !old(self).caller_is_admin() ==> r == Err::<(), Error>(Error::Unauthorized) && *final(self) == *old(self),
            old(self).caller_is_admin() && amount > old(self).protocol.revenues.0
                ==> r == Err::<(), Error>(Error::InsufficientBalance) && *final(self) == *old(self),
            old(self).caller_is_admin() && amount <= old(self).protocol.revenues.0 ==> r == Ok::<(), Error>(())
                && final(self).protocol == (ProtocolStore {
                    revenues: Cash((old(self).protocol.revenues.0 - amount) as u128),
                    ..old(self).protocol
                })
                && final(self).transfers@ == sent(old(self).transfers@, old(self).protocol.protocol_fee_destination, amount),
            final(self).only_changed(old(self), set![Part::Protocol, Part::Transfers]),
    {
        match self.only_with_permission(Permission::SuperAdmin) {
            Ok(_) => {},
            Err(e) => return Err(e),
        }
        match self.protocol.withdraw_revenues(Payable(amount)) {
            Ok(()) => {},
            Err(e) => return Err(e),
        }
        let dest = self.protocol.get_protocol_fee_dest();
        match self.send_cash(dest, Cash(amount)) {
            Ok(()) => {},
            Err(e) => return Err(e),
        }
        Ok(())
    }
}

} // verus!
