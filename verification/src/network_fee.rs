//! The network fee configuration as the admin sets it.

use vstd::prelude::*;
use crate::{AccountId, DdcBucket, Error, Part, Result};
use crate::perm::entity::Permission;
use crate::protocol::store::BasisPoints;

verus! {

/// The configuration of fees.
#[derive(Clone, Copy, PartialEq, Eq, Structural, Debug, Default)]
pub struct FeeConfig {
    /// The fee rate from cluster revenues to the overall network, in basis points.
    pub network_fee_bp: BasisPoints,
    /// The destination account of network fees. Use the 0 account to burn the fees.
    pub network_fee_destination: AccountId,
    /// The fee rate from cluster revenues to the cluster manager, in basis points.
    pub cluster_management_fee_bp: BasisPoints,
}

/// A fee configuration kept on its own.
#[derive(Clone, Copy, PartialEq, Eq, Structural, Debug, Default)]
pub struct NetworkFeeStore {
    pub fee_config: FeeConfig,
}

impl NetworkFeeStore {
    /// A store whose fees are all zero, sent to the zero account.
    pub fn new() -> (s: NetworkFeeStore)
        ensures
            s.fee_config == (FeeConfig {
                network_fee_bp: 0,
                network_fee_destination: AccountId::zero_spec(),
                cluster_management_fee_bp: 0,
            }),
    {
        NetworkFeeStore {
            fee_config: FeeConfig { network_fee_bp: 0, network_fee_destination: AccountId::zero(), cluster_management_fee_bp: 0 },
        }
    }

    pub fn cluster_management_fee_bp(&self) -> (r: BasisPoints)
        ensures
            r == self.fee_config.cluster_management_fee_bp,
    {
        self.fee_config.cluster_management_fee_bp
    }
}

impl DdcBucket {
    /// Sets the fees that CDN cluster revenues pay; only for super admins.
    pub fn message_admin_set_fee_config(&mut self, config: FeeConfig) -> (r: Result<()>)
        ensures
            !old(self).caller_is_admin() ==> r == Err::<(), Error>(Error::Unauthorized) && *final(self) == *old(self),
            old(self).caller_is_admin() ==> r == Ok::<(), Error>(()) && final(self).network_fee.fee_config == config,
            final(self).only_changed(old(self), set![Part::NetworkFee]),
    {
        match self.only_with_permission(Permission::SuperAdmin) {
            Ok(_) => {},
            Err(e) => return Err(e),
        }
        self.network_fee.fee_config = config;
        Ok(())
    }
}

} // verus!
