//! The store of protocol fees and revenues.

use vstd::prelude::*;
use crate::{AccountId, Balance, Error, Result};
use crate::cash::{Cash, Payable};
use crate::currency::CurrencyConverter;

verus! {

/// Fee rates in basis points (1% of 1%).
pub type BasisPoints = Balance;

/// The configuration of fees.
#[derive(Clone, Copy, PartialEq, Eq, Structural, Debug)]
pub struct NetworkFeeConfig {
    /// The fee rate from cluster revenues to the overall network.
    pub network_fee_bp: BasisPoints,
    /// The destination account of network fees. Use the 0 account to burn the fees.
    pub network_fee_destination: AccountId,
    /// The fee rate from cluster revenues to the cluster manager.
    pub cluster_management_fee_bp: BasisPoints,
}

impl NetworkFeeConfig {
    pub fn new(
        network_fee_bp: BasisPoints,
        network_fee_destination: AccountId,
        cluster_management_fee_bp: BasisPoints,
    ) -> (c: Self)
        ensures
            c == (NetworkFeeConfig { network_fee_bp, network_fee_destination, cluster_management_fee_bp }),
    {
        Self { network_fee_bp, network_fee_destination, cluster_management_fee_bp }
    }
}

#[derive(Clone, Copy, PartialEq, Eq, Structural, Debug)]
pub struct ProtocolStore {
    pub protocol_fee_bp: BasisPoints,
    pub protocol_fee_destination: AccountId,
    pub revenues: Cash,
    pub curr_converter: CurrencyConverter,
    pub network_fee_config: NetworkFeeConfig,
}

impl ProtocolStore {
    /// A store with no fees, no revenues and one USD per CERE.
    pub fn new() -> (s: ProtocolStore)
        ensures
            s.protocol_fee_bp == 0,
            s.protocol_fee_destination == AccountId::zero_spec(),
            s.revenues.0 == 0,
            s.curr_converter == CurrencyConverter::new_spec(),
            s.network_fee_config == (NetworkFeeConfig {
                network_fee_bp: 0,
                network_fee_destination: AccountId::zero_spec(),
                cluster_management_fee_bp: 0,
            }),
    {
        ProtocolStore {
            protocol_fee_bp: 0,
            protocol_fee_destination: AccountId::zero(),
            revenues: Cash(0),
            curr_converter: CurrencyConverter::new(),
            network_fee_config: NetworkFeeConfig::new(0, AccountId::zero(), 0),
        }
    }

    pub fn init(
        &mut self,
        protocol_fee_bp: BasisPoints,
        protocol_fee_dest: AccountId,
        network_fee_bp: BasisPoints,
        network_fee_dest: AccountId,
        cluster_fee_bp: BasisPoints,
    )
        ensures
            *final(self) == (ProtocolStore {
                protocol_fee_bp,
                protocol_fee_destination: protocol_fee_dest,
                revenues: old(self).revenues,
                curr_converter: CurrencyConverter::new_spec(),
                network_fee_config: NetworkFeeConfig {
                    network_fee_bp,
                    network_fee_destination: network_fee_dest,
                    cluster_management_fee_bp: cluster_fee_bp,
                },
            }),
    {
        self.protocol_fee_bp = protocol_fee_bp;
        self.protocol_fee_destination = protocol_fee_dest;
        self.curr_converter = CurrencyConverter::new();
        self.network_fee_config = NetworkFeeConfig::new(network_fee_bp, network_fee_dest, cluster_fee_bp);
    }

    pub fn get_protocol_fee_bp(&self) -> (r: BasisPoints)
        ensures
            r == self.protocol_fee_bp,
    {
        self.protocol_fee_bp
    }

    pub fn set_protocol_fee_bp(&mut self, protocol_fee_bp: BasisPoints)
        ensures
            *final(self) == (ProtocolStore { protocol_fee_bp, ..*old(self) }),
    {
        self.protocol_fee_bp = protocol_fee_bp;
    }

    pub fn get_protocol_fee_dest(&self) -> (r: AccountId)
        ensures
            r == self.protocol_fee_destination,
    {
        self.protocol_fee_destination
    }

    pub fn get_revenues(&self) -> (r: Cash)
        ensures
            r == self.revenues,
    {
        self.revenues
    }

    pub fn put_revenues(&mut self, amount: Cash)
        requires
            old(self).revenues.0 + amount.0 <= u128::MAX,
        ensures
            *final(self) == (ProtocolStore { revenues: Cash((old(self).revenues.0 + amount.0) as u128), ..*old(self) }),
    {
        self.revenues.increase(amount);
    }

    pub fn withdraw_revenues(&mut self, amount: Payable) -> (r: Result<()>)
        ensures
            amount.0 <= old(self).revenues.0 ==> r == Ok::<(), Error>(()) && *final(self) == (ProtocolStore {
                revenues: Cash((old(self).revenues.0 - amount.0) as u128),
                ..*old(self)
            }),
            amount.0 > old(self).revenues.0 ==> r == Err::<(), Error>(Error::InsufficientBalance) && *final(self) == *old(self),
    {
        if amount.peek() > self.revenues.peek() {
            return Err(Error::InsufficientBalance);
        }
        self.revenues.pay_unchecked(amount);
        Ok(())
    }

    pub fn get_network_fee_config(&self) -> (r: NetworkFeeConfig)
        ensures
            r == self.network_fee_config,
    {
        self.network_fee_config
    }

    pub fn set_network_fee_config(&mut self, config: NetworkFeeConfig)
        ensures
            *final(self) == (ProtocolStore { network_fee_config: config, ..*old(self) }),
    {
        self.network_fee_config = config;
    }

    pub fn get_network_fee_bp(&self) -> (r: BasisPoints)
        ensures
            r == self.network_fee_config.network_fee_bp,
    {
        self.network_fee_config.network_fee_bp
    }

    pub fn get_network_fee_dest(&self) -> (r: AccountId)
        ensures
            r == self.network_fee_config.network_fee_destination,
    {
        self.network_fee_config.network_fee_destination
    }

    pub fn get_cluster_management_fee_bp(&self) -> (r: BasisPoints)
        ensures
            r == self.network_fee_config.cluster_management_fee_bp,
    {
        self.network_fee_config.cluster_management_fee_bp
    }
}

} // verus!
