//! The data structure of CDN clusters.

use vstd::prelude::*;
use crate::{AccountId, Balance, Error, Result};
use crate::cash::{Cash, Payable};
use crate::cdn_node::entity::CdnNodeKey;
use crate::node::entity::Resource;

verus! {

pub type ClusterId = u32;

/// The initial price of CDN traffic, in USD per GB.
pub const CDN_CLUSTER_USD_PER_GB: Balance = 104_857_600;

#[derive(Debug)]
pub struct CdnCluster {
    pub manager_id: AccountId,
    pub cdn_nodes: Vec<CdnNodeKey>,
    pub resources_used: Resource,
    pub revenues: Cash,
    pub usd_per_gb: Balance,
}

/// A CDN cluster as a mathematical value.
pub struct CdnClusterView {
    pub manager_id: AccountId,
    pub cdn_nodes: Seq<CdnNodeKey>,
    pub resources_used: Resource,
    pub revenues: Cash,
    pub usd_per_gb: Balance,
}

impl View for CdnCluster {
    type V = CdnClusterView;

    open spec fn view(&self) -> CdnClusterView {
        CdnClusterView {
            manager_id: self.manager_id,
            cdn_nodes: self.cdn_nodes@,
            resources_used: self.resources_used,
            revenues: self.revenues,
            usd_per_gb: self.usd_per_gb,
        }
    }
}

impl Clone for CdnCluster {
    fn clone(&self) -> (r: Self)
        ensures
            r@ == self@,
    {
        let cdn_nodes = self.cdn_nodes.clone();
        assert(cdn_nodes@ =~= self.cdn_nodes@);
        CdnCluster {
            manager_id: self.manager_id,
            cdn_nodes,
            resources_used: self.resources_used,
            revenues: self.revenues,
            usd_per_gb: self.usd_per_gb,
        }
    }
}

/// A CDN cluster together with its id.
#[derive(Debug)]
pub struct CdnClusterStatus {
    pub cluster_id: ClusterId,
    pub cluster: CdnCluster,
}

impl CdnCluster {
    pub fn new(manager_id: AccountId, cdn_nodes: Vec<CdnNodeKey>) -> (c: Self)
        ensures
            c@ == (CdnClusterView {
                manager_id,
                cdn_nodes: cdn_nodes@,
                resources_used: 0,
                revenues: Cash(0),
                usd_per_gb: CDN_CLUSTER_USD_PER_GB,
            }),
    {
        CdnCluster { manager_id, cdn_nodes, usd_per_gb: CDN_CLUSTER_USD_PER_GB, resources_used: 0, revenues: Cash(0) }
    }

    pub fn get_revenue_cere(&self) -> (r: Cash)
        ensures
            r == self.revenues,
    {
        self.revenues
    }

    pub fn set_rate(&mut self, usd_per_gb: Balance) -> (r: Result<()>)
        ensures
            r == Ok::<(), Error>(()),
            final(self)@ == (CdnClusterView { usd_per_gb, ..old(self)@ }),
    {
        self.usd_per_gb = usd_per_gb;
        Ok(())
    }

    pub fn get_rate(&self) -> (r: Balance)
        ensures
            r == self.usd_per_gb,
    {
        self.usd_per_gb
    }

    pub fn put_revenues(&mut self, amount: Cash)
        requires
            old(self).revenues.0 + amount.0 <= u128::MAX,
        ensures
            final(self)@ == (CdnClusterView { revenues: Cash((old(self).revenues.0 + amount.0) as u128), ..old(self)@ }),
    {
        self.revenues.increase(amount);
    }

    pub fn take_revenues(&mut self, amount: Payable) -> (r: Result<()>)
        ensures
            amount.0 > old(self).revenues.0 ==> r == Err::<(), Error>(Error::InsufficientBalance) && final(self)@ == old(self)@,
            amount.0 <= old(self).revenues.0 ==> r == Ok::<(), Error>(())
                && final(self)@ == (CdnClusterView { revenues: Cash((old(self).revenues.0 - amount.0) as u128), ..old(self)@ }),
    {
        if amount.peek() > self.revenues.peek() {
            return Err(Error::InsufficientBalance);
        }
        self.revenues.pay_unchecked(amount);
        Ok(())
    }

    pub fn only_manager(&self, caller: AccountId) -> (r: Result<()>)
        ensures
            r == if self.manager_id == caller { Ok::<(), Error>(()) } else { Err(Error::UnauthorizedClusterManager) },
    {
        if self.manager_id == caller {
            Ok(())
        } else {
            Err(Error::UnauthorizedClusterManager)
        }
    }
}

} // verus!
