//! The store where to create and access CDN clusters by id.

use vstd::prelude::*;
use crate::{AccountId, Error, Result};
use crate::cdn_node::entity::CdnNodeKey;
use super::entity::{CdnCluster, CdnClusterView, ClusterId, CDN_CLUSTER_USD_PER_GB};
use crate::cash::Cash;

verus! {

pub const MAX_VNODES: u32 = 300;

/// The CDN clusters, each at the position of its id.
pub struct CdnClusterStore(pub Vec<CdnCluster>);

impl CdnClusterStore {
    /// The CDN clusters, in the order of their ids.
    pub open spec fn view(&self) -> Seq<CdnClusterView> {
        self.0@.map_values(|c: CdnCluster| c@)
    }

    pub fn new() -> (s: CdnClusterStore)
        ensures
            s@ == Seq::<CdnClusterView>::empty(),
    {
        let s = CdnClusterStore(Vec::new());
        assert(s@ =~= Seq::<CdnClusterView>::empty());
        s
    }

    /// Creates a CDN cluster; its id is its position.
    pub fn create(&mut self, manager_id: AccountId, cdn_nodes_keys: Vec<CdnNodeKey>) -> (r: Result<ClusterId>)
        requires
            old(self)@.len() <= u32::MAX,
        ensures
            r == Ok::<ClusterId, Error>(old(self)@.len() as ClusterId),
            final(self)@ == old(self)@.push(CdnClusterView {
                manager_id,
                cdn_nodes: cdn_nodes_keys@,
                resources_used: 0,
                revenues: Cash(0),
                usd_per_gb: CDN_CLUSTER_USD_PER_GB,
            }),
    {
        let cluster = CdnCluster::new(manager_id, cdn_nodes_keys);
        let cluster_id = self.0.len() as ClusterId;
        let ghost cv = cluster@;
        self.0.push(cluster);
        assert(self@ =~= old(self)@.push(cv));
        Ok(cluster_id)
    }

    pub fn get(&self, cluster_id: ClusterId) -> (r: Result<CdnCluster>)
        ensures
            cluster_id < self@.len() ==> r is Ok && r->Ok_0@ == self@[cluster_id as int],
            cluster_id >= self@.len() ==> r is Err && r->Err_0 == Error::ClusterDoesNotExist,
    {
        if (cluster_id as usize) < self.0.len() {
            Ok(self.0[cluster_id as usize].clone())
        } else {
            Err(Error::ClusterDoesNotExist)
        }
    }

    /// Stores a CDN cluster at an existing id.
    pub fn set(&mut self, cluster_id: ClusterId, cluster: CdnCluster)
        requires
            cluster_id < old(self)@.len(),
        ensures
            final(self)@ == old(self)@.update(cluster_id as int, cluster@),
    {
        let ghost cv = cluster@;
        self.0.set(cluster_id as usize, cluster);
        assert(self@ =~= old(self)@.update(cluster_id as int, cv));
    }
}

} // verus!
