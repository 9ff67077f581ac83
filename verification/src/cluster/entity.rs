//! The data structure of Clusters.

use vstd::prelude::*;
use crate::{AccountId, Balance, Error, Result, text_len, params_len};
use crate::cash::{Cash, Payable};
use crate::node::entity::{NodeKey, Resource};
use crate::cdn_node::entity::CdnNodeKey;
use crate::keymap::{lemma_push_then_remove, remove_first, seq_remove_first};
use crate::topology::store::VNodeToken;

verus! {

pub type ClusterId = u32;

pub type ClusterParams = String;

pub const MAX_CLUSTER_NODES_LEN_IN_VEC: usize = 200;

pub const MAX_CLUSTER_CDN_NODES_LEN_IN_VEC: usize = 200;

pub const CLUSTER_PARAMS_MAX_LEN: usize = 100_000;

pub const CDN_USD_PER_GB: Balance = 104_857_600;

pub const KB_PER_GB: Balance = 1_000_000;

#[derive(Debug)]
pub struct Cluster {
    pub manager_id: AccountId,
    pub cluster_params: ClusterParams,
    // storage nodes
    pub nodes_keys: Vec<NodeKey>,
    pub resource_per_v_node: Resource,
    pub resource_used: Resource,
    pub revenues: Cash,
    pub total_rent: Balance,
    // cdn nodes
    pub cdn_nodes_keys: Vec<CdnNodeKey>,
    pub cdn_revenues: Cash,
    pub cdn_usd_per_gb: Balance,
}

/// A cluster as a mathematical value.
pub struct ClusterView {
    pub manager_id: AccountId,
    pub cluster_params: ClusterParams,
    pub nodes_keys: Seq<NodeKey>,
    pub resource_per_v_node: Resource,
    pub resource_used: Resource,
    pub revenues: Cash,
    pub total_rent: Balance,
    pub cdn_nodes_keys: Seq<CdnNodeKey>,
    pub cdn_revenues: Cash,
    pub cdn_usd_per_gb: Balance,
}

impl View for Cluster {
    type V = ClusterView;

    open spec fn view(&self) -> ClusterView {
        ClusterView {
            manager_id: self.manager_id,
            cluster_params: self.cluster_params,
            nodes_keys: self.nodes_keys@,
            resource_per_v_node: self.resource_per_v_node,
            resource_used: self.resource_used,
            revenues: self.revenues,
            total_rent: self.total_rent,
            cdn_nodes_keys: self.cdn_nodes_keys@,
            cdn_revenues: self.cdn_revenues,
            cdn_usd_per_gb: self.cdn_usd_per_gb,
        }
    }
}

impl Clone for Cluster {
    fn clone(&self) -> (r: Self)
        ensures
            r@ == self@,
    {
        let nodes_keys = self.nodes_keys.clone();
        assert(nodes_keys@ =~= self.nodes_keys@);
        let cdn_nodes_keys = self.cdn_nodes_keys.clone();
        assert(cdn_nodes_keys@ =~= self.cdn_nodes_keys@);
        Cluster {
            manager_id: self.manager_id,
            cluster_params: self.cluster_params.clone(),
            nodes_keys,
            resource_per_v_node: self.resource_per_v_node,
            resource_used: self.resource_used,
            revenues: self.revenues,
            total_rent: self.total_rent,
            cdn_nodes_keys,
            cdn_revenues: self.cdn_revenues,
            cdn_usd_per_gb: self.cdn_usd_per_gb,
        }
    }
}

/// A cluster together with its id and its virtual nodes.
#[derive(Debug)]
pub struct ClusterInfo {
    pub cluster_id: ClusterId,
    pub cluster: Cluster,
    pub cluster_v_nodes: Vec<VNodeToken>,
}

impl Cluster {
    pub fn new(manager_id: AccountId, cluster_params: ClusterParams, resource_per_v_node: Resource) -> (r: Result<Self>)
        ensures
            text_len(cluster_params) > CLUSTER_PARAMS_MAX_LEN ==> r == Err::<Cluster, Error>(Error::ParamsSizeExceedsLimit),
            text_len(cluster_params) <= CLUSTER_PARAMS_MAX_LEN ==> r is Ok && r->Ok_0@ == (ClusterView {
                manager_id,
                cluster_params,
                nodes_keys: Seq::empty(),
                resource_per_v_node,
                resource_used: 0,
                revenues: Cash(0),
                total_rent: 0,
                cdn_nodes_keys: Seq::empty(),
                cdn_revenues: Cash(0),
                cdn_usd_per_gb: CDN_USD_PER_GB,
            }),
    {
        let mut cluster = Cluster {
            manager_id,
            cluster_params: String::new(),
            nodes_keys: Vec::new(),
            resource_per_v_node,
            resource_used: 0,
            revenues: Cash(0),
            total_rent: 0,
            cdn_nodes_keys: Vec::new(),
            cdn_usd_per_gb: CDN_USD_PER_GB,
            cdn_revenues: Cash(0),
        };
        match cluster.set_params(cluster_params) {
            Ok(()) => {
                assert(cluster@.nodes_keys =~= Seq::<NodeKey>::empty());
                assert(cluster@.cdn_nodes_keys =~= Seq::<CdnNodeKey>::empty());
                Ok(cluster)
            },
            Err(e) => Err(e),
        }
    }

    pub fn only_manager(&self, caller: AccountId) -> (r: Result<()>)
        ensures
            r == if self.manager_id == caller { Ok::<(), Error>(()) } else { Err(Error::OnlyClusterManager) },
    {
        if self.manager_id == caller {
            Ok(())
        } else {
            Err(Error::OnlyClusterManager)
        }
    }

    pub fn only_without_nodes(&self) -> (r: Result<()>)
        ensures
            r == if self.nodes_keys@.len() == 0 && self.cdn_nodes_keys@.len() == 0 {
                Ok::<(), Error>(())
            } else {
                Err(Error::ClusterIsNotEmpty)
            },
    {
        if self.nodes_keys.len() == 0 && self.cdn_nodes_keys.len() == 0 {
            Ok(())
        } else {
            Err(Error::ClusterIsNotEmpty)
        }
    }

    pub fn add_node(&mut self, node_key: NodeKey) -> (r: Result<()>)
        ensures
            old(self).nodes_keys@.len() >= MAX_CLUSTER_NODES_LEN_IN_VEC ==> r == Err::<(), Error>(Error::NodesSizeExceedsLimit)
                && final(self)@ == old(self)@,
            old(self).nodes_keys@.len() < MAX_CLUSTER_NODES_LEN_IN_VEC ==> r == Ok::<(), Error>(())
                && final(self)@ == (ClusterView { nodes_keys: old(self).nodes_keys@.push(node_key), ..old(self)@ }),
    {
        if self.nodes_keys.len() >= MAX_CLUSTER_NODES_LEN_IN_VEC {
            return Err(Error::NodesSizeExceedsLimit);
        }
        self.nodes_keys.push(node_key);
        Ok(())
    }

    pub fn remove_node(&mut self, node_key: NodeKey)
        ensures
            final(self)@ == (ClusterView { nodes_keys: seq_remove_first(old(self).nodes_keys@, node_key), ..old(self)@ }),
    {
        remove_first(&mut self.nodes_keys, &node_key);
    }

    pub fn add_cdn_node(&mut self, cdn_node_key: CdnNodeKey) -> (r: Result<()>)
        ensures
            old(self).cdn_nodes_keys@.len() >= MAX_CLUSTER_CDN_NODES_LEN_IN_VEC ==> r == Err::<(), Error>(
                Error::CdnNodesSizeExceedsLimit,
            ) && final(self)@ == old(self)@,
            old(self).cdn_nodes_keys@.len() < MAX_CLUSTER_CDN_NODES_LEN_IN_VEC ==> r == Ok::<(), Error>(())
                && final(self)@ == (ClusterView { cdn_nodes_keys: old(self).cdn_nodes_keys@.push(cdn_node_key), ..old(self)@ }),
    {
        if self.cdn_nodes_keys.len() >= MAX_CLUSTER_CDN_NODES_LEN_IN_VEC {
            return Err(Error::CdnNodesSizeExceedsLimit);
        }
        self.cdn_nodes_keys.push(cdn_node_key);
        Ok(())
    }

    pub fn remove_cdn_node(&mut self, cdn_node_key: CdnNodeKey)
        ensures
            final(self)@ == (ClusterView { cdn_nodes_keys: seq_remove_first(old(self).cdn_nodes_keys@, cdn_node_key), ..old(self)@ }),
    {
        remove_first(&mut self.cdn_nodes_keys, &cdn_node_key);
    }

    pub fn set_params(&mut self, cluster_params: ClusterParams) -> (r: Result<()>)
        ensures
            text_len(cluster_params) > CLUSTER_PARAMS_MAX_LEN ==> r == Err::<(), Error>(Error::ParamsSizeExceedsLimit)
                && final(self)@ == old(self)@,
            text_len(cluster_params) <= CLUSTER_PARAMS_MAX_LEN ==> r == Ok::<(), Error>(())
                && final(self)@ == (ClusterView { cluster_params, ..old(self)@ }),
    {
        if params_len(&cluster_params) > CLUSTER_PARAMS_MAX_LEN {
            return Err(Error::ParamsSizeExceedsLimit);
        }
        self.cluster_params = cluster_params;
        Ok(())
    }

    pub fn get_rent(&self, resource: Resource) -> (rent: Balance)
        requires
            self.total_rent * resource <= u128::MAX,
        ensures
            rent == self.total_rent * resource,
    {
        self.total_rent * resource as Balance
    }

    pub fn set_resource_per_v_node(&mut self, resource_per_v_node: Resource)
        ensures
            final(self)@ == (ClusterView { resource_per_v_node, ..old(self)@ }),
    {
        self.resource_per_v_node = resource_per_v_node;
    }

    /// Raises the resource that each virtual node of the cluster offers.
    pub fn put_resource(&mut self, amount: Resource)
        requires
            old(self).resource_per_v_node + amount <= u32::MAX,
        ensures
            final(self)@ == (ClusterView { resource_per_v_node: (old(self).resource_per_v_node + amount) as u32, ..old(self)@ }),
    {
        self.resource_per_v_node = self.resource_per_v_node + amount;
    }

    pub fn take_resource(&mut self, amount: Resource) -> (r: Result<()>)
        requires
            old(self).resource_used + amount <= u32::MAX,
        ensures
            old(self).resource_used + amount > old(self).resource_per_v_node ==> r == Err::<(), Error>(Error::InsufficientResources)
                && final(self)@ == old(self)@,
            old(self).resource_used + amount <= old(self).resource_per_v_node ==> r == Ok::<(), Error>(())
                && final(self)@ == (ClusterView { resource_used: (old(self).resource_used + amount) as u32, ..old(self)@ }),
    {
        let used = self.resource_used + amount;
        if used > self.resource_per_v_node {
            return Err(Error::InsufficientResources);
        }
        self.resource_used = used;
        Ok(())
    }

    pub fn cdn_get_revenue_cere(&self) -> (r: Cash)
        ensures
            r == self.cdn_revenues,
    {
        self.cdn_revenues
    }

    pub fn cdn_set_rate(&mut self, cdn_usd_per_gb: Balance)
        ensures
            final(self)@ == (ClusterView { cdn_usd_per_gb, ..old(self)@ }),
    {
        self.cdn_usd_per_gb = cdn_usd_per_gb;
    }

    pub fn cdn_get_rate(&self) -> (r: Balance)
        ensures
            r == self.cdn_usd_per_gb,
    {
        self.cdn_usd_per_gb
    }

    pub fn cdn_put_revenues(&mut self, amount: Cash)
        requires
            old(self).cdn_revenues.0 + amount.0 <= u128::MAX,
        ensures
            final(self)@ == (ClusterView { cdn_revenues: Cash((old(self).cdn_revenues.0 + amount.0) as u128), ..old(self)@ }),
    {
        self.cdn_revenues.increase(amount);
    }

    pub fn cdn_take_revenues(&mut self, amount: Payable) -> (r: Result<()>)
        ensures
            amount.0 > old(self).cdn_revenues.0 ==> r == Err::<(), Error>(Error::InsufficientBalance) && final(self)@ == old(self)@,
            amount.0 <= old(self).cdn_revenues.0 ==> r == Ok::<(), Error>(())
                && final(self)@ == (ClusterView { cdn_revenues: Cash((old(self).cdn_revenues.0 - amount.0) as u128), ..old(self)@ }),
    {
        if amount.peek() > self.cdn_revenues.peek() {
            return Err(Error::InsufficientBalance);
        }
        self.cdn_revenues.pay_unchecked(amount);
        Ok(())
    }
}

/// A storage node with `m` virtual nodes at `rent` each, added to a cluster
/// that does not list it and then removed, leaves the cluster as it was.
pub proof fn lemma_add_then_remove_node_restores_cluster(c: ClusterView, node_key: NodeKey, m: nat, rent: Balance)
    requires
        !c.nodes_keys.contains(node_key),
        c.total_rent + m * rent <= u128::MAX,
    ensures
        ({
            let added = ClusterView {
                nodes_keys: c.nodes_keys.push(node_key),
                total_rent: (c.total_rent + m * rent) as u128,
                ..c
            };
            ClusterView {
                nodes_keys: seq_remove_first(added.nodes_keys, node_key),
                total_rent: (added.total_rent - m * rent) as u128,
                ..added
            } == c
        }),
{
    lemma_push_then_remove(c.nodes_keys, node_key);
}

/// A CDN node added to a cluster that does not list it and then removed
/// leaves the cluster as it was.
pub proof fn lemma_add_then_remove_cdn_node_restores_cluster(c: ClusterView, cdn_node_key: CdnNodeKey)
    requires
        !c.cdn_nodes_keys.contains(cdn_node_key),
    ensures
        ({
            let added = ClusterView { cdn_nodes_keys: c.cdn_nodes_keys.push(cdn_node_key), ..c };
            ClusterView { cdn_nodes_keys: seq_remove_first(added.cdn_nodes_keys, cdn_node_key), ..added } == c
        }),
{
    lemma_push_then_remove(c.cdn_nodes_keys, cdn_node_key);
}

} // verus!
