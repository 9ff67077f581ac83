//! The data structure of Nodes.

use vstd::prelude::*;
use crate::{AccountId, Balance, Error, Result, text_len, params_len};
use crate::cluster::entity::ClusterId;
use crate::topology::store::VNodeToken;

verus! {

pub type ProviderId = AccountId;

pub type NodeKey = AccountId;

pub type NodeParams = String;

pub type Resource = u32;

pub const NODE_PARAMS_MAX_LEN: usize = 100_000;

#[derive(Clone, Copy, PartialEq, Eq, Structural, Debug)]
pub enum NodeStatusInCluster {
    ADDING,
    ACTIVE,
    DELETING,
    OFFLINE,
}

impl Default for NodeStatusInCluster {
    /// A node joins a cluster in the adding status.
    fn default() -> (s: Self)
        ensures
            s == NodeStatusInCluster::ADDING,
    {
        NodeStatusInCluster::ADDING
    }
}

#[derive(Debug)]
pub struct Node {
    pub provider_id: ProviderId,
    pub rent_v_node_per_month: Balance,
    pub free_resource: Resource,
    pub node_params: NodeParams,
    pub cluster_id: Option<ClusterId>,
    pub status_in_cluster: Option<NodeStatusInCluster>,
}

impl Clone for Node {
    fn clone(&self) -> (r: Self)
        ensures
            r == *self,
    {
        Node {
            provider_id: self.provider_id,
            rent_v_node_per_month: self.rent_v_node_per_month,
            free_resource: self.free_resource,
            node_params: self.node_params.clone(),
            cluster_id: self.cluster_id,
            status_in_cluster: self.status_in_cluster,
        }
    }
}

/// A node together with its key and the virtual nodes it serves.
#[derive(Debug)]
pub struct NodeInfo {
    pub node_key: NodeKey,
    pub node: Node,
    pub v_nodes: Vec<VNodeToken>,
}

impl Node {
    pub fn new(
        provider_id: AccountId,
        node_params: NodeParams,
        capacity: Resource,
        rent_v_node_per_month: Balance,
    ) -> (r: Result<Self>)
        ensures
            text_len(node_params) > NODE_PARAMS_MAX_LEN ==> r == Err::<Node, Error>(Error::ParamsSizeExceedsLimit),
            text_len(node_params) <= NODE_PARAMS_MAX_LEN ==> r == Ok::<Node, Error>(Node {
                provider_id,
                rent_v_node_per_month,
                free_resource: capacity,
                node_params,
                cluster_id: None,
                status_in_cluster: None,
            }),
    {
        let mut node = Node {
            provider_id,
            node_params: String::new(),
            free_resource: capacity,
            rent_v_node_per_month,
            cluster_id: None,
            status_in_cluster: None,
        };
        match node.set_params(node_params) {
            Ok(()) => Ok(node),
            Err(e) => Err(e),
        }
    }

    pub fn only_provider(&self, caller: AccountId) -> (r: Result<()>)
        ensures
            r == if self.provider_id == caller { Ok::<(), Error>(()) } else { Err(Error::OnlyNodeProvider) },
    {
        if self.provider_id == caller {
            Ok(())
        } else {
            Err(Error::OnlyNodeProvider)
        }
    }

    pub fn only_without_cluster(&self) -> (r: Result<()>)
        ensures
            r == match self.cluster_id {
                None => Ok::<(), Error>(()),
                Some(cluster_id) => Err(Error::NodeIsAddedToCluster(cluster_id)),
            },
    {
        match self.cluster_id {
            None => Ok(()),
            Some(cluster_id) => Err(Error::NodeIsAddedToCluster(cluster_id)),
        }
    }

    /// Succeeds when the node belongs to some cluster; the error names the
    /// cluster that was asked about.
    pub fn only_with_cluster(&self, cluster_id: ClusterId) -> (r: Result<()>)
        ensures
            r == if self.cluster_id.is_some() { Ok::<(), Error>(()) } else { Err(Error::NodeIsNotAddedToCluster(cluster_id)) },
    {
        if self.cluster_id.is_some() {
            Ok(())
        } else {
            Err(Error::NodeIsNotAddedToCluster(cluster_id))
        }
    }

    pub fn set_params(&mut self, node_params: NodeParams) -> (r: Result<()>)
        ensures
            text_len(node_params) > NODE_PARAMS_MAX_LEN ==> r == Err::<(), Error>(Error::ParamsSizeExceedsLimit) && *final(self) == *old(self),
            text_len(node_params) <= NODE_PARAMS_MAX_LEN ==> r == Ok::<(), Error>(()) && *final(self) == (Node { node_params, ..*old(self) }),
    {
        if params_len(&node_params) > NODE_PARAMS_MAX_LEN {
            return Err(Error::ParamsSizeExceedsLimit);
        }
        self.node_params = node_params;
        Ok(())
    }

    pub fn set_cluster(&mut self, cluster_id: ClusterId, status: NodeStatusInCluster)
        ensures
            *final(self) == (Node { cluster_id: Some(cluster_id), status_in_cluster: Some(status), ..*old(self) }),
    {
        self.cluster_id = Some(cluster_id);
        self.status_in_cluster = Some(status);
    }

    pub fn unset_cluster(&mut self)
        ensures
            *final(self) == (Node { cluster_id: None, status_in_cluster: None, ..*old(self) }),
    {
        self.cluster_id = None;
        self.status_in_cluster = None;
    }

    pub fn change_status_in_cluster(&mut self, status: NodeStatusInCluster)
        ensures
            *final(self) == (Node { status_in_cluster: Some(status), ..*old(self) }),
    {
        self.status_in_cluster = Some(status);
    }

    pub fn release_resource(&mut self, amount: Resource)
        requires
            old(self).free_resource + amount <= u32::MAX,
        ensures
            *final(self) == (Node { free_resource: (old(self).free_resource + amount) as u32, ..*old(self) }),
    {
        self.free_resource = self.free_resource + amount;
    }

    pub fn reserve_resource(&mut self, amount: Resource) -> (r: Result<()>)
        ensures
            old(self).free_resource >= amount ==> r == Ok::<(), Error>(())
                && *final(self) == (Node { free_resource: (old(self).free_resource - amount) as u32, ..*old(self) }),
            old(self).free_resource < amount ==> r == Err::<(), Error>(Error::InsufficientNodeResources) && *final(self) == *old(self),
    {
        if self.free_resource >= amount {
            self.free_resource = self.free_resource - amount;
            Ok(())
        } else {
            Err(Error::InsufficientNodeResources)
        }
    }
}

} // verus!
