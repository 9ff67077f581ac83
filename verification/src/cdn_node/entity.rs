//! The data structure of CDN nodes.

use vstd::prelude::*;
use crate::{AccountId, Balance, Error, Result, text_len, params_len};
use crate::cluster::entity::ClusterId;
use crate::node::entity::NodeStatusInCluster;

verus! {

pub type ProviderId = AccountId;

pub type CdnNodeKey = AccountId;

pub type CdnNodeParams = String;

pub const CDN_NODE_PARAMS_MAX_LEN: usize = 100_000;

#[derive(Debug)]
pub struct CdnNode {
    pub provider_id: ProviderId,
    pub undistributed_payment: Balance,
    pub cdn_node_params: CdnNodeParams,
    pub cluster_id: Option<ClusterId>,
    pub status_in_cluster: Option<NodeStatusInCluster>,
}

impl Clone for CdnNode {
    fn clone(&self) -> (r: Self)
        ensures
            r == *self,
    {
        CdnNode {
            provider_id: self.provider_id,
            undistributed_payment: self.undistributed_payment,
            cdn_node_params: self.cdn_node_params.clone(),
            cluster_id: self.cluster_id,
            status_in_cluster: self.status_in_cluster,
        }
    }
}

/// A CDN node together with its key.
#[derive(Debug)]
pub struct CdnNodeInfo {
    pub cdn_node_key: CdnNodeKey,
    pub cdn_node: CdnNode,
}

impl CdnNode {
    pub fn new(provider_id: AccountId, cdn_node_params: CdnNodeParams, undistributed_payment: Balance) -> (r: Result<Self>)
        ensures
            text_len(cdn_node_params) > CDN_NODE_PARAMS_MAX_LEN ==> r == Err::<CdnNode, Error>(Error::ParamsSizeExceedsLimit),
            text_len(cdn_node_params) <= CDN_NODE_PARAMS_MAX_LEN ==> r == Ok::<CdnNode, Error>(CdnNode {
                provider_id,
                undistributed_payment,
                cdn_node_params,
                cluster_id: None,
                status_in_cluster: None,
            }),
    {
        let mut cdn_node = CdnNode {
            provider_id,
            cdn_node_params: String::new(),
            undistributed_payment,
            cluster_id: None,
            status_in_cluster: None,
        };
        match cdn_node.set_params(cdn_node_params) {
            Ok(()) => Ok(cdn_node),
            Err(e) => Err(e),
        }
    }

    pub fn only_provider(&self, caller: AccountId) -> (r: Result<()>)
        ensures
            r == if self.provider_id == caller { Ok::<(), Error>(()) } else { Err(Error::OnlyCdnNodeProvider) },
    {
        if self.provider_id == caller {
            Ok(())
        } else {
            Err(Error::OnlyCdnNodeProvider)
        }
    }

    pub fn only_without_cluster(&self) -> (r: Result<()>)
        ensures
            r == match self.cluster_id {
                None => Ok::<(), Error>(()),
                Some(cluster_id) => Err(Error::CdnNodeIsAddedToCluster(cluster_id)),
            },
    {
        match self.cluster_id {
            None => Ok(()),
            Some(cluster_id) => Err(Error::CdnNodeIsAddedToCluster(cluster_id)),
        }
    }

    /// Succeeds when the CDN node belongs to some cluster; the error names the
    /// cluster that was asked about.
    pub fn only_with_cluster(&self, cluster_id: ClusterId) -> (r: Result<()>)
        ensures
            r == if self.cluster_id.is_some() { Ok::<(), Error>(()) } else { Err(Error::CdnNodeIsNotAddedToCluster(cluster_id)) },
    {
        if self.cluster_id.is_some() {
            Ok(())
        } else {
            Err(Error::CdnNodeIsNotAddedToCluster(cluster_id))
        }
    }

    pub fn set_params(&mut self, cdn_node_params: CdnNodeParams) -> (r: Result<()>)
        ensures
            text_len(cdn_node_params) > CDN_NODE_PARAMS_MAX_LEN ==> r == Err::<(), Error>(Error::ParamsSizeExceedsLimit) && *final(self) == *old(self),
            text_len(cdn_node_params) <= CDN_NODE_PARAMS_MAX_LEN ==> r == Ok::<(), Error>(()) && *final(self) == (CdnNode { cdn_node_params, ..*old(self) }),
    {
        if params_len(&cdn_node_params) > CDN_NODE_PARAMS_MAX_LEN {
            return Err(Error::ParamsSizeExceedsLimit);
        }
        self.cdn_node_params = cdn_node_params;
        Ok(())
    }

    pub fn set_cluster(&mut self, cluster_id: ClusterId, status: NodeStatusInCluster)
        ensures
            *final(self) == (CdnNode { cluster_id: Some(cluster_id), status_in_cluster: Some(status), ..*old(self) }),
    {
        self.cluster_id = Some(cluster_id);
        self.status_in_cluster = Some(status);
    }

    pub fn unset_cluster(&mut self)
        ensures
            *final(self) == (CdnNode { cluster_id: None, status_in_cluster: None, ..*old(self) }),
    {
        self.cluster_id = None;
        self.status_in_cluster = None;
    }

    pub fn change_status_in_cluster(&mut self, status: NodeStatusInCluster)
        ensures
            *final(self) == (CdnNode { status_in_cluster: Some(status), ..*old(self) }),
    {
        self.status_in_cluster = Some(status);
    }

    pub fn put_payment(&mut self, amount: Balance)
        requires
            old(self).undistributed_payment + amount <= u128::MAX,
        ensures
            *final(self) == (CdnNode { undistributed_payment: (old(self).undistributed_payment + amount) as u128, ..*old(self) }),
    {
        self.undistributed_payment = self.undistributed_payment + amount;
    }

    pub fn take_payment(&mut self, amount: Balance) -> (r: Result<()>)
        ensures
            old(self).undistributed_payment >= amount ==> r == Ok::<(), Error>(())
                && *final(self) == (CdnNode { undistributed_payment: (old(self).undistributed_payment - amount) as u128, ..*old(self) }),
            old(self).undistributed_payment < amount ==> r == Err::<(), Error>(Error::InsufficientBalance) && *final(self) == *old(self),
    {
        if self.undistributed_payment >= amount {
            self.undistributed_payment = self.undistributed_payment - amount;
            Ok(())
        } else {
            Err(Error::InsufficientBalance)
        }
    }
}

} // verus!
