//! The public interface to manage CDN nodes.

use vstd::prelude::*;
use crate::{AccountId, Balance, DdcBucket, Error, Event, Part, Result, text_len};
use crate::keymap::seq_remove_first;
use super::entity::{CdnNode, CdnNodeInfo, CdnNodeKey, CdnNodeParams, CDN_NODE_PARAMS_MAX_LEN};
use super::store::MAX_CDN_NODES_LEN_IN_VEC;
use crate::node::messages::passes;

verus! {

impl DdcBucket {
    /// The keys of the nodes at positions `from..to` of the node list whose
    /// provider passes the filter.
    pub open spec fn listed_cdn_nodes(&self, from: int, to: int, filter: Option<AccountId>) -> Seq<CdnNodeKey>
        decreases to - from,
    {
        if to <= from {
            Seq::empty()
        } else {
            let k = self.cdn_nodes.keys@[to - 1];
            let before = self.listed_cdn_nodes(from, to - 1, filter);
            if passes(filter, self.cdn_nodes.cdn_nodes@[k].provider_id) {
                before.push(k)
            } else {
                before
            }
        }
    }

    /// Creates a CDN node owned by the caller, with nothing to distribute yet.
    pub fn message_cdn_node_create(&mut self, cdn_node_key: CdnNodeKey, cdn_node_params: CdnNodeParams) -> (r: Result<CdnNodeKey>)
        ensures
            ({
                let nodes = old(self).cdn_nodes.cdn_nodes@;
                let keys = old(self).cdn_nodes.keys@;
                let caller = old(self).caller();
                &&& nodes.contains_key(cdn_node_key) ==> r == Err::<CdnNodeKey, Error>(Error::CdnNodeAlreadyExists)
                &&& !nodes.contains_key(cdn_node_key) && keys.len() >= MAX_CDN_NODES_LEN_IN_VEC
                    ==> r == Err::<CdnNodeKey, Error>(Error::CdnNodesSizeExceedsLimit)
                &&& !nodes.contains_key(cdn_node_key) && keys.len() < MAX_CDN_NODES_LEN_IN_VEC && text_len(cdn_node_params) > CDN_NODE_PARAMS_MAX_LEN
                    ==> r == Err::<CdnNodeKey, Error>(Error::ParamsSizeExceedsLimit)
                &&& r is Err ==> *final(self) == *old(self)
                &&& r is Ok ==> r == Ok::<CdnNodeKey, Error>(cdn_node_key)
                    && final(self).cdn_nodes.cdn_nodes@ == nodes.insert(cdn_node_key, CdnNode {
                        provider_id: caller,
                        undistributed_payment: 0,
                        cdn_node_params,
                        cluster_id: None,
                        status_in_cluster: None,
                    })
                    && final(self).cdn_nodes.keys@ == keys.push(cdn_node_key)
                    && final(self).events@ == old(self).events@.push(Event::CdnNodeCreated {
                        cdn_node_key,
                        provider_id: caller,
                        cdn_node_params,
                        undistributed_payment: 0,
                    })
            }),
            old(self).cdn_nodes.wf() ==> final(self).cdn_nodes.wf(),
            final(self).only_changed(old(self), set![Part::CdnNodes, Part::Events]),
    {
        let caller = self.env.caller;
        let undistributed_payment: Balance = 0;
        match self.cdn_nodes.create(cdn_node_key, caller, cdn_node_params.clone(), undistributed_payment) {
            Ok(_) => {},
            Err(e) => return Err(e),
        }
        self.events.push(Event::CdnNodeCreated { cdn_node_key, provider_id: caller, cdn_node_params, undistributed_payment });
        Ok(cdn_node_key)
    }

    /// Removes a CDN node that its provider owns and that is in no cluster.
    pub fn message_remove_cdn_node(&mut self, cdn_node_key: CdnNodeKey) -> (r: Result<()>)
        ensures
            ({
                let nodes = old(self).cdn_nodes.cdn_nodes@;
                &&& !nodes.contains_key(cdn_node_key) ==> r == Err::<(), Error>(Error::CdnNodeDoesNotExist) && *final(self) == *old(self)
                &&& nodes.contains_key(cdn_node_key) && nodes[cdn_node_key].provider_id != old(self).caller()
                    ==> r == Err::<(), Error>(Error::OnlyCdnNodeProvider) && *final(self) == *old(self)
                &&& nodes.contains_key(cdn_node_key) && nodes[cdn_node_key].provider_id == old(self).caller() && nodes[cdn_node_key].cluster_id is Some
                    ==> r == Err::<(), Error>(Error::CdnNodeIsAddedToCluster(nodes[cdn_node_key].cluster_id->0)) && *final(self) == *old(self)
                &&& nodes.contains_key(cdn_node_key) && nodes[cdn_node_key].provider_id == old(self).caller() && nodes[cdn_node_key].cluster_id is None
                    ==> r == Ok::<(), Error>(())
                    && final(self).cdn_nodes.cdn_nodes@ == nodes.remove(cdn_node_key)
                    && final(self).cdn_nodes.keys@ == seq_remove_first(old(self).cdn_nodes.keys@, cdn_node_key)
                    && final(self).events@ == old(self).events@.push(Event::CdnNodeRemoved { cdn_node_key })
            }),
            old(self).cdn_nodes.wf() ==> final(self).cdn_nodes.wf(),
            final(self).only_changed(old(self), set![Part::CdnNodes, Part::Events]),
    {
        let caller = self.env.caller;
        let node = match self.cdn_nodes.get(cdn_node_key) {
            Ok(n) => n,
            Err(e) => return Err(e),
        };
        match node.only_provider(caller) {
            Ok(()) => {},
            Err(e) => return Err(e),
        }
        match node.only_without_cluster() {
            Ok(()) => {},
            Err(e) => return Err(e),
        }
        self.cdn_nodes.remove(cdn_node_key);
        self.events.push(Event::CdnNodeRemoved { cdn_node_key });
        Ok(())
    }

    pub fn message_cdn_node_set_params(&mut self, cdn_node_key: CdnNodeKey, cdn_node_params: CdnNodeParams) -> (r: Result<()>)
        ensures
            ({
                let nodes = old(self).cdn_nodes.cdn_nodes@;
                &&& !nodes.contains_key(cdn_node_key) ==> r == Err::<(), Error>(Error::CdnNodeDoesNotExist) && *final(self) == *old(self)
                &&& nodes.contains_key(cdn_node_key) && nodes[cdn_node_key].provider_id != old(self).caller()
                    ==> r == Err::<(), Error>(Error::OnlyCdnNodeProvider) && *final(self) == *old(self)
                &&& nodes.contains_key(cdn_node_key) && nodes[cdn_node_key].provider_id == old(self).caller() && text_len(cdn_node_params) > CDN_NODE_PARAMS_MAX_LEN
                    ==> r == Err::<(), Error>(Error::ParamsSizeExceedsLimit) && *final(self) == *old(self)
                &&& nodes.contains_key(cdn_node_key) && nodes[cdn_node_key].provider_id == old(self).caller() && text_len(cdn_node_params) <= CDN_NODE_PARAMS_MAX_LEN
                    ==> r == Ok::<(), Error>(())
                    && final(self).cdn_nodes.cdn_nodes@ == nodes.insert(cdn_node_key, CdnNode { cdn_node_params, ..nodes[cdn_node_key] })
                    && final(self).cdn_nodes.keys@ == old(self).cdn_nodes.keys@
                    && final(self).events@ == old(self).events@.push(Event::CdnNodeParamsSet { cdn_node_key, cdn_node_params })
            }),
            old(self).cdn_nodes.wf() ==> final(self).cdn_nodes.wf(),
            final(self).only_changed(old(self), set![Part::CdnNodes, Part::Events]),
    {
        let caller = self.env.caller;
        let mut node = match self.cdn_nodes.get(cdn_node_key) {
            Ok(n) => n,
            Err(e) => return Err(e),
        };
        match node.only_provider(caller) {
            Ok(()) => {},
            Err(e) => return Err(e),
        }
        match node.set_params(cdn_node_params.clone()) {
            Ok(()) => {},
            Err(e) => return Err(e),
        }
        match self.cdn_nodes.update(cdn_node_key, &node) {
            Ok(()) => {},
            Err(e) => return Err(e),
        }
        self.events.push(Event::CdnNodeParamsSet { cdn_node_key, cdn_node_params });
        Ok(())
    }

    pub fn message_cdn_node_get(&self, cdn_node_key: CdnNodeKey) -> (r: Result<CdnNodeInfo>)
        ensures
            !self.cdn_nodes.cdn_nodes@.contains_key(cdn_node_key) ==> r == Err::<CdnNodeInfo, Error>(Error::CdnNodeDoesNotExist),
            self.cdn_nodes.cdn_nodes@.contains_key(cdn_node_key) ==> r is Ok && r->Ok_0.cdn_node_key == cdn_node_key
                && r->Ok_0.cdn_node == self.cdn_nodes.cdn_nodes@[cdn_node_key],
    {
        let node = match self.cdn_nodes.get(cdn_node_key) {
            Ok(n) => n,
            Err(e) => return Err(e),
        };
        Ok(CdnNodeInfo { cdn_node_key, cdn_node: node })
    }

    /// The nodes at positions `offset..offset + limit` of the node list whose
    /// provider passes the filter, and the number of nodes.
    pub fn message_cdn_node_list(&self, offset: u32, limit: u32, filter_provider_id: Option<AccountId>) -> (r: (Vec<CdnNodeInfo>, u32))
        requires
            offset + limit <= u32::MAX,
            self.cdn_nodes.wf(),
            self.cdn_nodes.keys@.len() <= u32::MAX,
        ensures
            ({
                let end = if offset + limit <= self.cdn_nodes.keys@.len() { offset + limit } else { self.cdn_nodes.keys@.len() as int };
                let keys = if offset <= end { self.listed_cdn_nodes(offset as int, end, filter_provider_id) } else { Seq::empty() };
                &&& r.1 == self.cdn_nodes.keys@.len()
                &&& r.0@.len() == keys.len()
                &&& forall|i: int| 0 <= i < keys.len() ==> {
                    &&& (#[trigger] r.0@[i]).cdn_node_key == keys[i]
                    &&& r.0@[i].cdn_node == self.cdn_nodes.cdn_nodes@[keys[i]]
                }
            }),
    {
        let mut nodes: Vec<CdnNodeInfo> = Vec::new();
        let end: u32 = offset + limit;
        let len: usize = self.cdn_nodes.keys.len();
        let mut idx: u32 = offset;
        while idx < end && (idx as usize) < len
            invariant
                offset <= idx <= end,
                end == offset + limit,
                len == self.cdn_nodes.keys@.len(),
                self.cdn_nodes.wf(),
                idx <= len || idx == offset,
                ({
                    let keys = if idx <= len { self.listed_cdn_nodes(offset as int, idx as int, filter_provider_id) } else { Seq::empty() };
                    &&& nodes@.len() == keys.len()
                    &&& forall|i: int| 0 <= i < keys.len() ==> {
                        &&& (#[trigger] nodes@[i]).cdn_node_key == keys[i]
                        &&& nodes@[i].cdn_node == self.cdn_nodes.cdn_nodes@[keys[i]]
                    }
                }),
            decreases end - idx,
        {
            let cdn_node_key = self.cdn_nodes.keys[idx as usize];
            assert(self.cdn_nodes.cdn_nodes@.contains_key(self.cdn_nodes.keys@[idx as int]));
            let node = match self.cdn_nodes.cdn_nodes.get(&cdn_node_key) {
                Some(n) => n.clone(),
                None => {
                    // Unreachable: every listed key has a record.
                    return (nodes, 0);
                },
            };
            let keep = match filter_provider_id {
                Some(provider_id) => provider_id == node.provider_id,
                None => true,
            };
            if keep {
                nodes.push(CdnNodeInfo { cdn_node_key, cdn_node: node });
            }
            idx = idx + 1;
        }
        (nodes, self.cdn_nodes.keys.len() as u32)
    }
}

} // verus!
