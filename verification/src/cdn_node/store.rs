//! The store where to create and access CDN nodes.

use vstd::prelude::*;
use crate::{AccountId, Balance, Error, Result, text_len};
use crate::keymap::{KeyMap, lemma_push_then_remove, remove_first, seq_remove_first};
use super::entity::{CdnNode, CdnNodeKey, CdnNodeParams, CDN_NODE_PARAMS_MAX_LEN};

verus! {

pub const MAX_CDN_NODES_LEN_IN_VEC: usize = 400;

pub struct CdnNodeStore {
    pub cdn_nodes: KeyMap<CdnNodeKey, CdnNode>,
    pub keys: Vec<CdnNodeKey>,
}

impl CdnNodeStore {
    /// Every listed key has a record, and no key is listed twice.
    pub open spec fn wf(&self) -> bool {
        &&& forall|i: int| 0 <= i < self.keys@.len() ==> self.cdn_nodes@.contains_key(#[trigger] self.keys@[i])
        &&& self.keys@.no_duplicates()
    }

    pub fn new() -> (s: CdnNodeStore)
        ensures
            s.cdn_nodes@ == Map::<CdnNodeKey, CdnNode>::empty(),
            s.keys@ == Seq::<CdnNodeKey>::empty(),
            s.wf(),
    {
        CdnNodeStore { cdn_nodes: KeyMap::new(), keys: Vec::new() }
    }

    pub fn create(
        &mut self,
        cdn_node_key: AccountId,
        provider_id: AccountId,
        cdn_node_params: CdnNodeParams,
        undistributed_payment: Balance,
    ) -> (r: Result<CdnNodeKey>)
        ensures
            old(self).wf() ==> final(self).wf(),
            old(self).cdn_nodes@.contains_key(cdn_node_key) ==> r == Err::<CdnNodeKey, Error>(Error::CdnNodeAlreadyExists),
            !old(self).cdn_nodes@.contains_key(cdn_node_key) && old(self).keys@.len() >= MAX_CDN_NODES_LEN_IN_VEC
                ==> r == Err::<CdnNodeKey, Error>(Error::CdnNodesSizeExceedsLimit),
            !old(self).cdn_nodes@.contains_key(cdn_node_key) && old(self).keys@.len() < MAX_CDN_NODES_LEN_IN_VEC
                && text_len(cdn_node_params) > CDN_NODE_PARAMS_MAX_LEN ==> r == Err::<CdnNodeKey, Error>(Error::ParamsSizeExceedsLimit),
            r is Err ==> *final(self) == *old(self),
            r is Ok <==> (!old(self).cdn_nodes@.contains_key(cdn_node_key) && old(self).keys@.len() < MAX_CDN_NODES_LEN_IN_VEC
                && text_len(cdn_node_params) <= CDN_NODE_PARAMS_MAX_LEN),
            r is Ok ==> r == Ok::<CdnNodeKey, Error>(cdn_node_key)
                && final(self).cdn_nodes@ == old(self).cdn_nodes@.insert(cdn_node_key, CdnNode {
                    provider_id,
                    undistributed_payment,
                    cdn_node_params,
                    cluster_id: None,
                    status_in_cluster: None,
                })
                && final(self).keys@ == old(self).keys@.push(cdn_node_key),
    {
        if self.cdn_nodes.contains(&cdn_node_key) {
            return Err(Error::CdnNodeAlreadyExists);
        }
        if self.keys.len() >= MAX_CDN_NODES_LEN_IN_VEC {
            return Err(Error::CdnNodesSizeExceedsLimit);
        }
        let cdn_node = match CdnNode::new(provider_id, cdn_node_params, undistributed_payment) {
            Ok(cdn_node) => cdn_node,
            Err(e) => return Err(e),
        };
        self.cdn_nodes.insert(cdn_node_key, cdn_node);
        self.keys.push(cdn_node_key);
        Ok(cdn_node_key)
    }

    pub fn get(&self, cdn_node_key: CdnNodeKey) -> (r: Result<CdnNode>)
        ensures
            self.cdn_nodes@.contains_key(cdn_node_key) ==> r == Ok::<CdnNode, Error>(self.cdn_nodes@[cdn_node_key]),
            !self.cdn_nodes@.contains_key(cdn_node_key) ==> r == Err::<CdnNode, Error>(Error::CdnNodeDoesNotExist),
    {
        match self.cdn_nodes.get(&cdn_node_key) {
            Some(cdn_node) => Ok(cdn_node.clone()),
            None => Err(Error::CdnNodeDoesNotExist),
        }
    }

    pub fn update(&mut self, cdn_node_key: CdnNodeKey, cdn_node: &CdnNode) -> (r: Result<()>)
        ensures
            old(self).wf() ==> final(self).wf(),
            old(self).cdn_nodes@.contains_key(cdn_node_key) ==> r == Ok::<(), Error>(())
                && final(self).cdn_nodes@ == old(self).cdn_nodes@.insert(cdn_node_key, *cdn_node),
            !old(self).cdn_nodes@.contains_key(cdn_node_key) ==> r == Err::<(), Error>(Error::CdnNodeDoesNotExist)
                && final(self).cdn_nodes@ == old(self).cdn_nodes@,
            final(self).keys@ == old(self).keys@,
    {
        if !self.cdn_nodes.contains(&cdn_node_key) {
            Err(Error::CdnNodeDoesNotExist)
        } else {
            self.cdn_nodes.insert(cdn_node_key, cdn_node.clone());
            Ok(())
        }
    }

    pub fn remove(&mut self, cdn_node_key: CdnNodeKey)
        ensures
            old(self).wf() ==> final(self).wf(),
            final(self).cdn_nodes@ == old(self).cdn_nodes@.remove(cdn_node_key),
            final(self).keys@ == seq_remove_first(old(self).keys@, cdn_node_key),
    {
        self.cdn_nodes.remove(&cdn_node_key);
        remove_first(&mut self.keys, &cdn_node_key);
    }
}

/// A CDN node created under a new key and then removed leaves the store as
/// it was.
pub proof fn lemma_create_then_remove(nodes: Map<CdnNodeKey, CdnNode>, keys: Seq<CdnNodeKey>, key: CdnNodeKey, created: CdnNode)
    requires
        forall|i: int| 0 <= i < keys.len() ==> nodes.contains_key(#[trigger] keys[i]),
        !nodes.contains_key(key),
    ensures
        nodes.insert(key, created).remove(key) == nodes,
        seq_remove_first(keys.push(key), key) == keys,
{
    assert(nodes.insert(key, created).remove(key) =~= nodes);
    assert(!keys.contains(key));
    lemma_push_then_remove(keys, key);
}

} // verus!
