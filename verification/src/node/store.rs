//! The store where to create and access Nodes.

use vstd::prelude::*;
use crate::{AccountId, Balance, Error, Result, text_len};
use crate::keymap::{KeyMap, lemma_push_then_remove, remove_first, seq_remove_first};
use super::entity::{Node, NodeKey, NodeParams, Resource, NODE_PARAMS_MAX_LEN};

verus! {

pub const MAX_NODES_LEN_IN_VEC: usize = 400;

pub struct NodeStore {
    pub nodes: KeyMap<NodeKey, Node>,
    pub keys: Vec<NodeKey>,
}

impl NodeStore {
    /// Every listed key has a record, and no key is listed twice.
    pub open spec fn wf(&self) -> bool {
        &&& forall|i: int| 0 <= i < self.keys@.len() ==> self.nodes@.contains_key(#[trigger] self.keys@[i])
        &&& self.keys@.no_duplicates()
    }

    pub fn new() -> (s: NodeStore)
        ensures
            s.nodes@ == Map::<NodeKey, Node>::empty(),
            s.keys@ == Seq::<NodeKey>::empty(),
            s.wf(),
    {
        NodeStore { nodes: KeyMap::new(), keys: Vec::new() }
    }

    pub fn create(
        &mut self,
        node_key: AccountId,
        provider_id: AccountId,
        node_params: NodeParams,
        capacity: Resource,
        rent_v_node_per_month: Balance,
    ) -> (r: Result<NodeKey>)
        ensures
            old(self).wf() ==> final(self).wf(),
            old(self).nodes@.contains_key(node_key) ==> r == Err::<NodeKey, Error>(Error::NodeAlreadyExists),
            !old(self).nodes@.contains_key(node_key) && old(self).keys@.len() >= MAX_NODES_LEN_IN_VEC
                ==> r == Err::<NodeKey, Error>(Error::NodesSizeExceedsLimit),
            !old(self).nodes@.contains_key(node_key) && old(self).keys@.len() < MAX_NODES_LEN_IN_VEC
                && text_len(node_params) > NODE_PARAMS_MAX_LEN ==> r == Err::<NodeKey, Error>(Error::ParamsSizeExceedsLimit),
            r is Err ==> *final(self) == *old(self),
            r is Ok <==> (!old(self).nodes@.contains_key(node_key) && old(self).keys@.len() < MAX_NODES_LEN_IN_VEC
                && text_len(node_params) <= NODE_PARAMS_MAX_LEN),
            r is Ok ==> r == Ok::<NodeKey, Error>(node_key)
                && final(self).nodes@ == old(self).nodes@.insert(node_key, Node {
                    provider_id,
                    rent_v_node_per_month,
                    free_resource: capacity,
                    node_params,
                    cluster_id: None,
                    status_in_cluster: None,
                })
                && final(self).keys@ == old(self).keys@.push(node_key),
    {
        if self.nodes.contains(&node_key) {
            return Err(Error::NodeAlreadyExists);
        }
        if self.keys.len() >= MAX_NODES_LEN_IN_VEC {
            return Err(Error::NodesSizeExceedsLimit);
        }
        let node = match Node::new(provider_id, node_params, capacity, rent_v_node_per_month) {
            Ok(node) => node,
            Err(e) => return Err(e),
        };
        self.nodes.insert(node_key, node);
        self.keys.push(node_key);
        Ok(node_key)
    }

    pub fn get(&self, node_key: NodeKey) -> (r: Result<Node>)
        ensures
            self.nodes@.contains_key(node_key) ==> r == Ok::<Node, Error>(self.nodes@[node_key]),
            !self.nodes@.contains_key(node_key) ==> r == Err::<Node, Error>(Error::NodeDoesNotExist),
    {
        match self.nodes.get(&node_key) {
            Some(node) => Ok(node.clone()),
            None => Err(Error::NodeDoesNotExist),
        }
    }

    pub fn update(&mut self, node_key: NodeKey, node: &Node) -> (r: Result<()>)
        ensures
            old(self).wf() ==> final(self).wf(),
            old(self).nodes@.contains_key(node_key) ==> r == Ok::<(), Error>(())
                && final(self).nodes@ == old(self).nodes@.insert(node_key, *node),
            !old(self).nodes@.contains_key(node_key) ==> r == Err::<(), Error>(Error::NodeDoesNotExist)
                && final(self).nodes@ == old(self).nodes@,
            final(self).keys@ == old(self).keys@,
    {
        if !self.nodes.contains(&node_key) {
            Err(Error::NodeDoesNotExist)
        } else {
            self.nodes.insert(node_key, node.clone());
            Ok(())
        }
    }

    pub fn remove(&mut self, node_key: NodeKey)
        ensures
            old(self).wf() ==> final(self).wf(),
            final(self).nodes@ == old(self).nodes@.remove(node_key),
            final(self).keys@ == seq_remove_first(old(self).keys@, node_key),
    {
        self.nodes.remove(&node_key);
        remove_first(&mut self.keys, &node_key);
    }
}

/// A node created under a new key and then removed leaves the store as
/// it was.
pub proof fn lemma_create_then_remove(nodes: Map<NodeKey, Node>, keys: Seq<NodeKey>, key: NodeKey, created: Node)
    requires
        forall|i: int| 0 <= i < keys.len() ==> nodes.contains_key(#[trigger] keys[i]),
        !nodes.contains_key(key),
    ensures
        nodes.insert(key, created).remove(key) == nodes,
        seq_remove_first(keys.push(key), key) == keys,
{
    assert(nodes.insert(key, created).remove(key) =~= nodes);
    assert(!keys.contains(key));
    lemma_push_then_remove(keys, key);
}

} // verus!
