//! The public interface to manage Nodes.

use vstd::prelude::*;
use crate::{AccountId, Balance, DdcBucket, Error, Event, Part, Result, text_len};
use crate::keymap::seq_remove_first;
use super::entity::{Node, NodeInfo, NodeKey, NodeParams, Resource, NODE_PARAMS_MAX_LEN};
use super::store::MAX_NODES_LEN_IN_VEC;

verus! {

/// Whether an item's owner passes an optional owner filter.
pub open spec fn passes(filter: Option<AccountId>, owner: AccountId) -> bool {
    match filter {
        Some(f) => f == owner,
        None => true,
    }
}

impl DdcBucket {
    /// The keys of the nodes at positions `from..to` of the node list whose
    /// provider passes the filter.
    pub open spec fn listed_nodes(&self, from: int, to: int, filter: Option<AccountId>) -> Seq<NodeKey>
        decreases to - from,
    {
        if to <= from {
            Seq::empty()
        } else {
            let k = self.nodes.keys@[to - 1];
            let before = self.listed_nodes(from, to - 1, filter);
            if passes(filter, self.nodes.nodes@[k].provider_id) {
                before.push(k)
            } else {
                before
            }
        }
    }

    pub fn message_node_create(
        &mut self,
        node_key: NodeKey,
        node_params: NodeParams,
        capacity: Resource,
        rent_v_node_per_month: Balance,
    ) -> (r: Result<NodeKey>)
        ensures
            ({
                let nodes = old(self).nodes.nodes@;
                let keys = old(self).nodes.keys@;
                let caller = old(self).caller();
                &&& nodes.contains_key(node_key) ==> r == Err::<NodeKey, Error>(Error::NodeAlreadyExists)
                &&& !nodes.contains_key(node_key) && keys.len() >= MAX_NODES_LEN_IN_VEC
                    ==> r == Err::<NodeKey, Error>(Error::NodesSizeExceedsLimit)
                &&& !nodes.contains_key(node_key) && keys.len() < MAX_NODES_LEN_IN_VEC && text_len(node_params) > NODE_PARAMS_MAX_LEN
                    ==> r == Err::<NodeKey, Error>(Error::ParamsSizeExceedsLimit)
                &&& r is Err ==> *final(self) == *old(self)
                &&& r is Ok ==> r == Ok::<NodeKey, Error>(node_key)
                    && final(self).nodes.nodes@ == nodes.insert(node_key, Node {
                        provider_id: caller,
                        rent_v_node_per_month,
                        free_resource: capacity,
                        node_params,
                        cluster_id: None,
                        status_in_cluster: None,
                    })
                    && final(self).nodes.keys@ == keys.push(node_key)
                    && final(self).events@ == old(self).events@.push(Event::NodeCreated {
                        node_key,
                        provider_id: caller,
                        rent_v_node_per_month,
                        node_params,
                    })
            }),
            old(self).nodes.wf() ==> final(self).nodes.wf(),
            final(self).only_changed(old(self), set![Part::Nodes, Part::Events]),
    {
        let caller = self.env.caller;
        match self.nodes.create(node_key, caller, node_params.clone(), capacity, rent_v_node_per_month) {
            Ok(_) => {},
            Err(e) => return Err(e),
        }
        self.events.push(Event::NodeCreated { node_key, provider_id: caller, rent_v_node_per_month, node_params });
        Ok(node_key)
    }

    /// Removes a node that its provider owns and that is in no cluster.
    pub fn message_node_remove(&mut self, node_key: NodeKey) -> (r: Result<()>)
        ensures
            ({
                let nodes = old(self).nodes.nodes@;
                &&& !nodes.contains_key(node_key) ==> r == Err::<(), Error>(Error::NodeDoesNotExist) && *final(self) == *old(self)
                &&& nodes.contains_key(node_key) && nodes[node_key].provider_id != old(self).caller()
                    ==> r == Err::<(), Error>(Error::OnlyNodeProvider) && *final(self) == *old(self)
                &&& nodes.contains_key(node_key) && nodes[node_key].provider_id == old(self).caller() && nodes[node_key].cluster_id is Some
                    ==> r == Err::<(), Error>(Error::NodeIsAddedToCluster(nodes[node_key].cluster_id->0)) && *final(self) == *old(self)
                &&& nodes.contains_key(node_key) && nodes[node_key].provider_id == old(self).caller() && nodes[node_key].cluster_id is None
                    ==> r == Ok::<(), Error>(())
                    && final(self).nodes.nodes@ == nodes.remove(node_key)
                    && final(self).nodes.keys@ == seq_remove_first(old(self).nodes.keys@, node_key)
                    && final(self).events@ == old(self).events@.push(Event::NodeRemoved { node_key })
            }),
            old(self).nodes.wf() ==> final(self).nodes.wf(),
            final(self).only_changed(old(self), set![Part::Nodes, Part::Events]),
    {
        let caller = self.env.caller;
        let node = match self.nodes.get(node_key) {
            Ok(n) => n,
            Err(e) => return Err(e),
        };
        match node.only_provider(caller) {
            Ok(()) => {},
            Err(e) => return Err(e),
        }
        match node.only_without_cluster() {
            Ok(()) => {},
            Err(e) => return Err(e),
        }
        self.nodes.remove(node_key);
        self.events.push(Event::NodeRemoved { node_key });
        Ok(())
    }

    pub fn message_node_set_params(&mut self, node_key: NodeKey, node_params: NodeParams) -> (r: Result<()>)
        ensures
            ({
                let nodes = old(self).nodes.nodes@;
                &&& !nodes.contains_key(node_key) ==> r == Err::<(), Error>(Error::NodeDoesNotExist) && *final(self) == *old(self)
                &&& nodes.contains_key(node_key) && nodes[node_key].provider_id != old(self).caller()
                    ==> r == Err::<(), Error>(Error::OnlyNodeProvider) && *final(self) == *old(self)
                &&& nodes.contains_key(node_key) && nodes[node_key].provider_id == old(self).caller() && text_len(node_params) > NODE_PARAMS_MAX_LEN
                    ==> r == Err::<(), Error>(Error::ParamsSizeExceedsLimit) && *final(self) == *old(self)
                &&& nodes.contains_key(node_key) && nodes[node_key].provider_id == old(self).caller() && text_len(node_params) <= NODE_PARAMS_MAX_LEN
                    ==> r == Ok::<(), Error>(())
                    && final(self).nodes.nodes@ == nodes.insert(node_key, Node { node_params, ..nodes[node_key] })
                    && final(self).nodes.keys@ == old(self).nodes.keys@
                    && final(self).events@ == old(self).events@.push(Event::NodeParamsSet { node_key, node_params })
            }),
            old(self).nodes.wf() ==> final(self).nodes.wf(),
            final(self).only_changed(old(self), set![Part::Nodes, Part::Events]),
    {
        let caller = self.env.caller;
        let mut node = match self.nodes.get(node_key) {
            Ok(n) => n,
            Err(e) => return Err(e),
        };
        match node.only_provider(caller) {
            Ok(()) => {},
            Err(e) => return Err(e),
        }
        match node.set_params(node_params.clone()) {
            Ok(()) => {},
            Err(e) => return Err(e),
        }
        match self.nodes.update(node_key, &node) {
            Ok(()) => {},
            Err(e) => return Err(e),
        }
        self.events.push(Event::NodeParamsSet { node_key, node_params });
        Ok(())
    }

    pub fn message_node_get(&self, node_key: NodeKey) -> (r: Result<NodeInfo>)
        ensures
            !self.nodes.nodes@.contains_key(node_key) ==> r == Err::<NodeInfo, Error>(Error::NodeDoesNotExist),
            self.nodes.nodes@.contains_key(node_key) ==> r is Ok && r->Ok_0.node_key == node_key
                && r->Ok_0.node == self.nodes.nodes@[node_key]
                && r->Ok_0.v_nodes@ == self.topology.v_nodes_of_node(node_key),
    {
        let node = match self.nodes.get(node_key) {
            Ok(n) => n,
            Err(e) => return Err(e),
        };
        let v_nodes = self.topology.get_v_nodes_by_node(node_key);
        Ok(NodeInfo { node_key, node, v_nodes })
    }

    /// The nodes at positions `offset..offset + limit` of the node list whose
    /// provider passes the filter, and the number of nodes.
    pub fn message_node_list(&self, offset: u32, limit: u32, filter_provider_id: Option<AccountId>) -> (r: (Vec<NodeInfo>, u32))
        requires
            offset + limit <= u32::MAX,
            self.nodes.wf(),
            self.nodes.keys@.len() <= u32::MAX,
        ensures
            ({
                let end = if offset + limit <= self.nodes.keys@.len() { offset + limit } else { self.nodes.keys@.len() as int };
                let keys = if offset <= end { self.listed_nodes(offset as int, end, filter_provider_id) } else { Seq::empty() };
                &&& r.1 == self.nodes.keys@.len()
                &&& r.0@.len() == keys.len()
                &&& forall|i: int| 0 <= i < keys.len() ==> {
                    &&& (#[trigger] r.0@[i]).node_key == keys[i]
                    &&& r.0@[i].node == self.nodes.nodes@[keys[i]]
                    &&& r.0@[i].v_nodes@ == self.topology.v_nodes_of_node(keys[i])
                }
            }),
    {
        let mut nodes: Vec<NodeInfo> = Vec::new();
        let end: u32 = offset + limit;
        let len: usize = self.nodes.keys.len();
        let mut idx: u32 = offset;
        while idx < end && (idx as usize) < len
            invariant
                offset <= idx <= end,
                end == offset + limit,
                len == self.nodes.keys@.len(),
                self.nodes.wf(),
                idx <= len || idx == offset,
                ({
                    let keys = if idx <= len { self.listed_nodes(offset as int, idx as int, filter_provider_id) } else { Seq::empty() };
                    &&& nodes@.len() == keys.len()
                    &&& forall|i: int| 0 <= i < keys.len() ==> {
                        &&& (#[trigger] nodes@[i]).node_key == keys[i]
                        &&& nodes@[i].node == self.nodes.nodes@[keys[i]]
                        &&& nodes@[i].v_nodes@ == self.topology.v_nodes_of_node(keys[i])
                    }
                }),
            decreases end - idx,
        {
            let node_key = self.nodes.keys[idx as usize];
            assert(self.nodes.nodes@.contains_key(self.nodes.keys@[idx as int]));
            let node = match self.nodes.nodes.get(&node_key) {
                Some(n) => n.clone(),
                None => {
                    // Unreachable: every listed key has a record.
                    return (nodes, 0);
                },
            };
            let keep = match filter_provider_id {
                Some(provider_id) => provider_id == node.provider_id,
                None => true,
            };
            if keep {
                let v_nodes = self.topology.get_v_nodes_by_node(node_key);
                nodes.push(NodeInfo { node_key, node, v_nodes });
            }
            idx = idx + 1;
        }
        (nodes, self.nodes.keys.len() as u32)
    }
}

} // verus!
