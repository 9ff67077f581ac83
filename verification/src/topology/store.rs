//! The store of virtual-node assignments.
//!
//! Each cluster has an ordered list of virtual nodes; each virtual node of a
//! cluster is served by one storage node; each storage node has the ordered
//! list of the virtual nodes it serves. Every operation checks its inputs
//! before it writes anything, so a refused operation changes nothing.

use vstd::prelude::*;
use crate::{Error, Result};
use crate::keymap::{Key, KeyMap, lemma_remove_first_of_appended, position, remove_first, seq_remove_first};
use crate::cluster::entity::ClusterId;
use crate::node::entity::NodeKey;

verus! {

pub type VNodeToken = u64;

/// A virtual node of a cluster.
#[derive(Clone, Copy, PartialEq, Eq, Structural, Debug)]
pub struct ClusterVNode {
    pub cluster_id: ClusterId,
    pub v_node: VNodeToken,
}

impl Key for ClusterVNode {
    fn key_eq(&self, other: &Self) -> (r: bool) {
        *self == *other
    }
}

pub open spec fn cv(cluster_id: ClusterId, v_node: VNodeToken) -> ClusterVNode {
    ClusterVNode { cluster_id, v_node }
}

/// The assignment `m` with every virtual node of `vs` in cluster `c` given to `node`.
pub open spec fn assign_all(m: Map<ClusterVNode, NodeKey>, c: ClusterId, vs: Seq<VNodeToken>, node: NodeKey) -> Map<ClusterVNode, NodeKey> {
    Map::new(
        |k: ClusterVNode| m.contains_key(k) || (k.cluster_id == c && vs.contains(k.v_node)),
        |k: ClusterVNode| if k.cluster_id == c && vs.contains(k.v_node) { node } else { m[k] },
    )
}

/// The assignment `m` without the virtual nodes of `vs` in cluster `c`.
pub open spec fn unassign_all(m: Map<ClusterVNode, NodeKey>, c: ClusterId, vs: Seq<VNodeToken>) -> Map<ClusterVNode, NodeKey> {
    Map::new(
        |k: ClusterVNode| m.contains_key(k) && !(k.cluster_id == c && vs.contains(k.v_node)),
        |k: ClusterVNode| m[k],
    )
}

/// `s` with the first occurrence of each element of `vs` removed, in order.
pub open spec fn remove_each(s: Seq<VNodeToken>, vs: Seq<VNodeToken>) -> Seq<VNodeToken>
    decreases vs.len(),
{
    if vs.len() == 0 {
        s
    } else {
        remove_each(seq_remove_first(s, vs[0]), vs.drop_first())
    }
}

/// Whether the sequence has no repeated element.
pub open spec fn distinct(vs: Seq<VNodeToken>) -> bool {
    forall|i: int, j: int| 0 <= j < i < vs.len() ==> vs[j] != vs[i]
}

/// The list of a node in `lists`, empty for an unknown node.
pub open spec fn list_of(lists: Map<NodeKey, Seq<VNodeToken>>, n: NodeKey) -> Seq<VNodeToken> {
    if lists.contains_key(n) {
        lists[n]
    } else {
        Seq::empty()
    }
}

/// Hands the virtual nodes of `vs` in cluster `c` over to `new_node`, one
/// after the other: each leaves the list of the node serving it.
pub open spec fn reassign(
    lists: Map<NodeKey, Seq<VNodeToken>>,
    asg: Map<ClusterVNode, NodeKey>,
    c: ClusterId,
    vs: Seq<VNodeToken>,
    new_node: NodeKey,
) -> (Map<NodeKey, Seq<VNodeToken>>, Map<ClusterVNode, NodeKey>)
    decreases vs.len(),
{
    if vs.len() == 0 {
        (lists, asg)
    } else {
        let old_node = asg[cv(c, vs[0])];
        reassign(
            lists.insert(old_node, seq_remove_first(list_of(lists, old_node), vs[0])),
            asg.insert(cv(c, vs[0]), new_node),
            c,
            vs.drop_first(),
            new_node,
        )
    }
}

fn extend(list: &mut Vec<VNodeToken>, vs: &Vec<VNodeToken>)
    ensures
        final(list)@ == old(list)@ + vs@,
{
    let mut i: usize = 0;
    while i < vs.len()
        invariant
            i <= vs@.len(),
            list@ == old(list)@ + vs@.take(i as int),
        decreases vs@.len() - i,
    {
        list.push(vs[i]);
        assert(vs@.take(i + 1) =~= vs@.take(i as int).push(vs@[i as int]));
        i = i + 1;
    }
    assert(vs@.take(vs@.len() as int) =~= vs@);
}

pub struct TopologyStore {
    /// The virtual nodes served by each storage node.
    pub v_nodes_map: KeyMap<NodeKey, Vec<VNodeToken>>,
    /// The storage node serving each virtual node of each cluster.
    pub nodes_map: KeyMap<ClusterVNode, NodeKey>,
    /// The virtual nodes of each cluster.
    pub cluster_v_nodes_map: KeyMap<ClusterId, Vec<VNodeToken>>,
}

impl TopologyStore {
    pub open spec fn node_lists(&self) -> Map<NodeKey, Seq<VNodeToken>> {
        self.v_nodes_map@.map_values(|v: Vec<VNodeToken>| v@)
    }

    pub open spec fn assignment(&self) -> Map<ClusterVNode, NodeKey> {
        self.nodes_map@
    }

    pub open spec fn cluster_lists(&self) -> Map<ClusterId, Seq<VNodeToken>> {
        self.cluster_v_nodes_map@.map_values(|v: Vec<VNodeToken>| v@)
    }

    /// The virtual nodes of a cluster, empty for a cluster without topology.
    pub open spec fn v_nodes_of_cluster(&self, c: ClusterId) -> Seq<VNodeToken> {
        if self.cluster_lists().contains_key(c) {
            self.cluster_lists()[c]
        } else {
            Seq::empty()
        }
    }

    /// The virtual nodes a storage node serves, empty for an unknown node.
    pub open spec fn v_nodes_of_node(&self, n: NodeKey) -> Seq<VNodeToken> {
        if self.node_lists().contains_key(n) {
            self.node_lists()[n]
        } else {
            Seq::empty()
        }
    }

    pub fn new() -> (s: TopologyStore)
        ensures
            s.node_lists() == Map::<NodeKey, Seq<VNodeToken>>::empty(),
            s.assignment() == Map::<ClusterVNode, NodeKey>::empty(),
            s.cluster_lists() == Map::<ClusterId, Seq<VNodeToken>>::empty(),
    {
        let s = TopologyStore { v_nodes_map: KeyMap::new(), nodes_map: KeyMap::new(), cluster_v_nodes_map: KeyMap::new() };
        assert(s.node_lists() =~= Map::<NodeKey, Seq<VNodeToken>>::empty());
        assert(s.cluster_lists() =~= Map::<ClusterId, Seq<VNodeToken>>::empty());
        s
    }

    pub fn get_v_nodes_by_cluster(&self, cluster_id: ClusterId) -> (r: Vec<VNodeToken>)
        ensures
            r@ == self.v_nodes_of_cluster(cluster_id),
    {
        match self.cluster_v_nodes_map.get(&cluster_id) {
            Some(v) => {
                let r = v.clone();
                assert(r@ =~= v@);
                r
            },
            None => Vec::new(),
        }
    }

    pub fn get_v_nodes_by_node(&self, node_key: NodeKey) -> (r: Vec<VNodeToken>)
        ensures
            r@ == self.v_nodes_of_node(node_key),
    {
        match self.v_nodes_map.get(&node_key) {
            Some(v) => {
                let r = v.clone();
                assert(r@ =~= v@);
                r
            },
            None => Vec::new(),
        }
    }

    pub fn get_node_by_v_node(&self, cluster_id: ClusterId, v_node: VNodeToken) -> (r: Result<NodeKey>)
        ensures
            self.assignment().contains_key(cv(cluster_id, v_node)) ==> r == Ok::<NodeKey, Error>(self.assignment()[cv(cluster_id, v_node)]),
            !self.assignment().contains_key(cv(cluster_id, v_node)) ==> r == Err::<NodeKey, Error>(Error::VNodeIsNotAssignedToNode(cluster_id, v_node)),
    {
        match self.nodes_map.get(&ClusterVNode { cluster_id, v_node }) {
            Some(node_key) => Ok(*node_key),
            None => Err(Error::VNodeIsNotAssignedToNode(cluster_id, v_node)),
        }
    }

    pub fn v_node_has_node(&self, cluster_id: ClusterId, v_node: VNodeToken) -> (b: bool)
        ensures
            b == self.assignment().contains_key(cv(cluster_id, v_node)),
    {
        self.nodes_map.contains(&ClusterVNode { cluster_id, v_node })
    }

    pub fn create_topology(&mut self, cluster_id: ClusterId) -> (r: Result<()>)
        ensures
            old(self).cluster_lists().contains_key(cluster_id) ==> r == Err::<(), Error>(Error::TopologyAlreadyExists)
                && final(self).cluster_lists() == old(self).cluster_lists(),
            !old(self).cluster_lists().contains_key(cluster_id) ==> r == Ok::<(), Error>(())
                && final(self).cluster_lists() == old(self).cluster_lists().insert(cluster_id, Seq::empty()),
            final(self).node_lists() == old(self).node_lists(),
            final(self).assignment() == old(self).assignment(),
    {
        if self.cluster_v_nodes_map.contains(&cluster_id) {
            Err(Error::TopologyAlreadyExists)
        } else {
            let empty: Vec<VNodeToken> = Vec::new();
            self.cluster_v_nodes_map.insert(cluster_id, empty);
            assert(self.cluster_lists() =~= old(self).cluster_lists().insert(cluster_id, Seq::empty()));
            Ok(())
        }
    }

    fn set_cluster_list(&mut self, cluster_id: ClusterId, list: Vec<VNodeToken>)
        ensures
            final(self).cluster_lists() == old(self).cluster_lists().insert(cluster_id, list@),
            final(self).node_lists() == old(self).node_lists(),
            final(self).assignment() == old(self).assignment(),
    {
        let ghost l = list@;
        self.cluster_v_nodes_map.insert(cluster_id, list);
        assert(self.cluster_lists() =~= old(self).cluster_lists().insert(cluster_id, l));
    }

    fn set_node_list(&mut self, node_key: NodeKey, list: Vec<VNodeToken>)
        ensures
            final(self).node_lists() == old(self).node_lists().insert(node_key, list@),
            final(self).cluster_lists() == old(self).cluster_lists(),
            final(self).assignment() == old(self).assignment(),
    {
        let ghost l = list@;
        self.v_nodes_map.insert(node_key, list);
        assert(self.node_lists() =~= old(self).node_lists().insert(node_key, l));
    }

    /// Assigns every virtual node of `vs` in a cluster to a node, appending
    /// each to `list`.
    fn assign(&mut self, cluster_id: ClusterId, vs: &Vec<VNodeToken>, node_key: NodeKey, list: &mut Vec<VNodeToken>)
        ensures
            final(self).assignment() == assign_all(old(self).assignment(), cluster_id, vs@, node_key),
            final(list)@ == old(list)@ + vs@,
            final(self).node_lists() == old(self).node_lists(),
            final(self).cluster_lists() == old(self).cluster_lists(),
    {
        let mut i: usize = 0;
        assert(old(self).assignment() =~= assign_all(old(self).assignment(), cluster_id, vs@.take(0), node_key));
        while i < vs.len()
            invariant
                i <= vs@.len(),
                self.assignment() == assign_all(old(self).assignment(), cluster_id, vs@.take(i as int), node_key),
                list@ == old(list)@ + vs@.take(i as int),
                self.node_lists() == old(self).node_lists(),
                self.cluster_lists() == old(self).cluster_lists(),
            decreases vs@.len() - i,
        {
            let v = vs[i];
            self.nodes_map.insert(ClusterVNode { cluster_id, v_node: v }, node_key);
            list.push(v);
            proof {
                let t1 = vs@.take(i + 1);
                assert(t1 =~= vs@.take(i as int).push(v));
                assert forall|x: VNodeToken| t1.contains(x) <==> (vs@.take(i as int).contains(x) || x == v) by {
                    if t1.contains(x) {
                        let j = choose|j: int| 0 <= j < t1.len() && t1[j] == x;
                        if j < i {
                            assert(vs@.take(i as int)[j] == x);
                        }
                    }
                    if vs@.take(i as int).contains(x) {
                        let j = choose|j: int| 0 <= j < i && vs@.take(i as int)[j] == x;
                        assert(t1[j] == x);
                    }
                    if x == v {
                        assert(t1[i as int] == x);
                    }
                }
                assert(self.assignment() =~= assign_all(old(self).assignment(), cluster_id, t1, node_key));
                assert(list@ =~= old(list)@ + t1);
            }
            i = i + 1;
        }
        assert(vs@.take(vs@.len() as int) =~= vs@);
    }

    /// Removes the assignment of every virtual node of `vs` in a cluster, and
    /// the first occurrence of each from `list`.
    fn unassign(&mut self, cluster_id: ClusterId, vs: &Vec<VNodeToken>, list: &mut Vec<VNodeToken>)
        ensures
            final(self).assignment() == unassign_all(old(self).assignment(), cluster_id, vs@),
            final(list)@ == remove_each(old(list)@, vs@),
            final(self).node_lists() == old(self).node_lists(),
            final(self).cluster_lists() == old(self).cluster_lists(),
    {
        let mut i: usize = 0;
        assert(old(self).assignment() =~= unassign_all(old(self).assignment(), cluster_id, vs@.take(0)));
        assert(vs@.skip(0) =~= vs@);
        while i < vs.len()
            invariant
                i <= vs@.len(),
                self.assignment() == unassign_all(old(self).assignment(), cluster_id, vs@.take(i as int)),
                remove_each(list@, vs@.skip(i as int)) == remove_each(old(list)@, vs@),
                self.node_lists() == old(self).node_lists(),
                self.cluster_lists() == old(self).cluster_lists(),
            decreases vs@.len() - i,
        {
            let v = vs[i];
            self.nodes_map.remove(&ClusterVNode { cluster_id, v_node: v });
            let ghost before = list@;
            remove_first(list, &v);
            proof {
                let t1 = vs@.take(i + 1);
                assert forall|x: VNodeToken| t1.contains(x) <==> (vs@.take(i as int).contains(x) || x == v) by {
                    if t1.contains(x) {
                        let j = choose|j: int| 0 <= j < t1.len() && t1[j] == x;
                        if j < i {
                            assert(vs@.take(i as int)[j] == x);
                        }
                    }
                    if vs@.take(i as int).contains(x) {
                        let j = choose|j: int| 0 <= j < i && vs@.take(i as int)[j] == x;
                        assert(t1[j] == x);
                    }
                    if x == v {
                        assert(t1[i as int] == x);
                    }
                }
                assert(self.assignment() =~= unassign_all(old(self).assignment(), cluster_id, t1));
                assert(vs@.skip(i as int)[0] == v);
                assert(vs@.skip(i as int).drop_first() =~= vs@.skip(i + 1));
            }
            i = i + 1;
        }
        assert(vs@.skip(vs@.len() as int) =~= Seq::<VNodeToken>::empty());
        assert(vs@.take(vs@.len() as int) =~= vs@);
    }

    /// Whether some virtual node of `vs` is already served in the cluster
    /// (ignoring those of `freed`), or occurs twice in `vs`.
    pub open spec fn conflicts(&self, cluster_id: ClusterId, vs: Seq<VNodeToken>, freed: Seq<VNodeToken>) -> bool {
        exists|i: int| 0 <= i < vs.len() && (
            (self.assignment().contains_key(cv(cluster_id, vs[i])) && !freed.contains(vs[i]))
            || exists|j: int| 0 <= j < i && vs[j] == vs[i]
        )
    }

    fn check_free(&self, cluster_id: ClusterId, vs: &Vec<VNodeToken>, freed: &Vec<VNodeToken>) -> (ok: bool)
        ensures
            ok == !self.conflicts(cluster_id, vs@, freed@),
    {
        let mut i: usize = 0;
        while i < vs.len()
            invariant
                i <= vs@.len(),
                forall|k: int| 0 <= k < i ==> !(
                    (self.assignment().contains_key(cv(cluster_id, vs@[k])) && !freed@.contains(vs@[k]))
                    || exists|j: int| 0 <= j < k && vs@[j] == vs@[k]),
            decreases vs@.len() - i,
        {
            let v = vs[i];
            let taken = self.v_node_has_node(cluster_id, v) && position(freed, &v).is_none();
            let first = position(vs, &v);
            if taken || first != Some(i) {
                proof {
                    if !taken {
                        let p = first.unwrap() as int;
                        assert(vs@[p] == vs@[i as int]);
                        if p >= i {
                            assert(vs@[i as int] == v);
                            assert(false);
                        }
                    }
                }
                return false;
            }
            i = i + 1;
        }
        true
    }

    pub fn add_node(&mut self, cluster_id: ClusterId, node_key: NodeKey, v_nodes: Vec<VNodeToken>) -> (r: Result<()>)
        ensures
            old(self).conflicts(cluster_id, v_nodes@, Seq::empty()) ==> r == Err::<(), Error>(Error::VNodeIsAlreadyAssignedToNode(node_key))
                && *final(self) == *old(self),
            !old(self).conflicts(cluster_id, v_nodes@, Seq::empty()) ==> r == Ok::<(), Error>(())
                && final(self).assignment() == assign_all(old(self).assignment(), cluster_id, v_nodes@, node_key)
                && final(self).cluster_lists() == old(self).cluster_lists().insert(cluster_id, old(self).v_nodes_of_cluster(cluster_id) + v_nodes@)
                && final(self).node_lists() == old(self).node_lists().insert(node_key, v_nodes@),
    {
        let none: Vec<VNodeToken> = Vec::new();
        if !self.check_free(cluster_id, &v_nodes, &none) {
            assert(none@ =~= Seq::<VNodeToken>::empty());
            return Err(Error::VNodeIsAlreadyAssignedToNode(node_key));
        }
        assert(none@ =~= Seq::<VNodeToken>::empty());
        let mut cluster_v_nodes = self.get_v_nodes_by_cluster(cluster_id);
        self.assign(cluster_id, &v_nodes, node_key, &mut cluster_v_nodes);
        self.set_cluster_list(cluster_id, cluster_v_nodes);
        self.set_node_list(node_key, v_nodes);
        Ok(())
    }

    /// Position of the first virtual node of `vs` not served in the cluster.
    pub open spec fn first_unassigned(&self, cluster_id: ClusterId, vs: Seq<VNodeToken>) -> int {
        choose|k: int| 0 <= k < vs.len() && !self.assignment().contains_key(cv(cluster_id, vs[k]))
            && forall|j: int| 0 <= j < k ==> self.assignment().contains_key(cv(cluster_id, vs[j]))
    }

    pub open spec fn all_assigned(&self, cluster_id: ClusterId, vs: Seq<VNodeToken>) -> bool {
        forall|k: int| 0 <= k < vs.len() ==> self.assignment().contains_key(cv(cluster_id, vs[k]))
    }

    fn find_unassigned(&self, cluster_id: ClusterId, vs: &Vec<VNodeToken>) -> (r: Option<usize>)
        ensures
            r is None <==> self.all_assigned(cluster_id, vs@),
            r is Some ==> r->0 == self.first_unassigned(cluster_id, vs@) && r->0 < vs@.len(),
    {
        let mut i: usize = 0;
        while i < vs.len()
            invariant
                i <= vs@.len(),
                forall|k: int| 0 <= k < i ==> self.assignment().contains_key(cv(cluster_id, vs@[k])),
            decreases vs@.len() - i,
        {
            if !self.v_node_has_node(cluster_id, vs[i]) {
                proof {
                    let f = self.first_unassigned(cluster_id, vs@);
                    assert(0 <= f < vs@.len() && !self.assignment().contains_key(cv(cluster_id, vs@[f]))
                        && forall|j: int| 0 <= j < f ==> self.assignment().contains_key(cv(cluster_id, vs@[j])));
                    if f < i {
                        assert(false);
                    }
                    if f > i {
                        assert(self.assignment().contains_key(cv(cluster_id, vs@[i as int])));
                    }
                }
                return Some(i);
            }
            i = i + 1;
        }
        None
    }

    pub fn remove_node(&mut self, cluster_id: ClusterId, node_key: NodeKey) -> (r: Result<()>)
        ensures
            !old(self).all_assigned(cluster_id, old(self).v_nodes_of_node(node_key)) ==> r == Err::<(), Error>(
                Error::VNodeIsNotAssignedToNode(
                    cluster_id,
                    old(self).v_nodes_of_node(node_key)[old(self).first_unassigned(cluster_id, old(self).v_nodes_of_node(node_key))],
                ),
            ) && *final(self) == *old(self),
            old(self).all_assigned(cluster_id, old(self).v_nodes_of_node(node_key)) ==> r == Ok::<(), Error>(())
                && final(self).assignment() == unassign_all(old(self).assignment(), cluster_id, old(self).v_nodes_of_node(node_key))
                && final(self).cluster_lists() == old(self).cluster_lists().insert(
                    cluster_id,
                    remove_each(old(self).v_nodes_of_cluster(cluster_id), old(self).v_nodes_of_node(node_key)),
                )
                && final(self).node_lists() == old(self).node_lists().remove(node_key),
    {
        let node_v_nodes = self.get_v_nodes_by_node(node_key);
        match self.find_unassigned(cluster_id, &node_v_nodes) {
            Some(k) => {
                return Err(Error::VNodeIsNotAssignedToNode(cluster_id, node_v_nodes[k]));
            },
            None => {},
        }
        let mut cluster_v_nodes = self.get_v_nodes_by_cluster(cluster_id);
        self.unassign(cluster_id, &node_v_nodes, &mut cluster_v_nodes);
        self.set_cluster_list(cluster_id, cluster_v_nodes);
        let ghost before = self.node_lists();
        self.v_nodes_map.remove(&node_key);
        assert(self.node_lists() =~= before.remove(node_key));
        Ok(())
    }

    pub fn reset_node(&mut self, cluster_id: ClusterId, node_key: NodeKey, new_v_nodes: Vec<VNodeToken>) -> (r: Result<()>)
        ensures
            old(self).conflicts(cluster_id, new_v_nodes@, old(self).v_nodes_of_node(node_key)) ==> r == Err::<(), Error>(
                Error::VNodeIsAlreadyAssignedToNode(node_key),
            ) && *final(self) == *old(self),
            !old(self).conflicts(cluster_id, new_v_nodes@, old(self).v_nodes_of_node(node_key)) ==> r == Ok::<(), Error>(())
                && final(self).assignment() == assign_all(
                    unassign_all(old(self).assignment(), cluster_id, old(self).v_nodes_of_node(node_key)),
                    cluster_id,
                    new_v_nodes@,
                    node_key,
                )
                && final(self).cluster_lists() == old(self).cluster_lists().insert(
                    cluster_id,
                    remove_each(old(self).v_nodes_of_cluster(cluster_id), old(self).v_nodes_of_node(node_key)) + new_v_nodes@,
                )
                && final(self).node_lists() == old(self).node_lists().insert(node_key, new_v_nodes@),
    {
        let old_v_nodes = self.get_v_nodes_by_node(node_key);
        if !self.check_free(cluster_id, &new_v_nodes, &old_v_nodes) {
            return Err(Error::VNodeIsAlreadyAssignedToNode(node_key));
        }
        let mut cluster_v_nodes = self.get_v_nodes_by_cluster(cluster_id);
        self.unassign(cluster_id, &old_v_nodes, &mut cluster_v_nodes);
        self.assign(cluster_id, &new_v_nodes, node_key, &mut cluster_v_nodes);
        self.set_cluster_list(cluster_id, cluster_v_nodes);
        self.set_node_list(node_key, new_v_nodes);
        Ok(())
    }

    pub fn remove_topology(&mut self, cluster_id: ClusterId) -> (r: Result<()>)
        ensures
            r == Ok::<(), Error>(()),
            final(self).assignment() == unassign_all(old(self).assignment(), cluster_id, old(self).v_nodes_of_cluster(cluster_id)),
            final(self).cluster_lists() == old(self).cluster_lists().remove(cluster_id),
            final(self).node_lists() == old(self).node_lists(),
    {
        let cluster_v_nodes = self.get_v_nodes_by_cluster(cluster_id);
        let mut scratch = self.get_v_nodes_by_cluster(cluster_id);
        self.unassign(cluster_id, &cluster_v_nodes, &mut scratch);
        let ghost before = self.cluster_lists();
        self.cluster_v_nodes_map.remove(&cluster_id);
        assert(self.cluster_lists() =~= before.remove(cluster_id));
        Ok(())
    }

    /// Whether a virtual node can be handed over: it is in the cluster and served.
    pub open spec fn replaceable(&self, cluster_id: ClusterId, v: VNodeToken) -> bool {
        self.v_nodes_of_cluster(cluster_id).contains(v) && self.assignment().contains_key(cv(cluster_id, v))
    }

    pub open spec fn first_unreplaceable(&self, cluster_id: ClusterId, vs: Seq<VNodeToken>) -> int {
        choose|k: int| 0 <= k < vs.len() && !self.replaceable(cluster_id, vs[k])
            && forall|j: int| 0 <= j < k ==> self.replaceable(cluster_id, vs[j])
    }

    /// The error for a hand-over refused at `vs[k]`.
    pub open spec fn replace_error(&self, cluster_id: ClusterId, v: VNodeToken) -> Error {
        if !self.v_nodes_of_cluster(cluster_id).contains(v) {
            Error::VNodeDoesNotExistsInCluster(cluster_id)
        } else {
            Error::VNodeIsNotAssignedToNode(cluster_id, v)
        }
    }

    pub fn replace_node(&mut self, cluster_id: ClusterId, new_node_key: NodeKey, v_nodes_to_reasign: Vec<VNodeToken>) -> (r: Result<()>)
        ensures
            (exists|k: int| 0 <= k < v_nodes_to_reasign@.len() && !old(self).replaceable(cluster_id, #[trigger] v_nodes_to_reasign@[k]))
                ==> r == Err::<(), Error>(old(self).replace_error(
                    cluster_id,
                    v_nodes_to_reasign@[old(self).first_unreplaceable(cluster_id, v_nodes_to_reasign@)],
                )) && *final(self) == *old(self),
            (forall|k: int| 0 <= k < v_nodes_to_reasign@.len() ==> old(self).replaceable(cluster_id, #[trigger] v_nodes_to_reasign@[k]))
                ==> r == Ok::<(), Error>(()) && ({
                    let (lists, asg) = reassign(old(self).node_lists(), old(self).assignment(), cluster_id, v_nodes_to_reasign@, new_node_key);
                    &&& final(self).assignment() == asg
                    &&& final(self).node_lists() == lists.insert(new_node_key, list_of(lists, new_node_key) + v_nodes_to_reasign@)
                    &&& final(self).cluster_lists() == old(self).cluster_lists()
                }),
    {
        let cluster_v_nodes = self.get_v_nodes_by_cluster(cluster_id);
        let mut i: usize = 0;
        while i < v_nodes_to_reasign.len()
            invariant
                i <= v_nodes_to_reasign@.len(),
                cluster_v_nodes@ == self.v_nodes_of_cluster(cluster_id),
                *self == *old(self),
                forall|k: int| 0 <= k < i ==> self.replaceable(cluster_id, v_nodes_to_reasign@[k]),
            decreases v_nodes_to_reasign@.len() - i,
        {
            let v = v_nodes_to_reasign[i];
            let in_cluster = position(&cluster_v_nodes, &v).is_some();
            if !in_cluster || !self.v_node_has_node(cluster_id, v) {
                proof {
                    let f = self.first_unreplaceable(cluster_id, v_nodes_to_reasign@);
                    assert(!self.replaceable(cluster_id, v_nodes_to_reasign@[i as int]));
                    let ii = i as int;
                    assert(0 <= ii < v_nodes_to_reasign@.len() && !self.replaceable(cluster_id, v_nodes_to_reasign@[ii])
                        && forall|j: int| 0 <= j < ii ==> self.replaceable(cluster_id, v_nodes_to_reasign@[j]));
                    assert(0 <= f < v_nodes_to_reasign@.len() && !self.replaceable(cluster_id, v_nodes_to_reasign@[f])
                        && forall|j: int| 0 <= j < f ==> self.replaceable(cluster_id, v_nodes_to_reasign@[j]));
                    if f < i {
                        assert(false);
                    }
                    if f > i {
                        assert(false);
                    }
                }
                if !in_cluster {
                    assert(!cluster_v_nodes@.contains(v));
                    return Err(Error::VNodeDoesNotExistsInCluster(cluster_id));
                } else {
                    return Err(Error::VNodeIsNotAssignedToNode(cluster_id, v));
                }
            }
            i = i + 1;
        }
        let ghost target = reassign(self.node_lists(), self.assignment(), cluster_id, v_nodes_to_reasign@, new_node_key);
        let mut i: usize = 0;
        assert(v_nodes_to_reasign@.skip(0) =~= v_nodes_to_reasign@);
        while i < v_nodes_to_reasign.len()
            invariant
                i <= v_nodes_to_reasign@.len(),
                forall|k: int| i <= k < v_nodes_to_reasign@.len() ==> self.assignment().contains_key(cv(cluster_id, v_nodes_to_reasign@[k])),
                reassign(self.node_lists(), self.assignment(), cluster_id, v_nodes_to_reasign@.skip(i as int), new_node_key) == target,
                self.cluster_lists() == old(self).cluster_lists(),
            decreases v_nodes_to_reasign@.len() - i,
        {
            let v = v_nodes_to_reasign[i];
            let old_node_key = match self.nodes_map.get(&ClusterVNode { cluster_id, v_node: v }) {
                Some(k) => *k,
                None => {
                    assert(false);
                    return Err(Error::VNodeIsNotAssignedToNode(cluster_id, v));
                },
            };
            let ghost lists0 = self.node_lists();
            let ghost asg0 = self.assignment();
            let mut old_node_v_nodes = self.get_v_nodes_by_node(old_node_key);
            remove_first(&mut old_node_v_nodes, &v);
            self.set_node_list(old_node_key, old_node_v_nodes);
            self.nodes_map.insert(ClusterVNode { cluster_id, v_node: v }, new_node_key);
            proof {
                assert(v_nodes_to_reasign@.skip(i as int)[0] == v);
                assert(v_nodes_to_reasign@.skip(i as int).drop_first() =~= v_nodes_to_reasign@.skip(i + 1));
                assert(lists0.insert(old_node_key, seq_remove_first(list_of(lists0, old_node_key), v)) == self.node_lists());
            }
            i = i + 1;
        }
        assert(v_nodes_to_reasign@.skip(v_nodes_to_reasign@.len() as int) =~= Seq::<VNodeToken>::empty());
        let mut new_node_v_nodes = self.get_v_nodes_by_node(new_node_key);
        extend(&mut new_node_v_nodes, &v_nodes_to_reasign);
        self.set_node_list(new_node_key, new_node_v_nodes);
        Ok(())
    }
}

/// Removing each of `vs` from a list that ends with `vs`, and holds none of
/// them before, gives the list back.
pub proof fn lemma_remove_each_appended(list: Seq<VNodeToken>, vs: Seq<VNodeToken>)
    requires
        forall|i: int| 0 <= i < vs.len() ==> !list.contains(#[trigger] vs[i]),
    ensures
        remove_each(list + vs, vs) == list,
    decreases vs.len(),
{
    if vs.len() == 0 {
        assert(list + vs =~= list);
    } else {
        lemma_remove_first_of_appended(list, vs);
        assert forall|i: int| 0 <= i < vs.drop_first().len() implies !list.contains(#[trigger] vs.drop_first()[i]) by {
            assert(vs.drop_first()[i] == vs[i + 1]);
        }
        lemma_remove_each_appended(list, vs.drop_first());
    }
}

/// A storage node added to a cluster with virtual nodes that nothing serves
/// and that the cluster's list does not hold, then removed, leaves the
/// topology as it was; in between, each of those virtual nodes is served by
/// the added node.
pub proof fn lemma_add_then_remove_node(t: TopologyStore, c: ClusterId, vs: Seq<VNodeToken>, n: NodeKey)
    requires
        !t.conflicts(c, vs, Seq::empty()),
        !t.node_lists().contains_key(n),
        forall|i: int| 0 <= i < vs.len() ==> !t.v_nodes_of_cluster(c).contains(#[trigger] vs[i]),
    ensures
        ({
            let asg = assign_all(t.assignment(), c, vs, n);
            &&& forall|i: int| 0 <= i < vs.len() ==> #[trigger] asg.contains_key(cv(c, vs[i])) && asg[cv(c, vs[i])] == n
            &&& unassign_all(asg, c, vs) == t.assignment()
            &&& remove_each(t.v_nodes_of_cluster(c) + vs, vs) == t.v_nodes_of_cluster(c)
            &&& t.node_lists().insert(n, vs).remove(n) == t.node_lists()
        }),
{
    let asg = assign_all(t.assignment(), c, vs, n);
    assert forall|i: int| 0 <= i < vs.len() implies #[trigger] asg.contains_key(cv(c, vs[i])) && asg[cv(c, vs[i])] == n by {
        assert(vs.contains(vs[i]));
    }
    assert forall|k: ClusterVNode| t.assignment().contains_key(k) implies !(k.cluster_id == c && vs.contains(k.v_node)) by {
        if k.cluster_id == c && vs.contains(k.v_node) {
            let i = choose|i: int| 0 <= i < vs.len() && vs[i] == k.v_node;
            assert(!(t.assignment().contains_key(cv(c, vs[i])) && !Seq::<VNodeToken>::empty().contains(vs[i])));
        }
    }
    assert(unassign_all(asg, c, vs) =~= t.assignment());
    lemma_remove_each_appended(t.v_nodes_of_cluster(c), vs);
    assert(t.node_lists().insert(n, vs).remove(n) =~= t.node_lists());
}

} // verus!
