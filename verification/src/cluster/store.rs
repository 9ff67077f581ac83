//! The store where to create and access Clusters by ID.

use vstd::prelude::*;
use crate::{AccountId, Error, Result, text_len};
use crate::cash::Cash;
use crate::keymap::{KeyMap, lemma_remove_first_no_duplicates, remove_first, seq_remove_first};
use crate::node::entity::{NodeKey, Resource};
use crate::cdn_node::entity::CdnNodeKey;
use super::entity::{Cluster, ClusterId, ClusterParams, ClusterView, CLUSTER_PARAMS_MAX_LEN, CDN_USD_PER_GB};

verus! {

pub const MAX_CLUSTERS_LEN_IN_VEC: usize = 3900;

pub struct ClusterStore {
    pub next_cluster_id: ClusterId,
    pub clusters: KeyMap<ClusterId, Cluster>,
    pub clusters_ids: Vec<ClusterId>,
}

/// The cluster that `Cluster::new` builds.
pub open spec fn new_cluster_view(manager_id: AccountId, cluster_params: ClusterParams, resource_per_v_node: Resource) -> ClusterView {
    ClusterView {
        manager_id,
        cluster_params,
        nodes_keys: Seq::<NodeKey>::empty(),
        resource_per_v_node,
        resource_used: 0,
        revenues: Cash(0),
        total_rent: 0,
        cdn_nodes_keys: Seq::<CdnNodeKey>::empty(),
        cdn_revenues: Cash(0),
        cdn_usd_per_gb: CDN_USD_PER_GB,
    }
}

impl ClusterStore {
    /// The clusters by id, as values.
    pub open spec fn view(&self) -> Map<ClusterId, ClusterView> {
        self.clusters@.map_values(|c: Cluster| c@)
    }

    /// The list of cluster ids names each cluster once, and nothing else;
    /// every cluster id is below the next one to be given out.
    pub open spec fn wf(&self) -> bool {
        &&& self.clusters_ids@.no_duplicates()
        &&& forall|k: ClusterId| #[trigger] self@.contains_key(k) <==> self.clusters_ids@.contains(k)
        &&& forall|k: ClusterId| #[trigger] self@.contains_key(k) ==> k < self.next_cluster_id
    }

    pub fn new() -> (s: ClusterStore)
        ensures
            s.wf(),
            s@ == Map::<ClusterId, ClusterView>::empty(),
            s.next_cluster_id == 0,
            s.clusters_ids@ == Seq::<ClusterId>::empty(),
    {
        let s = ClusterStore { next_cluster_id: 0, clusters: KeyMap::new(), clusters_ids: Vec::new() };
        assert(s@ =~= Map::<ClusterId, ClusterView>::empty());
        s
    }

    pub fn create(&mut self, manager_id: AccountId, cluster_params: ClusterParams, resource_per_v_node: Resource) -> (r: Result<ClusterId>)
        requires
            old(self).next_cluster_id < u32::MAX,
        ensures
            old(self).clusters_ids@.len() >= MAX_CLUSTERS_LEN_IN_VEC ==> r == Err::<ClusterId, Error>(Error::NodesSizeExceedsLimit)
                && *final(self) == *old(self),
            old(self).clusters_ids@.len() < MAX_CLUSTERS_LEN_IN_VEC ==> final(self).next_cluster_id == old(self).next_cluster_id + 1,
            old(self).clusters_ids@.len() < MAX_CLUSTERS_LEN_IN_VEC && text_len(cluster_params) > CLUSTER_PARAMS_MAX_LEN
                ==> r == Err::<ClusterId, Error>(Error::ParamsSizeExceedsLimit)
                && final(self)@ == old(self)@ && final(self).clusters_ids@ == old(self).clusters_ids@,
            old(self).clusters_ids@.len() < MAX_CLUSTERS_LEN_IN_VEC && text_len(cluster_params) <= CLUSTER_PARAMS_MAX_LEN
                ==> r == Ok::<ClusterId, Error>(old(self).next_cluster_id)
                && final(self)@ == old(self)@.insert(old(self).next_cluster_id, new_cluster_view(manager_id, cluster_params, resource_per_v_node))
                && final(self).clusters_ids@ == old(self).clusters_ids@.push(old(self).next_cluster_id),
            old(self).wf() ==> final(self).wf(),
    {
        if self.clusters_ids.len() >= MAX_CLUSTERS_LEN_IN_VEC {
            return Err(Error::NodesSizeExceedsLimit);
        }
        let cluster_id = self.next_cluster_id;
        self.next_cluster_id = self.next_cluster_id + 1;
        let ghost before = self@;
        let cluster = match Cluster::new(manager_id, cluster_params, resource_per_v_node) {
            Ok(cluster) => cluster,
            Err(e) => {
                assert(self@ =~= old(self)@);
                assert(forall|k: ClusterId| #[trigger] self@.contains_key(k) ==> old(self)@.contains_key(k));
                return Err(e);
            },
        };
        let ghost cv = cluster@;
        self.clusters.insert(cluster_id, cluster);
        assert(self@ =~= before.insert(cluster_id, cv));
        self.clusters_ids.push(cluster_id);
        proof {
            if old(self).wf() {
                assert(!old(self)@.contains_key(cluster_id));
                assert(!old(self).clusters_ids@.contains(cluster_id));
                assert forall|i: int, j: int| 0 <= i < j < self.clusters_ids@.len() implies
                    self.clusters_ids@[i] != self.clusters_ids@[j] by {
                    if j == self.clusters_ids@.len() - 1 {
                        assert(old(self).clusters_ids@[i] == self.clusters_ids@[i]);
                    }
                }
                assert forall|k: ClusterId| #[trigger] self@.contains_key(k) <==> self.clusters_ids@.contains(k) by {
                    if k != cluster_id && self.clusters_ids@.contains(k) {
                        let i = self.clusters_ids@.index_of(k);
                        assert(old(self).clusters_ids@[i] == k);
                    }
                    if old(self).clusters_ids@.contains(k) {
                        let i = old(self).clusters_ids@.index_of(k);
                        assert(self.clusters_ids@[i] == k);
                    }
                    assert(self.clusters_ids@[old(self).clusters_ids@.len() as int] == cluster_id);
                }
            }
        }
        Ok(cluster_id)
    }

    pub fn get(&self, cluster_id: ClusterId) -> (r: Result<Cluster>)
        ensures
            self@.contains_key(cluster_id) ==> r is Ok && r->Ok_0@ == self@[cluster_id],
            !self@.contains_key(cluster_id) ==> r == Err::<Cluster, Error>(Error::ClusterDoesNotExist),
    {
        match self.clusters.get(&cluster_id) {
            Some(cluster) => Ok(cluster.clone()),
            None => Err(Error::ClusterDoesNotExist),
        }
    }

    pub fn update(&mut self, cluster_id: ClusterId, cluster: &Cluster) -> (r: Result<()>)
        ensures
            old(self)@.contains_key(cluster_id) ==> r == Ok::<(), Error>(()) && final(self)@ == old(self)@.insert(cluster_id, cluster@),
            !old(self)@.contains_key(cluster_id) ==> r == Err::<(), Error>(Error::ClusterDoesNotExist) && final(self)@ == old(self)@,
            final(self).next_cluster_id == old(self).next_cluster_id,
            final(self).clusters_ids@ == old(self).clusters_ids@,
            old(self).wf() ==> final(self).wf(),
    {
        if !self.clusters.contains(&cluster_id) {
            Err(Error::ClusterDoesNotExist)
        } else {
            let c = cluster.clone();
            self.clusters.insert(cluster_id, c);
            assert(self@ =~= old(self)@.insert(cluster_id, cluster@));
            Ok(())
        }
    }

    pub fn remove(&mut self, cluster_id: ClusterId)
        ensures
            final(self)@ == old(self)@.remove(cluster_id),
            final(self).clusters_ids@ == seq_remove_first(old(self).clusters_ids@, cluster_id),
            final(self).next_cluster_id == old(self).next_cluster_id,
            old(self).wf() ==> final(self).wf(),
    {
        self.clusters.remove(&cluster_id);
        assert(self@ =~= old(self)@.remove(cluster_id));
        remove_first(&mut self.clusters_ids, &cluster_id);
        proof {
            if old(self).wf() {
                lemma_remove_first_no_duplicates(old(self).clusters_ids@, cluster_id);
            }
        }
    }
}

} // verus!
