//! The public interface to manage Clusters.

use vstd::prelude::*;
use crate::{
    AccountId, Balance, BASIS_POINTS, DdcBucket, Error, Event, Part, Result, Transfer, lemma_total_value_concat,
    lemma_total_value_sent, sent, text_len, total_value,
};
use crate::protocol::store::NetworkFeeConfig;
use crate::bucket::entity::BucketId;
use crate::protocol::store::ProtocolStore;
use crate::cash::{Cash, Payable};
use crate::protocol::messages::fee_of;
use crate::cdn_node::entity::{CdnNode, CdnNodeKey};
use crate::keymap::seq_remove_first;
use crate::node::entity::{Node, NodeKey, NodeStatusInCluster, Resource};
use crate::node::messages::passes;
use crate::perm::entity::{Permission, perm_key};
use crate::topology::store::{ClusterVNode, VNodeToken, assign_all, cv, list_of, reassign, remove_each, unassign_all};
use super::entity::{
    ClusterId, ClusterInfo, ClusterParams, ClusterView, CDN_USD_PER_GB, CLUSTER_PARAMS_MAX_LEN, MAX_CLUSTER_CDN_NODES_LEN_IN_VEC,
    MAX_CLUSTER_NODES_LEN_IN_VEC,
};
use super::store::{MAX_CLUSTERS_LEN_IN_VEC, new_cluster_view};
use super::settlement::{
    CdnSettlement, account_charges, charge_accounts, lemma_charge_accounts_keeps_accounts, charges_fit, deduct_buckets, deductions_fit, priceable,
    settle_cdn_nodes, settlement_fits, undistributed_total, pay_out_cdn_nodes, lemma_pay_out_conserves,
    lemma_deduct_buckets_keeps_ids,
};
use super::entity::KB_PER_GB;

verus! {

/// The storage nodes after each virtual node of `vs` in cluster `c`, in
/// order, reserves `amount` on the node serving it, and the outcome: the
/// first virtual node that is not served, whose node is missing or lacks the
/// resource stops it with its error, the reservations before it made.
pub open spec fn reserve_on_v_nodes(
    nodes: Map<NodeKey, Node>,
    asg: Map<ClusterVNode, NodeKey>,
    c: ClusterId,
    vs: Seq<VNodeToken>,
    amount: Resource,
) -> (Result<()>, Map<NodeKey, Node>)
    decreases vs.len(),
{
    if vs.len() == 0 {
        (Ok(()), nodes)
    } else if !asg.contains_key(cv(c, vs[0])) {
        (Err(Error::VNodeIsNotAssignedToNode(c, vs[0])), nodes)
    } else {
        let k = asg[cv(c, vs[0])];
        if !nodes.contains_key(k) {
            (Err(Error::NodeDoesNotExist), nodes)
        } else if nodes[k].free_resource < amount {
            (Err(Error::InsufficientNodeResources), nodes)
        } else {
            reserve_on_v_nodes(
                nodes.insert(k, Node { free_resource: (nodes[k].free_resource - amount) as u32, ..nodes[k] }),
                asg,
                c,
                vs.drop_first(),
                amount,
            )
        }
    }
}

/// Whether each of `keys` has a record in `nodes`.
pub open spec fn all_known<V>(nodes: Map<NodeKey, V>, keys: Seq<NodeKey>) -> bool {
    forall|i: int| 0 <= i < keys.len() ==> nodes.contains_key(#[trigger] keys[i])
}

/// The position of the first of `keys` without a record in `nodes`.
pub open spec fn first_unknown<V>(nodes: Map<NodeKey, V>, keys: Seq<NodeKey>) -> int {
    choose|k: int| 0 <= k < keys.len() && !nodes.contains_key(keys[k])
        && forall|j: int| 0 <= j < k ==> nodes.contains_key(keys[j])
}

proof fn lemma_first_unknown<V>(nodes: Map<NodeKey, V>, keys: Seq<NodeKey>, k: int)
    requires
        0 <= k < keys.len(),
        !nodes.contains_key(keys[k]),
        forall|j: int| 0 <= j < k ==> nodes.contains_key(keys[j]),
    ensures
        first_unknown(nodes, keys) == k,
{
    let f = first_unknown(nodes, keys);
    assert(0 <= f < keys.len() && !nodes.contains_key(keys[f]) && forall|j: int| 0 <= j < f ==> nodes.contains_key(keys[j]));
    if f < k {
        assert(nodes.contains_key(keys[f]));
    }
    if f > k {
        assert(nodes.contains_key(keys[k]));
    }
}

/// The transfers of `value` to the provider of each node of `keys`, in order;
/// none when the value is zero.
pub open spec fn provider_payouts(nodes: Map<NodeKey, Node>, keys: Seq<NodeKey>, value: Balance) -> Seq<Transfer> {
    if value == 0 {
        Seq::empty()
    } else {
        Seq::new(keys.len(), |i: int| Transfer { destination: nodes[keys[i]].provider_id, value })
    }
}

/// The events that announce a payment to the provider of each node of `keys`.
pub open spec fn revenue_events(nodes: Map<NodeKey, Node>, keys: Seq<NodeKey>, cluster_id: ClusterId) -> Seq<Event> {
    Seq::new(keys.len(), |i: int| Event::ClusterDistributeRevenues { cluster_id, provider_id: nodes[keys[i]].provider_id })
}

/// The revenues left after the network fee and then the management fee are
/// taken from `revenues`, and whether each fee could be taken.
pub open spec fn after_fees(revenues: Balance, network_fee_bp: Balance, management_fee_bp: Balance) -> (int, int, bool, bool) {
    let f1 = fee_of(revenues, network_fee_bp);
    let r1 = revenues - f1;
    let f2 = fee_of(r1 as Balance, management_fee_bp);
    (f1, f2, f1 <= revenues, f1 <= revenues && f2 <= r1)
}

/// Paying the same value to the provider of each of `keys` sends that value
/// times the number of keys.
pub proof fn lemma_provider_payouts_total(nodes: Map<NodeKey, Node>, keys: Seq<NodeKey>, value: Balance)
    ensures
        total_value(provider_payouts(nodes, keys, value)) == value * keys.len(),
    decreases keys.len(),
{
    if value == 0 {
    } else if keys.len() == 0 {
    } else {
        lemma_provider_payouts_total(nodes, keys.drop_last(), value);
        assert(provider_payouts(nodes, keys, value).drop_last() =~= provider_payouts(nodes, keys.drop_last(), value));
        assert(value * keys.len() == value * keys.drop_last().len() + value) by (nonlinear_arith)
            requires
                keys.drop_last().len() + 1 == keys.len(),
        ;
    }
}

/// Distributing a cluster's revenues neither creates nor loses value: the
/// fees and the providers' shares that are sent, plus what stays in the
/// cluster, are the revenues before.
pub proof fn lemma_distribution_conserves(
    transfers: Seq<Transfer>,
    c: ClusterView,
    cfg: NetworkFeeConfig,
    nodes: Map<NodeKey, Node>,
)
    requires
        after_fees(c.revenues.0, cfg.network_fee_bp, cfg.cluster_management_fee_bp).3,
        c.nodes_keys.len() > 0,
    ensures
        ({
            let (f1, f2, ok1, ok2) = after_fees(c.revenues.0, cfg.network_fee_bp, cfg.cluster_management_fee_bp);
            let left = c.revenues.0 - f1 - f2;
            let n = c.nodes_keys.len() as int;
            let per_share = left / n;
            let t2 = sent(sent(transfers, cfg.network_fee_destination, f1 as u128), c.manager_id, f2 as u128);
            total_value(t2 + provider_payouts(nodes, c.nodes_keys, per_share as u128)) - total_value(transfers)
                + (left - per_share * n) == c.revenues.0
        }),
{
    let (f1, f2, ok1, ok2) = after_fees(c.revenues.0, cfg.network_fee_bp, cfg.cluster_management_fee_bp);
    let left = c.revenues.0 - f1 - f2;
    let n = c.nodes_keys.len() as int;
    let per_share = left / n;
    let r1 = c.revenues.0 - f1;
    assert(f1 >= 0) by (nonlinear_arith)
        requires
            f1 == c.revenues.0 * cfg.network_fee_bp / (BASIS_POINTS as int),
    ;
    assert(f2 >= 0) by (nonlinear_arith)
        requires
            f2 == (r1 as Balance) * cfg.cluster_management_fee_bp / (BASIS_POINTS as int),
    ;
    assert(0 <= per_share <= left) by (nonlinear_arith)
        requires
            per_share == left / n,
            n > 0,
            left >= 0,
    ;
    let t1 = sent(transfers, cfg.network_fee_destination, f1 as u128);
    let t2 = sent(t1, c.manager_id, f2 as u128);
    lemma_total_value_sent(transfers, cfg.network_fee_destination, f1 as u128);
    lemma_total_value_sent(t1, c.manager_id, f2 as u128);
    lemma_total_value_concat(t2, provider_payouts(nodes, c.nodes_keys, per_share as u128));
    lemma_provider_payouts_total(nodes, c.nodes_keys, per_share as u128);
}

/// Distributing a cluster's CDN revenues among CDN nodes with distinct keys
/// neither creates nor loses value: the fees and the payments that are
/// sent, plus what stays in the cluster, are the CDN revenues before.
pub proof fn lemma_cdn_distribution_conserves(
    transfers: Seq<Transfer>,
    c: ClusterView,
    cfg: NetworkFeeConfig,
    cdn_nodes: Map<CdnNodeKey, CdnNode>,
)
    requires
        after_fees(c.cdn_revenues.0, cfg.network_fee_bp, cfg.cluster_management_fee_bp).3,
        all_known(cdn_nodes, c.cdn_nodes_keys),
        c.cdn_nodes_keys.no_duplicates(),
    ensures
        ({
            let (f1, f2, ok1, ok2) = after_fees(c.cdn_revenues.0, cfg.network_fee_bp, cfg.cluster_management_fee_bp);
            let left = c.cdn_revenues.0 - f1 - f2;
            let total = undistributed_total(cdn_nodes, c.cdn_nodes_keys);
            let t2 = sent(sent(transfers, cfg.network_fee_destination, f1 as u128), c.manager_id, f2 as u128);
            total_value(pay_out_cdn_nodes(cdn_nodes, c.cdn_nodes_keys, t2, Seq::empty()).1) - total_value(transfers)
                + (left - total) == c.cdn_revenues.0
        }),
{
    let (f1, f2, ok1, ok2) = after_fees(c.cdn_revenues.0, cfg.network_fee_bp, cfg.cluster_management_fee_bp);
    let r1 = c.cdn_revenues.0 - f1;
    assert(f1 >= 0) by (nonlinear_arith)
        requires
            f1 == c.cdn_revenues.0 * cfg.network_fee_bp / (BASIS_POINTS as int),
    ;
    assert(f2 >= 0) by (nonlinear_arith)
        requires
            f2 == (r1 as Balance) * cfg.cluster_management_fee_bp / (BASIS_POINTS as int),
    ;
    let t1 = sent(transfers, cfg.network_fee_destination, f1 as u128);
    let t2 = sent(t1, c.manager_id, f2 as u128);
    lemma_total_value_sent(transfers, cfg.network_fee_destination, f1 as u128);
    lemma_total_value_sent(t1, c.manager_id, f2 as u128);
    lemma_pay_out_conserves(cdn_nodes, c.cdn_nodes_keys, t2, Seq::empty());
}

/// How many of `count` reservations of `each`, made one after the other,
/// fit in `free`.
pub open spec fn affordable(free: int, each: int, count: int) -> int {
    if each == 0 || count * each <= free {
        count
    } else {
        free / each
    }
}

/// The storage nodes after each virtual node of `vs` in cluster `c`, in
/// order, is handed over to `new_key`: the node serving it gets `rpv` back,
/// stored at once, and the new node, held as `new_node`, reserves `rpv`, then
/// is stored. The first virtual node that is not served, whose node is
/// missing, or that the new node cannot take, stops it with its error.
pub open spec fn hand_over(
    nodes: Map<NodeKey, Node>,
    new_node: Node,
    asg: Map<ClusterVNode, NodeKey>,
    c: ClusterId,
    vs: Seq<VNodeToken>,
    new_key: NodeKey,
    rpv: Resource,
) -> (Result<()>, Map<NodeKey, Node>)
    decreases vs.len(),
{
    if vs.len() == 0 {
        (Ok(()), nodes)
    } else if !asg.contains_key(cv(c, vs[0])) {
        (Err(Error::VNodeIsNotAssignedToNode(c, vs[0])), nodes)
    } else {
        let k = asg[cv(c, vs[0])];
        if !nodes.contains_key(k) {
            (Err(Error::NodeDoesNotExist), nodes)
        } else {
            let released = nodes.insert(k, Node { free_resource: (nodes[k].free_resource + rpv) as u32, ..nodes[k] });
            if new_node.free_resource < rpv {
                (Err(Error::InsufficientNodeResources), released)
            } else {
                let taken = Node { free_resource: (new_node.free_resource - rpv) as u32, ..new_node };
                hand_over(released.insert(new_key, taken), taken, asg, c, vs.drop_first(), new_key, rpv)
            }
        }
    }
}

/// Whether no release during `hand_over` overflows a node's free resource.
pub open spec fn hand_over_fits(
    nodes: Map<NodeKey, Node>,
    new_node: Node,
    asg: Map<ClusterVNode, NodeKey>,
    c: ClusterId,
    vs: Seq<VNodeToken>,
    new_key: NodeKey,
    rpv: Resource,
) -> bool
    decreases vs.len(),
{
    if vs.len() == 0 || !asg.contains_key(cv(c, vs[0])) || !nodes.contains_key(asg[cv(c, vs[0])]) {
        true
    } else {
        let k = asg[cv(c, vs[0])];
        let released = nodes.insert(k, Node { free_resource: (nodes[k].free_resource + rpv) as u32, ..nodes[k] });
        let taken = Node { free_resource: (new_node.free_resource - rpv) as u32, ..new_node };
        &&& nodes[k].free_resource + rpv <= u32::MAX
        &&& new_node.free_resource >= rpv ==> hand_over_fits(released.insert(new_key, taken), taken, asg, c, vs.drop_first(), new_key, rpv)
    }
}

proof fn lemma_affordable(free: int, each: int, count: int, i: int)
    requires
        0 <= free,
        0 <= each,
        0 <= i < count,
        (i + 1) * each <= free,
    ensures
        i + 1 <= affordable(free, each, count),
{
    if each != 0 && count * each > free {
        vstd::arithmetic::div_mod::lemma_div_is_ordered((i + 1) * each, free, each);
        vstd::arithmetic::div_mod::lemma_div_multiples_vanish(i + 1, each);
        assert((i + 1) * each == each * (i + 1)) by (nonlinear_arith);
    }
}

impl DdcBucket {
    /// The part of the state that crediting CDN nodes changes, as it is now.
    pub open spec fn cdn_settlement_start(&self) -> CdnSettlement {
        CdnSettlement {
            cdn_nodes: self.cdn_nodes.cdn_nodes@,
            protocol_revenues: self.protocol.revenues.0 as int,
            validated: self.committer.validated_commits@,
            cluster_payment: 0,
        }
    }

    /// The era and end timestamp recorded when a commit of `era` is validated.
    pub open spec fn validated_commit(&self, era: u64) -> (u64, u64) {
        (era, (self.committer.era_settings.start + self.committer.era_settings.interval * (era + 1)) as u64)
    }

    /// Whether the end timestamp of `era` can be computed.
    pub open spec fn validated_commit_fits(&self, era: u64) -> bool {
        &&& era + 1 <= u64::MAX
        &&& self.committer.era_settings.start + self.committer.era_settings.interval * (era + 1) <= u64::MAX
    }

    /// Why adding a storage node to a cluster is refused before anything is
    /// written, if it is.
    pub open spec fn add_node_check(&self, cluster_id: ClusterId, node_key: NodeKey) -> Result<()> {
        let ns = self.nodes.nodes@;
        if !ns.contains_key(node_key) {
            Err(Error::NodeDoesNotExist)
        } else if ns[node_key].cluster_id is Some {
            Err(Error::NodeIsAddedToCluster(ns[node_key].cluster_id->0))
        } else if !self.perms.holds(self.caller(), Permission::ClusterManagerTrustedBy(ns[node_key].provider_id)) {
            Err(Error::OnlyTrustedClusterManager)
        } else {
            self.manager_check(cluster_id)
        }
    }

    /// Why removing a storage node from a cluster is refused before anything
    /// is written, if it is.
    pub open spec fn remove_node_check(&self, cluster_id: ClusterId, node_key: NodeKey) -> Result<()> {
        let ns = self.nodes.nodes@;
        let cs = self.clusters@;
        if !ns.contains_key(node_key) {
            Err(Error::NodeDoesNotExist)
        } else if !cs.contains_key(cluster_id) {
            Err(Error::ClusterDoesNotExist)
        } else if cs[cluster_id].manager_id != self.caller() && ns[node_key].provider_id != self.caller() {
            Err(Error::OnlyClusterManagerOrNodeProvider)
        } else if ns[node_key].cluster_id is None {
            Err(Error::NodeIsNotAddedToCluster(cluster_id))
        } else {
            Ok(())
        }
    }

    /// Why re-setting or handing over the virtual nodes of a storage node is
    /// refused before anything is written, if it is.
    pub open spec fn node_in_cluster_check(&self, cluster_id: ClusterId, node_key: NodeKey) -> Result<()> {
        let ns = self.nodes.nodes@;
        let cs = self.clusters@;
        if !cs.contains_key(cluster_id) {
            Err(Error::ClusterDoesNotExist)
        } else if !ns.contains_key(node_key) {
            Err(Error::NodeDoesNotExist)
        } else if ns[node_key].cluster_id is None {
            Err(Error::NodeIsNotAddedToCluster(cluster_id))
        } else if cs[cluster_id].manager_id != self.caller() {
            Err(Error::OnlyClusterManager)
        } else {
            Ok(())
        }
    }

    /// The ids from `id` on, below `end`, of the clusters whose manager
    /// passes the filter; the first id without a cluster ends the list.
    pub open spec fn listed_clusters(&self, id: int, end: int, filter: Option<AccountId>) -> Seq<ClusterId>
        decreases end - id,
    {
        if id >= end || !self.clusters@.contains_key(id as ClusterId) {
            Seq::empty()
        } else {
            let rest = self.listed_clusters(id + 1, end, filter);
            if passes(filter, self.clusters@[id as ClusterId].manager_id) {
                seq![id as ClusterId] + rest
            } else {
                rest
            }
        }
    }

    /// Why a message that only the cluster's manager may send is refused, if it is.
    pub open spec fn manager_check(&self, cluster_id: ClusterId) -> Result<()> {
        if !self.clusters@.contains_key(cluster_id) {
            Err(Error::ClusterDoesNotExist)
        } else if self.clusters@[cluster_id].manager_id != self.caller() {
            Err(Error::OnlyClusterManager)
        } else {
            Ok(())
        }
    }

    /// Why adding a CDN node to a cluster is refused before anything is
    /// written, if it is.
    pub open spec fn add_cdn_node_check(&self, cluster_id: ClusterId, cdn_node_key: CdnNodeKey) -> Result<()> {
        let ns = self.cdn_nodes.cdn_nodes@;
        if !ns.contains_key(cdn_node_key) {
            Err(Error::CdnNodeDoesNotExist)
        } else if ns[cdn_node_key].cluster_id is Some {
            Err(Error::CdnNodeIsAddedToCluster(ns[cdn_node_key].cluster_id->0))
        } else if !self.perms.holds(self.caller(), Permission::ClusterManagerTrustedBy(ns[cdn_node_key].provider_id)) {
            Err(Error::OnlyTrustedClusterManager)
        } else {
            self.manager_check(cluster_id)
        }
    }

    /// Why removing a CDN node from a cluster is refused, if it is.
    pub open spec fn remove_cdn_node_check(&self, cluster_id: ClusterId, cdn_node_key: CdnNodeKey) -> Result<()> {
        let ns = self.cdn_nodes.cdn_nodes@;
        let cs = self.clusters@;
        if !ns.contains_key(cdn_node_key) {
            Err(Error::CdnNodeDoesNotExist)
        } else if !cs.contains_key(cluster_id) {
            Err(Error::ClusterDoesNotExist)
        } else if cs[cluster_id].manager_id != self.caller() && ns[cdn_node_key].provider_id != self.caller() {
            Err(Error::OnlyClusterManagerOrCdnNodeProvider)
        } else if ns[cdn_node_key].cluster_id is None {
            Err(Error::CdnNodeIsNotAddedToCluster(cluster_id))
        } else {
            Ok(())
        }
    }

    /// Creates a cluster managed by the caller, with an empty topology.
    pub fn message_cluster_create(&mut self, cluster_params: ClusterParams) -> (r: Result<ClusterId>)
        requires
            old(self).clusters.next_cluster_id < u32::MAX,
        ensures
            ({
                let cs = old(self).clusters;
                let id = cs.next_cluster_id;
                let caller = old(self).caller();
                let topo = old(self).topology;
                &&& cs.clusters_ids@.len() >= MAX_CLUSTERS_LEN_IN_VEC ==> r == Err::<ClusterId, Error>(Error::NodesSizeExceedsLimit)
                    && *final(self) == *old(self)
                &&& cs.clusters_ids@.len() < MAX_CLUSTERS_LEN_IN_VEC && text_len(cluster_params) > CLUSTER_PARAMS_MAX_LEN
                    ==> r == Err::<ClusterId, Error>(Error::ParamsSizeExceedsLimit)
                    && final(self).clusters@ == cs@ && final(self).clusters.next_cluster_id == id + 1
                    && final(self).clusters.clusters_ids@ == cs.clusters_ids@
                    && final(self).topology == topo && final(self).events == old(self).events
                &&& cs.clusters_ids@.len() < MAX_CLUSTERS_LEN_IN_VEC && text_len(cluster_params) <= CLUSTER_PARAMS_MAX_LEN ==> {
                    &&& final(self).clusters@ == cs@.insert(id, new_cluster_view(caller, cluster_params, 0))
                    &&& final(self).clusters.next_cluster_id == id + 1
                    &&& final(self).clusters.clusters_ids@ == cs.clusters_ids@.push(id)
                    &&& topo.cluster_lists().contains_key(id) ==> r == Err::<ClusterId, Error>(Error::TopologyAlreadyExists)
                        && final(self).topology.cluster_lists() == topo.cluster_lists()
                        && final(self).events == old(self).events
                    &&& !topo.cluster_lists().contains_key(id) ==> r == Ok::<ClusterId, Error>(id)
                        && final(self).topology.cluster_lists() == topo.cluster_lists().insert(id, Seq::empty())
                        && final(self).events@ == old(self).events@.push(Event::ClusterCreated {
                            cluster_id: id,
                            manager_id: caller,
                            cluster_params,
                        })
                }
            }),
            final(self).topology.node_lists() == old(self).topology.node_lists(),
            final(self).topology.assignment() == old(self).topology.assignment(),
            final(self).only_changed(old(self), set![Part::Clusters, Part::Topology, Part::Events]),
            old(self).clusters.wf() ==> final(self).clusters.wf(),
    {
        let caller = self.env.caller;
        let cluster_id = match self.clusters.create(caller, cluster_params.clone(), 0) {
            Ok(id) => id,
            Err(e) => return Err(e),
        };
        match self.topology.create_topology(cluster_id) {
            Ok(()) => {},
            Err(e) => return Err(e),
        }
        self.events.push(Event::ClusterCreated { cluster_id, manager_id: caller, cluster_params });
        Ok(cluster_id)
    }

    /// Adds a storage node, whose provider trusts the caller, to a cluster
    /// that the caller manages, serving the given virtual nodes. The node is
    /// stored with its cluster set before the virtual nodes are reserved, and
    /// the cluster's rent rises by the node's rent for each virtual node.
    #[verifier::loop_isolation(false)]
    pub fn message_cluster_add_node(&mut self, cluster_id: ClusterId, node_key: NodeKey, v_nodes: Vec<VNodeToken>) -> (r: Result<()>)
        requires
            ({
                let n = old(self).nodes.nodes@[node_key];
                let c = old(self).clusters@[cluster_id];
                old(self).add_node_check(cluster_id, node_key) is Ok && c.nodes_keys.len() < MAX_CLUSTER_NODES_LEN_IN_VEC
                    ==> c.total_rent + affordable(n.free_resource as int, c.resource_per_v_node as int, v_nodes@.len() as int)
                    * n.rent_v_node_per_month <= u128::MAX
            }),
        ensures
            ({
                let ns = old(self).nodes.nodes@;
                let n = ns[node_key];
                let c = old(self).clusters@[cluster_id];
                let m = v_nodes@.len();
                let check = old(self).add_node_check(cluster_id, node_key);
                let topo = old(self).topology;
                &&& check is Err ==> r == check && *final(self) == *old(self)
                &&& check is Ok ==> final(self).nodes.nodes@ == ns.insert(node_key, Node {
                    cluster_id: Some(cluster_id),
                    status_in_cluster: Some(NodeStatusInCluster::ADDING),
                    ..n
                }) && final(self).nodes.keys@ == old(self).nodes.keys@
                &&& check is Ok && (c.nodes_keys.len() >= MAX_CLUSTER_NODES_LEN_IN_VEC || m * c.resource_per_v_node > n.free_resource)
                    ==> final(self).clusters == old(self).clusters && final(self).topology == topo
                    && final(self).events == old(self).events
                    && r == Err::<(), Error>(
                        if c.nodes_keys.len() >= MAX_CLUSTER_NODES_LEN_IN_VEC {
                            Error::NodesSizeExceedsLimit
                        } else {
                            Error::InsufficientNodeResources
                        },
                    )
                &&& check is Ok && c.nodes_keys.len() < MAX_CLUSTER_NODES_LEN_IN_VEC && m * c.resource_per_v_node <= n.free_resource ==> {
                    &&& final(self).clusters@ == old(self).clusters@.insert(
                        cluster_id,
                        ClusterView {
                            nodes_keys: c.nodes_keys.push(node_key),
                            total_rent: (c.total_rent + m * n.rent_v_node_per_month) as u128,
                            ..c
                        },
                    )
                    &&& final(self).clusters.next_cluster_id == old(self).clusters.next_cluster_id
                    &&& final(self).clusters.clusters_ids@ == old(self).clusters.clusters_ids@
                    &&& topo.conflicts(cluster_id, v_nodes@, Seq::empty()) ==> r == Err::<(), Error>(
                        Error::VNodeIsAlreadyAssignedToNode(node_key),
                    ) && final(self).topology == topo && final(self).events == old(self).events
                    &&& !topo.conflicts(cluster_id, v_nodes@, Seq::empty()) ==> r == Ok::<(), Error>(())
                        && final(self).topology.assignment() == assign_all(topo.assignment(), cluster_id, v_nodes@, node_key)
                        && final(self).topology.cluster_lists() == topo.cluster_lists().insert(
                            cluster_id,
                            topo.v_nodes_of_cluster(cluster_id) + v_nodes@,
                        )
                        && final(self).topology.node_lists() == topo.node_lists().insert(node_key, v_nodes@)
                        && final(self).events@ == old(self).events@.push(Event::ClusterNodeAdded { cluster_id, node_key })
                }
            }),
            old(self).nodes.wf() ==> final(self).nodes.wf(),
            final(self).only_changed(old(self), set![Part::Nodes, Part::Clusters, Part::Topology, Part::Events]),
            old(self).clusters.wf() ==> final(self).clusters.wf(),
    {
        let caller = self.env.caller;
        let mut node = match self.nodes.get(node_key) {
            Ok(n) => n,
            Err(e) => return Err(e),
        };
        match node.only_without_cluster() {
            Ok(()) => {},
            Err(e) => return Err(e),
        }
        match self.only_trusted_cluster_manager(node.provider_id) {
            Ok(_) => {},
            Err(e) => return Err(e),
        }
        let mut cluster = match self.clusters.get(cluster_id) {
            Ok(c) => c,
            Err(e) => return Err(e),
        };
        match cluster.only_manager(caller) {
            Ok(()) => {},
            Err(e) => return Err(e),
        }
        node.set_cluster(cluster_id, NodeStatusInCluster::ADDING);
        match self.nodes.update(node_key, &node) {
            Ok(()) => {},
            Err(e) => return Err(e),
        }
        match cluster.add_node(node_key) {
            Ok(()) => {},
            Err(e) => return Err(e),
        }
        let ghost n0 = node;
        let ghost c0 = cluster@;
        let ghost m = v_nodes@.len() as int;
        let rpv = cluster.resource_per_v_node;
        let mut i: usize = 0;
        while i < v_nodes.len()
            invariant
                i <= m,
                m == v_nodes@.len(),
                rpv == c0.resource_per_v_node,
                i * rpv <= n0.free_resource,
                i <= affordable(n0.free_resource as int, rpv as int, m),
                node == (Node { free_resource: (n0.free_resource - i * rpv) as u32, ..n0 }),
                cluster@ == (ClusterView { total_rent: (c0.total_rent + i * n0.rent_v_node_per_month) as u128, ..c0 }),
            decreases m - i,
        {
            match node.reserve_resource(rpv) {
                Ok(()) => {},
                Err(e) => {
                    assert((i + 1) * rpv <= m * rpv) by (nonlinear_arith)
                        requires
                            i + 1 <= m,
                    ;
                    assert((i + 1) * rpv == i * rpv + rpv) by (nonlinear_arith);
                    return Err(e);
                },
            }
            assert((i + 1) * rpv == i * rpv + rpv) by (nonlinear_arith);
            proof {
                lemma_affordable(n0.free_resource as int, rpv as int, m, i as int);
            }
            assert((i + 1) * n0.rent_v_node_per_month == i * n0.rent_v_node_per_month + n0.rent_v_node_per_month)
                by (nonlinear_arith);
            assert((i + 1) * n0.rent_v_node_per_month <= affordable(n0.free_resource as int, rpv as int, m)
                * n0.rent_v_node_per_month) by (nonlinear_arith)
                requires
                    i + 1 <= affordable(n0.free_resource as int, rpv as int, m),
            ;
            cluster.total_rent = cluster.total_rent + node.rent_v_node_per_month;
            i = i + 1;
        }
        match self.clusters.update(cluster_id, &cluster) {
            Ok(()) => {},
            Err(e) => return Err(e),
        }
        match self.topology.add_node(cluster_id, node_key, v_nodes) {
            Ok(()) => {},
            Err(e) => return Err(e),
        }
        self.events.push(Event::ClusterNodeAdded { cluster_id, node_key });
        Ok(())
    }

    /// Takes a storage node out of its cluster; the cluster's manager or the
    /// node's provider may do so. The node is stored without cluster before
    /// its virtual nodes are released, and the cluster's rent falls by the
    /// node's rent for each of them.
    pub fn message_cluster_remove_node(&mut self, cluster_id: ClusterId, node_key: NodeKey) -> (r: Result<()>)
        requires
            ({
                let n = old(self).nodes.nodes@[node_key];
                let c = old(self).clusters@[cluster_id];
                let m = old(self).topology.v_nodes_of_node(node_key).len();
                old(self).remove_node_check(cluster_id, node_key) is Ok ==> {
                    &&& n.free_resource + m * c.resource_per_v_node <= u32::MAX
                    &&& m * n.rent_v_node_per_month <= c.total_rent
                }
            }),
        ensures
            ({
                let ns = old(self).nodes.nodes@;
                let n = ns[node_key];
                let c = old(self).clusters@[cluster_id];
                let topo = old(self).topology;
                let vs = topo.v_nodes_of_node(node_key);
                let check = old(self).remove_node_check(cluster_id, node_key);
                &&& check is Err ==> r == check && *final(self) == *old(self)
                &&& check is Ok ==> {
                    &&& final(self).nodes.nodes@ == ns.insert(node_key, Node { cluster_id: None, status_in_cluster: None, ..n })
                    &&& final(self).nodes.keys@ == old(self).nodes.keys@
                    &&& final(self).clusters@ == old(self).clusters@.insert(
                        cluster_id,
                        ClusterView {
                            nodes_keys: seq_remove_first(c.nodes_keys, node_key),
                            total_rent: (c.total_rent - vs.len() * n.rent_v_node_per_month) as u128,
                            ..c
                        },
                    )
                    &&& final(self).clusters.next_cluster_id == old(self).clusters.next_cluster_id
                    &&& final(self).clusters.clusters_ids@ == old(self).clusters.clusters_ids@
                    &&& !topo.all_assigned(cluster_id, vs) ==> r == Err::<(), Error>(
                        Error::VNodeIsNotAssignedToNode(cluster_id, vs[topo.first_unassigned(cluster_id, vs)]),
                    ) && final(self).topology == topo && final(self).events == old(self).events
                    &&& topo.all_assigned(cluster_id, vs) ==> r == Ok::<(), Error>(())
                        && final(self).topology.assignment() == unassign_all(topo.assignment(), cluster_id, vs)
                        && final(self).topology.cluster_lists() == topo.cluster_lists().insert(
                            cluster_id,
                            remove_each(topo.v_nodes_of_cluster(cluster_id), vs),
                        )
                        && final(self).topology.node_lists() == topo.node_lists().remove(node_key)
                        && final(self).events@ == old(self).events@.push(Event::ClusterNodeRemoved { cluster_id, node_key })
                }
            }),
            old(self).nodes.wf() ==> final(self).nodes.wf(),
            final(self).only_changed(old(self), set![Part::Nodes, Part::Clusters, Part::Topology, Part::Events]),
            old(self).clusters.wf() ==> final(self).clusters.wf(),
    {
        let caller = self.env.caller;
        let mut node = match self.nodes.get(node_key) {
            Ok(n) => n,
            Err(e) => return Err(e),
        };
        let mut cluster = match self.clusters.get(cluster_id) {
            Ok(c) => c,
            Err(e) => return Err(e),
        };
        if cluster.only_manager(caller).is_err() && node.only_provider(caller).is_err() {
            return Err(Error::OnlyClusterManagerOrNodeProvider);
        }
        match node.only_with_cluster(cluster_id) {
            Ok(()) => {},
            Err(e) => return Err(e),
        }
        node.unset_cluster();
        match self.nodes.update(node_key, &node) {
            Ok(()) => {},
            Err(e) => return Err(e),
        }
        cluster.remove_node(node_key);
        let v_nodes = self.topology.get_v_nodes_by_node(node_key);
        let ghost n0 = node;
        let ghost c0 = cluster@;
        let ghost m = v_nodes@.len() as int;
        let rpv = cluster.resource_per_v_node;
        let mut i: usize = 0;
        while i < v_nodes.len()
            invariant
                i <= m,
                m == v_nodes@.len(),
                rpv == c0.resource_per_v_node,
                n0.free_resource + m * rpv <= u32::MAX,
                m * n0.rent_v_node_per_month <= c0.total_rent,
                node == (Node { free_resource: (n0.free_resource + i * rpv) as u32, ..n0 }),
                cluster@ == (ClusterView { total_rent: (c0.total_rent - i * n0.rent_v_node_per_month) as u128, ..c0 }),
            decreases m - i,
        {
            assert((i + 1) * rpv == i * rpv + rpv && (i + 1) * rpv <= m * rpv) by (nonlinear_arith)
                requires
                    i + 1 <= m,
            ;
            node.release_resource(rpv);
            assert((i + 1) * n0.rent_v_node_per_month == i * n0.rent_v_node_per_month + n0.rent_v_node_per_month
                && (i + 1) * n0.rent_v_node_per_month <= m * n0.rent_v_node_per_month) by (nonlinear_arith)
                requires
                    i + 1 <= m,
            ;
            cluster.total_rent = cluster.total_rent - node.rent_v_node_per_month;
            i = i + 1;
        }
        match self.clusters.update(cluster_id, &cluster) {
            Ok(()) => {},
            Err(e) => return Err(e),
        }
        match self.topology.remove_node(cluster_id, node_key) {
            Ok(()) => {},
            Err(e) => return Err(e),
        }
        self.events.push(Event::ClusterNodeRemoved { cluster_id, node_key });
        Ok(())
    }

    /// Hands virtual nodes of a cluster that the caller manages over to
    /// another storage node of a cluster: each gives its resource back to the
    /// node serving it and reserves it on the new node.
    #[verifier::loop_isolation(false)]
    pub fn message_cluster_replace_node(
        &mut self,
        cluster_id: ClusterId,
        v_nodes: Vec<VNodeToken>,
        new_node_key: NodeKey,
    ) -> (r: Result<()>)
        requires
            old(self).node_in_cluster_check(cluster_id, new_node_key) is Ok ==> hand_over_fits(
                old(self).nodes.nodes@,
                old(self).nodes.nodes@[new_node_key],
                old(self).topology.assignment(),
                cluster_id,
                v_nodes@,
                new_node_key,
                old(self).clusters@[cluster_id].resource_per_v_node,
            ),
        ensures
            ({
                let check = old(self).node_in_cluster_check(cluster_id, new_node_key);
                let topo = old(self).topology;
                let (res, ns) = hand_over(
                    old(self).nodes.nodes@,
                    old(self).nodes.nodes@[new_node_key],
                    topo.assignment(),
                    cluster_id,
                    v_nodes@,
                    new_node_key,
                    old(self).clusters@[cluster_id].resource_per_v_node,
                );
                let (lists, asg) = reassign(topo.node_lists(), topo.assignment(), cluster_id, v_nodes@, new_node_key);
                let replaceable = forall|k: int| 0 <= k < v_nodes@.len() ==> topo.replaceable(cluster_id, #[trigger] v_nodes@[k]);
                &&& check is Err ==> r == check && *final(self) == *old(self)
                &&& check is Ok ==> final(self).nodes.nodes@ == ns && final(self).nodes.keys@ == old(self).nodes.keys@
                &&& check is Ok && res is Err ==> r == res && final(self).topology == topo && final(self).events == old(self).events
                &&& check is Ok && res is Ok && !replaceable ==> r == Err::<(), Error>(topo.replace_error(
                    cluster_id,
                    v_nodes@[topo.first_unreplaceable(cluster_id, v_nodes@)],
                )) && final(self).topology == topo && final(self).events == old(self).events
                &&& check is Ok && res is Ok && replaceable ==> r == Ok::<(), Error>(())
                    && final(self).topology.assignment() == asg
                    && final(self).topology.node_lists() == lists.insert(new_node_key, list_of(lists, new_node_key) + v_nodes@)
                    && final(self).topology.cluster_lists() == topo.cluster_lists()
                    && final(self).events@ == old(self).events@.push(Event::ClusterNodeReplaced { cluster_id, node_key: new_node_key })
            }),
            old(self).nodes.wf() ==> final(self).nodes.wf(),
            final(self).only_changed(old(self), set![Part::Nodes, Part::Topology, Part::Events]),
    {
        let caller = self.env.caller;
        let cluster = match self.clusters.get(cluster_id) {
            Ok(c) => c,
            Err(e) => return Err(e),
        };
        let mut new_node = match self.nodes.get(new_node_key) {
            Ok(n) => n,
            Err(e) => return Err(e),
        };
        match new_node.only_with_cluster(cluster_id) {
            Ok(()) => {},
            Err(e) => return Err(e),
        }
        match cluster.only_manager(caller) {
            Ok(()) => {},
            Err(e) => return Err(e),
        }
        let rpv = cluster.resource_per_v_node;
        let ghost asg = self.topology.assignment();
        let ghost target = hand_over(self.nodes.nodes@, new_node, asg, cluster_id, v_nodes@, new_node_key, rpv);
        assert(v_nodes@.skip(0) =~= v_nodes@);
        let mut i: usize = 0;
        while i < v_nodes.len()
            invariant
                i <= v_nodes@.len(),
                hand_over(self.nodes.nodes@, new_node, asg, cluster_id, v_nodes@.skip(i as int), new_node_key, rpv) == target,
                hand_over_fits(self.nodes.nodes@, new_node, asg, cluster_id, v_nodes@.skip(i as int), new_node_key, rpv),
                self.nodes.nodes@.contains_key(new_node_key),
                self.nodes.keys@ == old(self).nodes.keys@,
                old(self).nodes.wf() ==> self.nodes.wf(),
                self.only_changed(old(self), set![Part::Nodes]),
            decreases v_nodes@.len() - i,
        {
            let v_node = v_nodes[i];
            proof {
                assert(v_nodes@.skip(i as int)[0] == v_node);
                assert(v_nodes@.skip(i as int).drop_first() =~= v_nodes@.skip(i + 1));
            }
            let old_node_key = match self.topology.get_node_by_v_node(cluster_id, v_node) {
                Ok(k) => k,
                Err(e) => return Err(e),
            };
            let mut old_node = match self.nodes.get(old_node_key) {
                Ok(n) => n,
                Err(e) => return Err(e),
            };
            old_node.release_resource(rpv);
            match self.nodes.update(old_node_key, &old_node) {
                Ok(()) => {},
                Err(e) => return Err(e),
            }
            match new_node.reserve_resource(rpv) {
                Ok(()) => {},
                Err(e) => return Err(e),
            }
            match self.nodes.update(new_node_key, &new_node) {
                Ok(()) => {},
                Err(e) => return Err(e),
            }
            i = i + 1;
        }
        assert(v_nodes@.skip(i as int) =~= Seq::<VNodeToken>::empty());
        match self.topology.replace_node(cluster_id, new_node_key, v_nodes) {
            Ok(()) => {},
            Err(e) => return Err(e),
        }
        self.events.push(Event::ClusterNodeReplaced { cluster_id, node_key: new_node_key });
        Ok(())
    }

    /// Sets the virtual nodes that a storage node serves in a cluster that the
    /// caller manages; the node reserves or releases resource, and the
    /// cluster's rent changes, by the difference in their number.
    #[verifier::loop_isolation(false)]
    pub fn message_cluster_reset_node(&mut self, cluster_id: ClusterId, node_key: NodeKey, new_v_nodes: Vec<VNodeToken>) -> (r: Result<()>)
        requires
            ({
                let n = old(self).nodes.nodes@[node_key];
                let c = old(self).clusters@[cluster_id];
                let old_len = old(self).topology.v_nodes_of_node(node_key).len() as int;
                let new_len = new_v_nodes@.len() as int;
                old(self).node_in_cluster_check(cluster_id, node_key) is Ok ==> {
                    &&& new_len > old_len ==> c.total_rent + affordable(
                        n.free_resource as int,
                        c.resource_per_v_node as int,
                        new_len - old_len,
                    ) * n.rent_v_node_per_month <= u128::MAX
                    &&& new_len < old_len ==> n.free_resource + (old_len - new_len) * c.resource_per_v_node <= u32::MAX
                        && (old_len - new_len) * n.rent_v_node_per_month <= c.total_rent
                }
            }),
        ensures
            ({
                let ns = old(self).nodes.nodes@;
                let n = ns[node_key];
                let c = old(self).clusters@[cluster_id];
                let topo = old(self).topology;
                let old_vs = topo.v_nodes_of_node(node_key);
                let old_len = old_vs.len() as int;
                let new_len = new_v_nodes@.len() as int;
                let rpv = c.resource_per_v_node;
                let rent = n.rent_v_node_per_month;
                let check = old(self).node_in_cluster_check(cluster_id, node_key);
                let short = new_len > old_len && (new_len - old_len) * rpv > n.free_resource;
                &&& check is Err ==> r == check && *final(self) == *old(self)
                &&& check is Ok && short ==> r == Err::<(), Error>(Error::InsufficientNodeResources) && *final(self) == *old(self)
                &&& check is Ok && !short ==> {
                    &&& new_len == old_len ==> final(self).nodes == old(self).nodes && final(self).clusters == old(self).clusters
                    &&& new_len > old_len ==> final(self).nodes.nodes@ == ns.insert(
                        node_key,
                        Node { free_resource: (n.free_resource - (new_len - old_len) * rpv) as u32, ..n },
                    ) && final(self).clusters@ == old(self).clusters@.insert(
                        cluster_id,
                        ClusterView { total_rent: (c.total_rent + (new_len - old_len) * rent) as u128, ..c },
                    )
                    &&& new_len < old_len ==> final(self).nodes.nodes@ == ns.insert(
                        node_key,
                        Node { free_resource: (n.free_resource + (old_len - new_len) * rpv) as u32, ..n },
                    ) && final(self).clusters@ == old(self).clusters@.insert(
                        cluster_id,
                        ClusterView { total_rent: (c.total_rent - (old_len - new_len) * rent) as u128, ..c },
                    )
                    &&& final(self).nodes.keys@ == old(self).nodes.keys@
                    &&& final(self).clusters.next_cluster_id == old(self).clusters.next_cluster_id
                    &&& final(self).clusters.clusters_ids@ == old(self).clusters.clusters_ids@
                    &&& topo.conflicts(cluster_id, new_v_nodes@, old_vs) ==> r == Err::<(), Error>(
                        Error::VNodeIsAlreadyAssignedToNode(node_key),
                    ) && final(self).topology == topo && final(self).events == old(self).events
                    &&& !topo.conflicts(cluster_id, new_v_nodes@, old_vs) ==> r == Ok::<(), Error>(())
                        && final(self).topology.assignment() == assign_all(
                            unassign_all(topo.assignment(), cluster_id, old_vs),
                            cluster_id,
                            new_v_nodes@,
                            node_key,
                        )
                        && final(self).topology.cluster_lists() == topo.cluster_lists().insert(
                            cluster_id,
                            remove_each(topo.v_nodes_of_cluster(cluster_id), old_vs) + new_v_nodes@,
                        )
                        && final(self).topology.node_lists() == topo.node_lists().insert(node_key, new_v_nodes@)
                        && final(self).events@ == old(self).events@.push(Event::ClusterNodeReset { cluster_id, node_key })
                }
            }),
            old(self).nodes.wf() ==> final(self).nodes.wf(),
            final(self).only_changed(old(self), set![Part::Nodes, Part::Clusters, Part::Topology, Part::Events]),
            old(self).clusters.wf() ==> final(self).clusters.wf(),
    {
        let caller = self.env.caller;
        let mut cluster = match self.clusters.get(cluster_id) {
            Ok(c) => c,
            Err(e) => return Err(e),
        };
        let mut node = match self.nodes.get(node_key) {
            Ok(n) => n,
            Err(e) => return Err(e),
        };
        match node.only_with_cluster(cluster_id) {
            Ok(()) => {},
            Err(e) => return Err(e),
        }
        match cluster.only_manager(caller) {
            Ok(()) => {},
            Err(e) => return Err(e),
        }
        let old_v_nodes = self.topology.get_v_nodes_by_node(node_key);
        let ghost n0 = node;
        let ghost c0 = cluster@;
        let rpv = cluster.resource_per_v_node;
        if new_v_nodes.len() > old_v_nodes.len() {
            let d = new_v_nodes.len() - old_v_nodes.len();
            let mut i: usize = 0;
            while i < d
                invariant
                    i <= d,
                    rpv == c0.resource_per_v_node,
                    i * rpv <= n0.free_resource,
                    i <= affordable(n0.free_resource as int, rpv as int, d as int),
                    node == (Node { free_resource: (n0.free_resource - i * rpv) as u32, ..n0 }),
                    cluster@ == (ClusterView { total_rent: (c0.total_rent + i * n0.rent_v_node_per_month) as u128, ..c0 }),
                decreases d - i,
            {
                assert((i + 1) * rpv == i * rpv + rpv) by (nonlinear_arith);
                match node.reserve_resource(rpv) {
                    Ok(()) => {},
                    Err(e) => {
                        assert((i + 1) * rpv <= d * rpv) by (nonlinear_arith)
                            requires
                                i + 1 <= d,
                        ;
                        return Err(e);
                    },
                }
                proof {
                    lemma_affordable(n0.free_resource as int, rpv as int, d as int, i as int);
                }
                assert((i + 1) * n0.rent_v_node_per_month == i * n0.rent_v_node_per_month + n0.rent_v_node_per_month)
                    by (nonlinear_arith);
                assert((i + 1) * n0.rent_v_node_per_month <= affordable(n0.free_resource as int, rpv as int, d as int)
                    * n0.rent_v_node_per_month) by (nonlinear_arith)
                    requires
                        i + 1 <= affordable(n0.free_resource as int, rpv as int, d as int),
                ;
                cluster.total_rent = cluster.total_rent + node.rent_v_node_per_month;
                i = i + 1;
            }
            match self.nodes.update(node_key, &node) {
                Ok(()) => {},
                Err(e) => return Err(e),
            }
            match self.clusters.update(cluster_id, &cluster) {
                Ok(()) => {},
                Err(e) => return Err(e),
            }
        } else if new_v_nodes.len() < old_v_nodes.len() {
            let d = old_v_nodes.len() - new_v_nodes.len();
            let mut i: usize = 0;
            while i < d
                invariant
                    i <= d,
                    rpv == c0.resource_per_v_node,
                    n0.free_resource + d * rpv <= u32::MAX,
                    d * n0.rent_v_node_per_month <= c0.total_rent,
                    node == (Node { free_resource: (n0.free_resource + i * rpv) as u32, ..n0 }),
                    cluster@ == (ClusterView { total_rent: (c0.total_rent - i * n0.rent_v_node_per_month) as u128, ..c0 }),
                decreases d - i,
            {
                assert((i + 1) * rpv == i * rpv + rpv && (i + 1) * rpv <= d * rpv) by (nonlinear_arith)
                    requires
                        i + 1 <= d,
                ;
                node.release_resource(rpv);
                assert((i + 1) * n0.rent_v_node_per_month == i * n0.rent_v_node_per_month + n0.rent_v_node_per_month
                    && (i + 1) * n0.rent_v_node_per_month <= d * n0.rent_v_node_per_month) by (nonlinear_arith)
                    requires
                        i + 1 <= d,
                ;
                cluster.total_rent = cluster.total_rent - node.rent_v_node_per_month;
                i = i + 1;
            }
            match self.nodes.update(node_key, &node) {
                Ok(()) => {},
                Err(e) => return Err(e),
            }
            match self.clusters.update(cluster_id, &cluster) {
                Ok(()) => {},
                Err(e) => return Err(e),
            }
        }
        match self.topology.reset_node(cluster_id, node_key, new_v_nodes) {
            Ok(()) => {},
            Err(e) => return Err(e),
        }
        self.events.push(Event::ClusterNodeReset { cluster_id, node_key });
        Ok(())
    }

    /// Adds a CDN node, whose provider trusts the caller, to a cluster that
    /// the caller manages.
    pub fn message_cluster_add_cdn_node(&mut self, cluster_id: ClusterId, cdn_node_key: CdnNodeKey) -> (r: Result<()>)
        ensures
            ({
                let ns = old(self).cdn_nodes.cdn_nodes@;
                let c = old(self).clusters@[cluster_id];
                let check = old(self).add_cdn_node_check(cluster_id, cdn_node_key);
                &&& check is Err ==> r == check && *final(self) == *old(self)
                &&& check is Ok ==> {
                    &&& final(self).cdn_nodes.cdn_nodes@ == ns.insert(cdn_node_key, CdnNode {
                        cluster_id: Some(cluster_id),
                        status_in_cluster: Some(NodeStatusInCluster::ADDING),
                        ..ns[cdn_node_key]
                    })
                    &&& final(self).cdn_nodes.keys@ == old(self).cdn_nodes.keys@
                    &&& c.cdn_nodes_keys.len() >= MAX_CLUSTER_CDN_NODES_LEN_IN_VEC
                        ==> r == Err::<(), Error>(Error::CdnNodesSizeExceedsLimit)
                        && final(self).clusters == old(self).clusters && final(self).events == old(self).events
                    &&& c.cdn_nodes_keys.len() < MAX_CLUSTER_CDN_NODES_LEN_IN_VEC ==> r == Ok::<(), Error>(())
                        && final(self).clusters@ == old(self).clusters@.insert(
                            cluster_id,
                            ClusterView { cdn_nodes_keys: c.cdn_nodes_keys.push(cdn_node_key), ..c },
                        )
                        && final(self).clusters.next_cluster_id == old(self).clusters.next_cluster_id
                        && final(self).clusters.clusters_ids@ == old(self).clusters.clusters_ids@
                        && final(self).events@ == old(self).events@.push(Event::ClusterCdnNodeAdded { cluster_id, cdn_node_key })
                }
            }),
            old(self).cdn_nodes.wf() ==> final(self).cdn_nodes.wf(),
            final(self).only_changed(old(self), set![Part::CdnNodes, Part::Clusters, Part::Events]),
            old(self).clusters.wf() ==> final(self).clusters.wf(),
    {
        let caller = self.env.caller;
        let mut cdn_node = match self.cdn_nodes.get(cdn_node_key) {
            Ok(n) => n,
            Err(e) => return Err(e),
        };
        match cdn_node.only_without_cluster() {
            Ok(()) => {},
            Err(e) => return Err(e),
        }
        match self.only_trusted_cluster_manager(cdn_node.provider_id) {
            Ok(_) => {},
            Err(e) => return Err(e),
        }
        let mut cluster = match self.clusters.get(cluster_id) {
            Ok(c) => c,
            Err(e) => return Err(e),
        };
        match cluster.only_manager(caller) {
            Ok(()) => {},
            Err(e) => return Err(e),
        }
        cdn_node.set_cluster(cluster_id, NodeStatusInCluster::ADDING);
        match self.cdn_nodes.update(cdn_node_key, &cdn_node) {
            Ok(()) => {},
            Err(e) => return Err(e),
        }
        match cluster.add_cdn_node(cdn_node_key) {
            Ok(()) => {},
            Err(e) => return Err(e),
        }
        match self.clusters.update(cluster_id, &cluster) {
            Ok(()) => {},
            Err(e) => return Err(e),
        }
        self.events.push(Event::ClusterCdnNodeAdded { cluster_id, cdn_node_key });
        Ok(())
    }

    /// Takes a CDN node out of its cluster; the cluster's manager or the
    /// node's provider may do so.
    pub fn message_cluster_remove_cdn_node(&mut self, cluster_id: ClusterId, cdn_node_key: CdnNodeKey) -> (r: Result<()>)
        ensures
            ({
                let ns = old(self).cdn_nodes.cdn_nodes@;
                let c = old(self).clusters@[cluster_id];
                let check = old(self).remove_cdn_node_check(cluster_id, cdn_node_key);
                &&& check is Err ==> r == check && *final(self) == *old(self)
                &&& check is Ok ==> r == Ok::<(), Error>(())
                    && final(self).cdn_nodes.cdn_nodes@ == ns.insert(cdn_node_key, CdnNode {
                        cluster_id: None,
                        status_in_cluster: None,
                        ..ns[cdn_node_key]
                    })
                    && final(self).cdn_nodes.keys@ == old(self).cdn_nodes.keys@
                    && final(self).clusters@ == old(self).clusters@.insert(
                        cluster_id,
                        ClusterView { cdn_nodes_keys: seq_remove_first(c.cdn_nodes_keys, cdn_node_key), ..c },
                    )
                    && final(self).clusters.next_cluster_id == old(self).clusters.next_cluster_id
                    && final(self).clusters.clusters_ids@ == old(self).clusters.clusters_ids@
                    && final(self).events@ == old(self).events@.push(Event::ClusterCdnNodeRemoved { cluster_id, cdn_node_key })
            }),
            old(self).cdn_nodes.wf() ==> final(self).cdn_nodes.wf(),
            final(self).only_changed(old(self), set![Part::CdnNodes, Part::Clusters, Part::Events]),
            old(self).clusters.wf() ==> final(self).clusters.wf(),
    {
        let caller = self.env.caller;
        let mut cdn_node = match self.cdn_nodes.get(cdn_node_key) {
            Ok(n) => n,
            Err(e) => return Err(e),
        };
        let mut cluster = match self.clusters.get(cluster_id) {
            Ok(c) => c,
            Err(e) => return Err(e),
        };
        if cluster.only_manager(caller).is_err() && cdn_node.only_provider(caller).is_err() {
            return Err(Error::OnlyClusterManagerOrCdnNodeProvider);
        }
        match cdn_node.only_with_cluster(cluster_id) {
            Ok(()) => {},
            Err(e) => return Err(e),
        }
        cdn_node.unset_cluster();
        match self.cdn_nodes.update(cdn_node_key, &cdn_node) {
            Ok(()) => {},
            Err(e) => return Err(e),
        }
        cluster.remove_cdn_node(cdn_node_key);
        match self.clusters.update(cluster_id, &cluster) {
            Ok(()) => {},
            Err(e) => return Err(e),
        }
        self.events.push(Event::ClusterCdnNodeRemoved { cluster_id, cdn_node_key });
        Ok(())
    }

    /// Removes a cluster without nodes that the caller manages, with its topology.
    pub fn message_cluster_remove(&mut self, cluster_id: ClusterId) -> (r: Result<()>)
        ensures
            ({
                let c = old(self).clusters@[cluster_id];
                let check = old(self).manager_check(cluster_id);
                let topo = old(self).topology;
                &&& check is Err ==> r == check && *final(self) == *old(self)
                &&& check is Ok && (c.nodes_keys.len() > 0 || c.cdn_nodes_keys.len() > 0)
                    ==> r == Err::<(), Error>(Error::ClusterIsNotEmpty) && *final(self) == *old(self)
                &&& check is Ok && c.nodes_keys.len() == 0 && c.cdn_nodes_keys.len() == 0 ==> r == Ok::<(), Error>(())
                    && final(self).clusters@ == old(self).clusters@.remove(cluster_id)
                    && final(self).clusters.clusters_ids@ == seq_remove_first(old(self).clusters.clusters_ids@, cluster_id)
                    && final(self).clusters.next_cluster_id == old(self).clusters.next_cluster_id
                    && final(self).topology.cluster_lists() == topo.cluster_lists().remove(cluster_id)
                    && final(self).topology.node_lists() == topo.node_lists()
                    && final(self).events@ == old(self).events@.push(Event::ClusterRemoved { cluster_id })
            }),
            final(self).only_changed(old(self), set![Part::Clusters, Part::Topology, Part::Events]),
            old(self).clusters.wf() ==> final(self).clusters.wf(),
    {
        let caller = self.env.caller;
        let cluster = match self.clusters.get(cluster_id) {
            Ok(c) => c,
            Err(e) => return Err(e),
        };
        match cluster.only_manager(caller) {
            Ok(()) => {},
            Err(e) => return Err(e),
        }
        match cluster.only_without_nodes() {
            Ok(()) => {},
            Err(e) => return Err(e),
        }
        self.clusters.remove(cluster_id);
        match self.topology.remove_topology(cluster_id) {
            Ok(()) => {},
            Err(e) => return Err(e),
        }
        self.events.push(Event::ClusterRemoved { cluster_id });
        Ok(())
    }

    /// Sets the status of a storage node in a cluster that the caller manages.
    pub fn message_cluster_set_node_status(
        &mut self,
        cluster_id: ClusterId,
        node_key: NodeKey,
        status_in_cluster: NodeStatusInCluster,
    ) -> (r: Result<()>)
        ensures
            ({
                let ns = old(self).nodes.nodes@;
                &&& !ns.contains_key(node_key) ==> r == Err::<(), Error>(Error::NodeDoesNotExist) && *final(self) == *old(self)
                &&& ns.contains_key(node_key) && old(self).manager_check(cluster_id) is Err
                    ==> r == old(self).manager_check(cluster_id) && *final(self) == *old(self)
                &&& ns.contains_key(node_key) && old(self).manager_check(cluster_id) is Ok ==> r == Ok::<(), Error>(())
                    && final(self).nodes.nodes@ == ns.insert(node_key, Node { status_in_cluster: Some(status_in_cluster), ..ns[node_key] })
                    && final(self).nodes.keys@ == old(self).nodes.keys@
                    && final(self).events@ == old(self).events@.push(Event::ClusterNodeStatusSet {
                        node_key,
                        cluster_id,
                        status: status_in_cluster,
                    })
            }),
            old(self).nodes.wf() ==> final(self).nodes.wf(),
            final(self).only_changed(old(self), set![Part::Nodes, Part::Events]),
    {
        let caller = self.env.caller;
        let mut node = match self.nodes.get(node_key) {
            Ok(n) => n,
            Err(e) => return Err(e),
        };
        let cluster = match self.clusters.get(cluster_id) {
            Ok(c) => c,
            Err(e) => return Err(e),
        };
        match cluster.only_manager(caller) {
            Ok(()) => {},
            Err(e) => return Err(e),
        }
        node.change_status_in_cluster(status_in_cluster);
        match self.nodes.update(node_key, &node) {
            Ok(()) => {},
            Err(e) => return Err(e),
        }
        self.events.push(Event::ClusterNodeStatusSet { node_key, cluster_id, status: status_in_cluster });
        Ok(())
    }

    /// Sets the status of a CDN node in a cluster that the caller manages.
    pub fn message_cluster_set_cdn_node_status(
        &mut self,
        cluster_id: ClusterId,
        cdn_node_key: CdnNodeKey,
        status_in_cluster: NodeStatusInCluster,
    ) -> (r: Result<()>)
        ensures
            ({
                let ns = old(self).cdn_nodes.cdn_nodes@;
                &&& !ns.contains_key(cdn_node_key) ==> r == Err::<(), Error>(Error::CdnNodeDoesNotExist) && *final(self) == *old(self)
                &&& ns.contains_key(cdn_node_key) && old(self).manager_check(cluster_id) is Err
                    ==> r == old(self).manager_check(cluster_id) && *final(self) == *old(self)
                &&& ns.contains_key(cdn_node_key) && old(self).manager_check(cluster_id) is Ok ==> r == Ok::<(), Error>(())
                    && final(self).cdn_nodes.cdn_nodes@ == ns.insert(
                        cdn_node_key,
                        CdnNode { status_in_cluster: Some(status_in_cluster), ..ns[cdn_node_key] },
                    )
                    && final(self).cdn_nodes.keys@ == old(self).cdn_nodes.keys@
                    && final(self).events@ == old(self).events@.push(Event::ClusterCdnNodeStatusSet {
                        cdn_node_key,
                        cluster_id,
                        status: status_in_cluster,
                    })
            }),
            old(self).cdn_nodes.wf() ==> final(self).cdn_nodes.wf(),
            final(self).only_changed(old(self), set![Part::CdnNodes, Part::Events]),
    {
        let caller = self.env.caller;
        let mut cdn_node = match self.cdn_nodes.get(cdn_node_key) {
            Ok(n) => n,
            Err(e) => return Err(e),
        };
        let cluster = match self.clusters.get(cluster_id) {
            Ok(c) => c,
            Err(e) => return Err(e),
        };
        match cluster.only_manager(caller) {
            Ok(()) => {},
            Err(e) => return Err(e),
        }
        cdn_node.change_status_in_cluster(status_in_cluster);
        match self.cdn_nodes.update(cdn_node_key, &cdn_node) {
            Ok(()) => {},
            Err(e) => return Err(e),
        }
        self.events.push(Event::ClusterCdnNodeStatusSet { cdn_node_key, cluster_id, status: status_in_cluster });
        Ok(())
    }

    /// The caller trusts `manager_id` to add its nodes to clusters.
    pub fn message_grant_trusted_manager_permission(&mut self, manager_id: AccountId) -> (r: Result<()>)
        ensures
            ({
                let permission = Permission::ClusterManagerTrustedBy(old(self).caller());
                &&& r == Ok::<(), Error>(())
                &&& final(self).perms.granted() == old(self).perms.granted().insert(perm_key(manager_id, permission))
                &&& final(self).events@ == old(self).events@.push(Event::PermissionGranted { account_id: manager_id, permission })
            }),
            final(self).only_changed(old(self), set![Part::Perms, Part::Events]),
    {
        let permission = Permission::ClusterManagerTrustedBy(self.env.caller);
        match self.grant_permission(manager_id, permission) {
            Ok(()) => {},
            Err(e) => return Err(e),
        }
        self.events.push(Event::PermissionGranted { account_id: manager_id, permission });
        Ok(())
    }

    /// The caller no longer trusts `manager_id` to add its nodes to clusters.
    pub fn message_revoke_trusted_manager_permission(&mut self, manager_id: AccountId) -> (r: Result<()>)
        ensures
            ({
                let permission = Permission::ClusterManagerTrustedBy(old(self).caller());
                &&& r == Ok::<(), Error>(())
                &&& final(self).perms.granted() == old(self).perms.granted().remove(perm_key(manager_id, permission))
                &&& final(self).events@ == old(self).events@.push(Event::PermissionRevoked { account_id: manager_id, permission })
            }),
            final(self).only_changed(old(self), set![Part::Perms, Part::Events]),
    {
        let permission = Permission::ClusterManagerTrustedBy(self.env.caller);
        match self.revoke_permission(manager_id, permission) {
            Ok(()) => {},
            Err(e) => return Err(e),
        }
        self.events.push(Event::PermissionRevoked { account_id: manager_id, permission });
        Ok(())
    }

    /// Sets the parameters of a cluster that the caller manages.
    pub fn message_cluster_set_params(&mut self, cluster_id: ClusterId, cluster_params: ClusterParams) -> (r: Result<()>)
        ensures
            ({
                let c = old(self).clusters@[cluster_id];
                let check = old(self).manager_check(cluster_id);
                &&& check is Err ==> r == check && *final(self) == *old(self)
                &&& check is Ok && text_len(cluster_params) > CLUSTER_PARAMS_MAX_LEN
                    ==> r == Err::<(), Error>(Error::ParamsSizeExceedsLimit) && *final(self) == *old(self)
                &&& check is Ok && text_len(cluster_params) <= CLUSTER_PARAMS_MAX_LEN ==> r == Ok::<(), Error>(())
                    && final(self).clusters@ == old(self).clusters@.insert(cluster_id, ClusterView { cluster_params, ..c })
                    && final(self).clusters.next_cluster_id == old(self).clusters.next_cluster_id
                    && final(self).clusters.clusters_ids@ == old(self).clusters.clusters_ids@
                    && final(self).events@ == old(self).events@.push(Event::ClusterParamsSet { cluster_id, cluster_params })
            }),
            final(self).only_changed(old(self), set![Part::Clusters, Part::Events]),
            old(self).clusters.wf() ==> final(self).clusters.wf(),
    {
        let caller = self.env.caller;
        let mut cluster = match self.clusters.get(cluster_id) {
            Ok(c) => c,
            Err(e) => return Err(e),
        };
        match cluster.only_manager(caller) {
            Ok(()) => {},
            Err(e) => return Err(e),
        }
        match cluster.set_params(cluster_params.clone()) {
            Ok(()) => {},
            Err(e) => return Err(e),
        }
        match self.clusters.update(cluster_id, &cluster) {
            Ok(()) => {},
            Err(e) => return Err(e),
        }
        self.events.push(Event::ClusterParamsSet { cluster_id, cluster_params });
        Ok(())
    }

    /// Sets the price of CDN traffic, in USD per GB, of a cluster that the caller manages.
    pub fn message_cdn_set_rate(&mut self, cluster_id: ClusterId, cdn_usd_per_gb: Balance) -> (r: Result<()>)
        ensures
            ({
                let c = old(self).clusters@[cluster_id];
                let check = old(self).manager_check(cluster_id);
                &&& check is Err ==> r == check && *final(self) == *old(self)
                &&& check is Ok ==> r == Ok::<(), Error>(())
                    && final(self).clusters@ == old(self).clusters@.insert(cluster_id, ClusterView { cdn_usd_per_gb, ..c })
                    && final(self).clusters.next_cluster_id == old(self).clusters.next_cluster_id
                    && final(self).clusters.clusters_ids@ == old(self).clusters.clusters_ids@
            }),
            final(self).only_changed(old(self), set![Part::Clusters]),
            old(self).clusters.wf() ==> final(self).clusters.wf(),
    {
        let caller = self.env.caller;
        let mut cluster = match self.clusters.get(cluster_id) {
            Ok(c) => c,
            Err(e) => return Err(e),
        };
        match cluster.only_manager(caller) {
            Ok(()) => {},
            Err(e) => return Err(e),
        }
        cluster.cdn_set_rate(cdn_usd_per_gb);
        match self.clusters.update(cluster_id, &cluster) {
            Ok(()) => {},
            Err(e) => return Err(e),
        }
        Ok(())
    }

    /// The price of CDN traffic of a cluster, or the error for an unknown cluster.
    pub open spec fn cdn_rate_of(&self, cluster_id: ClusterId) -> Result<Balance> {
        if self.clusters@.contains_key(cluster_id) {
            Ok(self.clusters@[cluster_id].cdn_usd_per_gb)
        } else {
            Err(Error::ClusterDoesNotExist)
        }
    }

    /// The price of CDN traffic of a cluster, in USD per GB.
    pub fn message_cdn_get_rate(&self, cluster_id: ClusterId) -> (r: Result<Balance>)
        ensures
            r == self.cdn_rate_of(cluster_id),
    {
        let cluster = match self.clusters.get(cluster_id) {
            Ok(c) => c,
            Err(e) => return Err(e),
        };
        Ok(cluster.cdn_get_rate())
    }

    /// Raises the resource of each virtual node of a cluster that the caller
    /// manages, and reserves it on the storage node serving each virtual node.
    #[verifier::loop_isolation(false)]
    pub fn message_cluster_reserve_resource(&mut self, cluster_id: ClusterId, resource: Resource) -> (r: Result<()>)
        requires
            old(self).manager_check(cluster_id) is Ok ==> old(self).clusters@[cluster_id].resource_per_v_node + resource <= u32::MAX,
        ensures
            ({
                let c = old(self).clusters@[cluster_id];
                let check = old(self).manager_check(cluster_id);
                let (res, ns) = reserve_on_v_nodes(
                    old(self).nodes.nodes@,
                    old(self).topology.assignment(),
                    cluster_id,
                    old(self).topology.v_nodes_of_cluster(cluster_id),
                    resource,
                );
                &&& check is Err ==> r == check && *final(self) == *old(self)
                &&& check is Ok ==> {
                    &&& r == res
                    &&& final(self).clusters@ == old(self).clusters@.insert(
                        cluster_id,
                        ClusterView { resource_per_v_node: (c.resource_per_v_node + resource) as u32, ..c },
                    )
                    &&& final(self).clusters.next_cluster_id == old(self).clusters.next_cluster_id
                    &&& final(self).clusters.clusters_ids@ == old(self).clusters.clusters_ids@
                    &&& final(self).nodes.nodes@ == ns
                    &&& final(self).nodes.keys@ == old(self).nodes.keys@
                    &&& res is Ok ==> final(self).events@ == old(self).events@.push(Event::ClusterReserveResource { cluster_id, resource })
                    &&& res is Err ==> final(self).events == old(self).events
                }
            }),
            old(self).nodes.wf() ==> final(self).nodes.wf(),
            final(self).only_changed(old(self), set![Part::Clusters, Part::Nodes, Part::Events]),
            old(self).clusters.wf() ==> final(self).clusters.wf(),
    {
        let caller = self.env.caller;
        let mut cluster = match self.clusters.get(cluster_id) {
            Ok(c) => c,
            Err(e) => return Err(e),
        };
        match cluster.only_manager(caller) {
            Ok(()) => {},
            Err(e) => return Err(e),
        }
        cluster.put_resource(resource);
        match self.clusters.update(cluster_id, &cluster) {
            Ok(()) => {},
            Err(e) => return Err(e),
        }
        let cluster_v_nodes = self.topology.get_v_nodes_by_cluster(cluster_id);
        let ghost asg = self.topology.assignment();
        let ghost target = reserve_on_v_nodes(self.nodes.nodes@, asg, cluster_id, cluster_v_nodes@, resource);
        let ghost before = *self;
        assert(cluster_v_nodes@.skip(0) =~= cluster_v_nodes@);
        let mut i: usize = 0;
        while i < cluster_v_nodes.len()
            invariant
                i <= cluster_v_nodes@.len(),
                reserve_on_v_nodes(self.nodes.nodes@, asg, cluster_id, cluster_v_nodes@.skip(i as int), resource) == target,
                asg == self.topology.assignment(),
                self.only_changed(&before, set![Part::Nodes]),
                self.nodes.keys@ == before.nodes.keys@,
                before.nodes.wf() ==> self.nodes.wf(),
            decreases cluster_v_nodes@.len() - i,
        {
            let v_node = cluster_v_nodes[i];
            proof {
                assert(cluster_v_nodes@.skip(i as int)[0] == v_node);
                assert(cluster_v_nodes@.skip(i as int).drop_first() =~= cluster_v_nodes@.skip(i + 1));
            }
            let node_key = match self.topology.get_node_by_v_node(cluster_id, v_node) {
                Ok(k) => k,
                Err(e) => return Err(e),
            };
            let mut node = match self.nodes.get(node_key) {
                Ok(n) => n,
                Err(e) => return Err(e),
            };
            match node.reserve_resource(resource) {
                Ok(()) => {},
                Err(e) => return Err(e),
            }
            match self.nodes.update(node_key, &node) {
                Ok(()) => {},
                Err(e) => return Err(e),
            }
            i = i + 1;
        }
        assert(cluster_v_nodes@.skip(i as int) =~= Seq::<VNodeToken>::empty());
        self.events.push(Event::ClusterReserveResource { cluster_id, resource });
        Ok(())
    }

    /// Takes the network and management fees from a cluster's revenues and
    /// shares the rest equally among the providers of its storage nodes; the
    /// remainder of the division stays in the cluster.
    #[verifier::loop_isolation(false)]
    pub fn message_cluster_distribute_revenues(&mut self, cluster_id: ClusterId) -> (r: Result<()>)
        requires
            old(self).clusters@.contains_key(cluster_id) ==> ({
                let c = old(self).clusters@[cluster_id];
                let cfg = old(self).protocol.network_fee_config;
                let (f1, f2, ok1, ok2) = after_fees(c.revenues.0, cfg.network_fee_bp, cfg.cluster_management_fee_bp);
                &&& c.revenues.0 * cfg.network_fee_bp <= u128::MAX
                &&& ok1 ==> (c.revenues.0 - f1) * cfg.cluster_management_fee_bp <= u128::MAX
                &&& ok2 ==> c.nodes_keys.len() > 0
            }),
        ensures
            ({
                let c = old(self).clusters@[cluster_id];
                let cfg = old(self).protocol.network_fee_config;
                let (f1, f2, ok1, ok2) = after_fees(c.revenues.0, cfg.network_fee_bp, cfg.cluster_management_fee_bp);
                let left = c.revenues.0 - f1 - f2;
                let keys = c.nodes_keys;
                let per_share = left / (keys.len() as int);
                let nodes = old(self).nodes.nodes@;
                let t1 = sent(old(self).transfers@, cfg.network_fee_destination, f1 as u128);
                let t2 = sent(t1, c.manager_id, f2 as u128);
                let k = first_unknown(nodes, keys);
                &&& !old(self).clusters@.contains_key(cluster_id) ==> r == Err::<(), Error>(Error::ClusterDoesNotExist)
                    && *final(self) == *old(self)
                &&& old(self).clusters@.contains_key(cluster_id) && !ok1 ==> r == Err::<(), Error>(Error::InsufficientBalance)
                    && final(self).transfers == old(self).transfers && final(self).events == old(self).events
                    && final(self).clusters == old(self).clusters
                &&& old(self).clusters@.contains_key(cluster_id) && ok1 && !ok2 ==> r == Err::<(), Error>(Error::InsufficientBalance)
                    && final(self).transfers@ == t1 && final(self).events == old(self).events
                    && final(self).clusters == old(self).clusters
                &&& old(self).clusters@.contains_key(cluster_id) && ok2 && all_known(nodes, keys) ==> r == Ok::<(), Error>(())
                    && final(self).transfers@ == t2 + provider_payouts(nodes, keys, per_share as u128)
                    && final(self).events@ == old(self).events@ + revenue_events(nodes, keys, cluster_id)
                    && final(self).clusters@ == old(self).clusters@.insert(
                        cluster_id,
                        ClusterView { revenues: Cash((left - per_share * keys.len()) as u128), ..c },
                    )
                    && final(self).clusters.next_cluster_id == old(self).clusters.next_cluster_id
                    && final(self).clusters.clusters_ids@ == old(self).clusters.clusters_ids@
                &&& old(self).clusters@.contains_key(cluster_id) && ok2 && !all_known(nodes, keys)
                    ==> r == Err::<(), Error>(Error::NodeDoesNotExist)
                    && final(self).transfers@ == t2 + provider_payouts(nodes, keys.take(k), per_share as u128)
                    && final(self).events@ == old(self).events@ + revenue_events(nodes, keys.take(k), cluster_id)
                    && final(self).clusters == old(self).clusters
            }),
            final(self).only_changed(old(self), set![Part::Clusters, Part::Transfers, Part::Events]),
            old(self).clusters.wf() ==> final(self).clusters.wf(),
    {
        let mut cluster = match self.clusters.get(cluster_id) {
            Ok(c) => c,
            Err(e) => return Err(e),
        };
        let ghost c = cluster@;
        match self.capture_network_fee(&mut cluster.revenues) {
            Ok(()) => {},
            Err(e) => return Err(e),
        }
        let fee_bp = self.protocol.get_cluster_management_fee_bp();
        let manager_id = cluster.manager_id;
        match self.capture_fee(fee_bp, manager_id, &mut cluster.revenues) {
            Ok(()) => {},
            Err(e) => return Err(e),
        }
        let num_shares = cluster.nodes_keys.len() as Balance;
        let per_share = cluster.revenues.peek() / num_shares;
        assert(per_share * num_shares <= cluster.revenues.0) by (nonlinear_arith)
            requires
                per_share == cluster.revenues.0 / num_shares,
                num_shares > 0,
        ;
        match cluster.revenues.pay(Payable(per_share * num_shares)) {
            Ok(()) => {},
            Err(e) => return Err(e),
        }
        let ghost nodes = self.nodes.nodes@;
        let ghost keys = cluster.nodes_keys@;
        let ghost t2 = self.transfers@;
        let ghost e0 = self.events@;
        let ghost before = *self;
        let mut i: usize = 0;
        assert(keys.take(0) =~= Seq::<NodeKey>::empty());
        assert(provider_payouts(nodes, keys.take(0), per_share) =~= Seq::<Transfer>::empty());
        assert(revenue_events(nodes, keys.take(0), cluster_id) =~= Seq::<Event>::empty());
        while i < cluster.nodes_keys.len()
            invariant
                i <= keys.len(),
                cluster.nodes_keys@ == keys,
                forall|j: int| 0 <= j < i ==> nodes.contains_key(#[trigger] keys[j]),
                self.transfers@ == t2 + provider_payouts(nodes, keys.take(i as int), per_share),
                self.events@ == e0 + revenue_events(nodes, keys.take(i as int), cluster_id),
                self.only_changed(&before, set![Part::Transfers, Part::Events]),
            decreases keys.len() - i,
        {
            let node_key = cluster.nodes_keys[i];
            let node = match self.nodes.get(node_key) {
                Ok(n) => n,
                Err(e) => {
                    proof {
                        lemma_first_unknown(nodes, keys, i as int);
                    }
                    return Err(e);
                },
            };
            let ghost t_before = self.transfers@;
            match self.send_cash(node.provider_id, Cash(per_share)) {
                Ok(()) => {},
                Err(e) => return Err(e),
            }
            self.events.push(Event::ClusterDistributeRevenues { cluster_id, provider_id: node.provider_id });
            proof {
                assert(keys.take(i + 1) =~= keys.take(i as int).push(node_key));
                if per_share != 0 {
                    assert(provider_payouts(nodes, keys.take(i + 1), per_share) =~= provider_payouts(nodes, keys.take(i as int), per_share).push(
                        Transfer { destination: node.provider_id, value: per_share },
                    ));
                } else {
                    assert(provider_payouts(nodes, keys.take(i + 1), per_share) =~= Seq::<Transfer>::empty());
                }
                assert(revenue_events(nodes, keys.take(i + 1), cluster_id) =~= revenue_events(nodes, keys.take(i as int), cluster_id).push(
                    Event::ClusterDistributeRevenues { cluster_id, provider_id: node.provider_id },
                ));
            }
            i = i + 1;
        }
        proof {
            assert(keys.take(keys.len() as int) =~= keys);
        }
        match self.clusters.update(cluster_id, &cluster) {
            Ok(()) => {},
            Err(e) => return Err(e),
        }
        Ok(())
    }

    /// Puts the CDN revenues of an era into a cluster: each client pays the
    /// price of its traffic from its bonded funds, each CDN node is credited
    /// its share of the price of its traffic and the protocol the rest, each
    /// bucket's consumption is deducted from its cap where the cap does not
    /// exceed it, and the CDN nodes' shares go to the cluster's CDN revenues.
    #[verifier::loop_isolation(false)]
    pub fn message_cluster_put_cdn_revenue(
        &mut self,
        cluster_id: ClusterId,
        aggregates_accounts: Vec<(AccountId, u128)>,
        aggregates_nodes: Vec<(CdnNodeKey, u128)>,
        aggregates_buckets: Vec<(BucketId, Resource)>,
        era: u64,
    ) -> (r: Result<()>)
        requires
            old(self).clusters@.contains_key(cluster_id) ==> ({
                let c = old(self).clusters@[cluster_id];
                let rate = old(self).protocol.curr_converter.spec_rate();
                let usd = c.cdn_usd_per_gb;
                let fee = old(self).protocol.protocol_fee_bp as int;
                let charges = account_charges(aggregates_accounts@, usd, rate);
                let (ra, accs) = charge_accounts(old(self).accounts@, charges);
                let (rn, s1) = settle_cdn_nodes(old(self).cdn_settlement_start(), aggregates_nodes@, usd, rate, fee, old(self).validated_commit(era));
                let (rb, bks) = deduct_buckets(old(self).buckets.buckets@, aggregates_buckets@);
                &&& forall|i: int| 0 <= i < aggregates_accounts@.len() ==> priceable(#[trigger] aggregates_accounts@[i].1, usd, rate)
                &&& charges_fit(old(self).accounts@, charges, 0)
                &&& ra is Ok ==> settlement_fits(
                    old(self).cdn_settlement_start(),
                    aggregates_nodes@,
                    usd,
                    rate,
                    fee,
                    old(self).validated_commit(era),
                    old(self).validated_commit_fits(era),
                )
                &&& ra is Ok && rn is Ok ==> deductions_fit(old(self).buckets.buckets@, aggregates_buckets@)
                &&& ra is Ok && rn is Ok && rb is Ok ==> c.cdn_revenues.0 + s1.cluster_payment <= u128::MAX
            }),
        ensures
            ({
                let c = old(self).clusters@[cluster_id];
                let rate = old(self).protocol.curr_converter.spec_rate();
                let usd = c.cdn_usd_per_gb;
                let fee = old(self).protocol.protocol_fee_bp as int;
                let charges = account_charges(aggregates_accounts@, usd, rate);
                let (ra, accs) = charge_accounts(old(self).accounts@, charges);
                let (rn, s1) = settle_cdn_nodes(old(self).cdn_settlement_start(), aggregates_nodes@, usd, rate, fee, old(self).validated_commit(era));
                let (rb, bks) = deduct_buckets(old(self).buckets.buckets@, aggregates_buckets@);
                &&& !old(self).clusters@.contains_key(cluster_id) ==> r == Err::<(), Error>(Error::ClusterDoesNotExist)
                    && *final(self) == *old(self)
                &&& old(self).clusters@.contains_key(cluster_id) ==> {
                    &&& final(self).accounts@ == accs
                    &&& final(self).accounts.accounts_keys@ == old(self).accounts.accounts_keys@
                    &&& ra is Err ==> r == ra && final(self).cdn_nodes == old(self).cdn_nodes
                        && final(self).protocol == old(self).protocol && final(self).committer == old(self).committer
                        && final(self).buckets == old(self).buckets && final(self).clusters == old(self).clusters
                    &&& ra is Ok ==> final(self).cdn_nodes.cdn_nodes@ == s1.cdn_nodes
                        && final(self).cdn_nodes.keys@ == old(self).cdn_nodes.keys@
                        && final(self).protocol == (ProtocolStore { revenues: Cash(s1.protocol_revenues as u128), ..old(self).protocol })
                        && final(self).committer.validated_commits@ == s1.validated
                        && final(self).committer.commits@ == old(self).committer.commits@
                        && final(self).committer.operator_id == old(self).committer.operator_id
                        && final(self).committer.era_settings == old(self).committer.era_settings
                    &&& ra is Ok && rn is Err ==> r == rn && final(self).buckets == old(self).buckets
                        && final(self).clusters == old(self).clusters
                    &&& ra is Ok && rn is Ok ==> final(self).buckets.buckets@ == bks
                        && final(self).buckets.next_bucket_id == old(self).buckets.next_bucket_id
                        && final(self).buckets.writers@ == old(self).buckets.writers@
                        && final(self).buckets.readers@ == old(self).buckets.readers@
                    &&& ra is Ok && rn is Ok && rb is Err ==> r == rb && final(self).clusters == old(self).clusters
                    &&& ra is Ok && rn is Ok && rb is Ok ==> r == Ok::<(), Error>(())
                        && final(self).clusters@ == old(self).clusters@.insert(
                            cluster_id,
                            ClusterView { cdn_revenues: Cash((c.cdn_revenues.0 + s1.cluster_payment) as u128), ..c },
                        )
                        && final(self).clusters.next_cluster_id == old(self).clusters.next_cluster_id
                        && final(self).clusters.clusters_ids@ == old(self).clusters.clusters_ids@
                }
            }),
            old(self).cdn_nodes.wf() ==> final(self).cdn_nodes.wf(),
            old(self).buckets.wf() ==> final(self).buckets.wf(),
            final(self).only_changed(
                old(self),
                set![Part::Accounts, Part::CdnNodes, Part::Protocol, Part::Committer, Part::Buckets, Part::Clusters],
            ),
            old(self).accounts.wf() ==> final(self).accounts.wf(),
    {
        let mut cluster = match self.clusters.get(cluster_id) {
            Ok(c) => c,
            Err(e) => return Err(e),
        };
        let conv = self.protocol.curr_converter;
        let usd_per_gb = cluster.cdn_usd_per_gb;
        let ghost rate = conv.spec_rate();
        let ghost charges = account_charges(aggregates_accounts@, usd_per_gb, rate);
        proof {
            lemma_charge_accounts_keeps_accounts(self.accounts@, charges);
            assert(charge_accounts(self.accounts@, charges).1.dom() =~= self.accounts@.dom());
        }

        // The price of each client's traffic.
        let mut payments: Vec<(AccountId, Balance)> = Vec::new();
        let mut i: usize = 0;
        while i < aggregates_accounts.len()
            invariant
                i <= aggregates_accounts@.len(),
                payments@.len() == i,
                forall|j: int| 0 <= j < i ==> payments@[j] == charges[j],
            decreases aggregates_accounts@.len() - i,
        {
            let (client_id, used) = aggregates_accounts[i];
            assert(priceable(aggregates_accounts@[i as int].1, usd_per_gb, rate));
            let cere = conv.to_cere(used * usd_per_gb / KB_PER_GB);
            payments.push((client_id, cere));
            i = i + 1;
        }
        assert(payments@ =~= charges);

        // The clients pay from their bonded funds.
        let mut charged: Balance = 0;
        let ghost target_a = charge_accounts(self.accounts@, charges);
        assert(charges.skip(0) =~= charges);
        let mut i: usize = 0;
        while i < payments.len()
            invariant
                i <= payments@.len(),
                payments@ == charges,
                charge_accounts(self.accounts@, charges.skip(i as int)) == target_a,
                charges_fit(self.accounts@, charges.skip(i as int), charged as int),
                self.accounts.accounts_keys@ == old(self).accounts.accounts_keys@,
                self.only_changed(old(self), set![Part::Accounts]),
            decreases payments@.len() - i,
        {
            let (client_id, payment) = payments[i];
            proof {
                assert(charges.skip(i as int)[0] == (client_id, payment));
                assert(charges.skip(i as int).drop_first() =~= charges.skip(i + 1));
            }
            match self.accounts.get(&client_id) {
                Ok(mut account) => {
                    match account.withdraw_bonded(Payable(payment)) {
                        Ok(()) => {},
                        Err(e) => return Err(e),
                    }
                    charged = charged + payment;
                    self.accounts.save(&client_id, &account);
                },
                Err(_) => return Err(Error::InsufficientBalance),
            }
            i = i + 1;
        }
        assert(charges.skip(i as int) =~= Seq::<(AccountId, Balance)>::empty());

        // The CDN nodes get their share, the protocol the rest.
        let ghost fee = self.protocol.protocol_fee_bp as int;
        let ghost commit = self.validated_commit(era);
        let ghost commit_fits = self.validated_commit_fits(era);
        let ghost target_n = settle_cdn_nodes(self.cdn_settlement_start(), aggregates_nodes@, usd_per_gb, rate, fee, commit);
        let ghost protocol0 = self.protocol;
        let ghost committer0 = self.committer;
        let ghost after_accounts = *self;
        let mut cluster_payment: Balance = 0;
        assert(aggregates_nodes@.skip(0) =~= aggregates_nodes@);
        let mut i: usize = 0;
        while i < aggregates_nodes.len()
            invariant
                i <= aggregates_nodes@.len(),
                settle_cdn_nodes(
                    CdnSettlement {
                        cdn_nodes: self.cdn_nodes.cdn_nodes@,
                        protocol_revenues: self.protocol.revenues.0 as int,
                        validated: self.committer.validated_commits@,
                        cluster_payment: cluster_payment as int,
                    },
                    aggregates_nodes@.skip(i as int),
                    usd_per_gb,
                    rate,
                    fee,
                    commit,
                ) == target_n,
                settlement_fits(
                    CdnSettlement {
                        cdn_nodes: self.cdn_nodes.cdn_nodes@,
                        protocol_revenues: self.protocol.revenues.0 as int,
                        validated: self.committer.validated_commits@,
                        cluster_payment: cluster_payment as int,
                    },
                    aggregates_nodes@.skip(i as int),
                    usd_per_gb,
                    rate,
                    fee,
                    commit,
                    commit_fits,
                ),
                self.protocol == (ProtocolStore { revenues: self.protocol.revenues, ..protocol0 }),
                self.committer.commits@ == committer0.commits@,
                self.committer.operator_id == committer0.operator_id,
                self.committer.era_settings == committer0.era_settings,
                self.cdn_nodes.keys@ == old(self).cdn_nodes.keys@,
                old(self).cdn_nodes.wf() ==> self.cdn_nodes.wf(),
                self.only_changed(&after_accounts, set![Part::CdnNodes, Part::Protocol, Part::Committer]),
            decreases aggregates_nodes@.len() - i,
        {
            let (cdn_node_key, used) = aggregates_nodes[i];
            proof {
                assert(aggregates_nodes@.skip(i as int)[0] == (cdn_node_key, used));
                assert(aggregates_nodes@.skip(i as int).drop_first() =~= aggregates_nodes@.skip(i + 1));
            }
            let mut cdn_node = match self.cdn_nodes.get(cdn_node_key) {
                Ok(n) => n,
                Err(e) => return Err(e),
            };
            let protocol_fee = self.protocol.get_protocol_fee_bp();
            let payment = conv.to_cere(used * usd_per_gb / KB_PER_GB);
            let node_payment = payment * (BASIS_POINTS - protocol_fee) / BASIS_POINTS;
            assert(node_payment <= payment) by (nonlinear_arith)
                requires
                    node_payment == payment * (BASIS_POINTS - protocol_fee) / (BASIS_POINTS as int),
                    protocol_fee <= BASIS_POINTS,
            ;
            let protocol_payment = payment - node_payment;
            cdn_node.put_payment(node_payment);
            self.protocol.put_revenues(Cash(protocol_payment));
            match self.cdn_nodes.update(cdn_node_key, &cdn_node) {
                Ok(()) => {},
                Err(e) => return Err(e),
            }
            let validated = self.committer.set_validated_commit(cdn_node_key, era);
            assert(validated is Ok);
            cluster_payment = cluster_payment + node_payment;
            i = i + 1;
        }
        assert(aggregates_nodes@.skip(i as int) =~= Seq::<(CdnNodeKey, u128)>::empty());

        // The consumption is deducted from the buckets.
        let ghost target_b = deduct_buckets(self.buckets.buckets@, aggregates_buckets@);
        proof {
            lemma_deduct_buckets_keeps_ids(self.buckets.buckets@, aggregates_buckets@);
        }
        let ghost after_nodes = *self;
        assert(aggregates_buckets@.skip(0) =~= aggregates_buckets@);
        let mut i: usize = 0;
        while i < aggregates_buckets.len()
            invariant
                i <= aggregates_buckets@.len(),
                deduct_buckets(self.buckets.buckets@, aggregates_buckets@.skip(i as int)) == target_b,
                deductions_fit(self.buckets.buckets@, aggregates_buckets@.skip(i as int)),
                self.buckets.next_bucket_id == old(self).buckets.next_bucket_id,
                self.buckets.writers@ == old(self).buckets.writers@,
                self.buckets.readers@ == old(self).buckets.readers@,
                self.only_changed(&after_nodes, set![Part::Buckets]),
            decreases aggregates_buckets@.len() - i,
        {
            let (bucket_id, used) = aggregates_buckets[i];
            proof {
                assert(aggregates_buckets@.skip(i as int)[0] == (bucket_id, used));
                assert(aggregates_buckets@.skip(i as int).drop_first() =~= aggregates_buckets@.skip(i + 1));
            }
            let mut bucket = match self.buckets.get(bucket_id) {
                Ok(b) => b,
                Err(e) => return Err(e),
            };
            if bucket.resource_consumption_cap <= used {
                bucket.resource_consumption_cap = bucket.resource_consumption_cap - used;
                match self.buckets.update(bucket_id, &bucket) {
                    Ok(()) => {},
                    Err(e) => return Err(e),
                }
            }
            i = i + 1;
        }
        assert(aggregates_buckets@.skip(i as int) =~= Seq::<(BucketId, Resource)>::empty());

        cluster.cdn_put_revenues(Cash(cluster_payment));
        match self.clusters.update(cluster_id, &cluster) {
            Ok(()) => {},
            Err(e) => return Err(e),
        }
        Ok(())
    }

    /// Takes the network and management fees from a cluster's CDN revenues,
    /// and pays the provider of each of its CDN nodes what the node was
    /// credited.
    #[verifier::loop_isolation(false)]
    pub fn message_cluster_distribute_cdn_revenue(&mut self, cluster_id: ClusterId) -> (r: Result<()>)
        requires
            old(self).clusters@.contains_key(cluster_id) ==> ({
                let c = old(self).clusters@[cluster_id];
                let cfg = old(self).protocol.network_fee_config;
                let (f1, f2, ok1, ok2) = after_fees(c.cdn_revenues.0, cfg.network_fee_bp, cfg.cluster_management_fee_bp);
                let ns = old(self).cdn_nodes.cdn_nodes@;
                let keys = c.cdn_nodes_keys;
                &&& c.cdn_revenues.0 * cfg.network_fee_bp <= u128::MAX
                &&& ok1 ==> (c.cdn_revenues.0 - f1) * cfg.cluster_management_fee_bp <= u128::MAX
                &&& ok2 ==> forall|p: int| 0 <= p <= keys.len() && all_known(ns, #[trigger] keys.take(p))
                    ==> undistributed_total(ns, keys.take(p)) <= u128::MAX
            }),
        ensures
            ({
                let c = old(self).clusters@[cluster_id];
                let cfg = old(self).protocol.network_fee_config;
                let (f1, f2, ok1, ok2) = after_fees(c.cdn_revenues.0, cfg.network_fee_bp, cfg.cluster_management_fee_bp);
                let left = c.cdn_revenues.0 - f1 - f2;
                let ns = old(self).cdn_nodes.cdn_nodes@;
                let keys = c.cdn_nodes_keys;
                let total = undistributed_total(ns, keys);
                let t1 = sent(old(self).transfers@, cfg.network_fee_destination, f1 as u128);
                let t2 = sent(t1, c.manager_id, f2 as u128);
                let (ns2, ts, paid) = pay_out_cdn_nodes(ns, keys, t2, Seq::empty());
                &&& !old(self).clusters@.contains_key(cluster_id) ==> r == Err::<(), Error>(Error::ClusterDoesNotExist)
                    && *final(self) == *old(self)
                &&& old(self).clusters@.contains_key(cluster_id) && !ok1 ==> r == Err::<(), Error>(Error::InsufficientBalance)
                    && final(self).transfers == old(self).transfers && final(self).events == old(self).events
                    && final(self).clusters == old(self).clusters && final(self).cdn_nodes == old(self).cdn_nodes
                &&& old(self).clusters@.contains_key(cluster_id) && ok1 && !ok2 ==> r == Err::<(), Error>(Error::InsufficientBalance)
                    && final(self).transfers@ == t1 && final(self).events == old(self).events
                    && final(self).clusters == old(self).clusters && final(self).cdn_nodes == old(self).cdn_nodes
                &&& old(self).clusters@.contains_key(cluster_id) && ok2 && (!all_known(ns, keys) || total > left)
                    ==> r == Err::<(), Error>(if !all_known(ns, keys) { Error::CdnNodeDoesNotExist } else { Error::InsufficientBalance })
                    && final(self).transfers@ == t2 && final(self).events == old(self).events
                    && final(self).clusters == old(self).clusters && final(self).cdn_nodes == old(self).cdn_nodes
                &&& old(self).clusters@.contains_key(cluster_id) && ok2 && all_known(ns, keys) && total <= left
                    ==> r == Ok::<(), Error>(())
                    && final(self).cdn_nodes.cdn_nodes@ == ns2
                    && final(self).cdn_nodes.keys@ == old(self).cdn_nodes.keys@
                    && final(self).transfers@ == ts
                    && final(self).events@ == old(self).events@ + paid.map_values(
                        |p: AccountId| Event::ClusterDistributeCdnRevenues { cluster_id, provider_id: p },
                    )
                    && final(self).clusters@ == old(self).clusters@.insert(
                        cluster_id,
                        ClusterView { cdn_revenues: Cash((left - total) as u128), ..c },
                    )
                    && final(self).clusters.next_cluster_id == old(self).clusters.next_cluster_id
                    && final(self).clusters.clusters_ids@ == old(self).clusters.clusters_ids@
            }),
            old(self).cdn_nodes.wf() ==> final(self).cdn_nodes.wf(),
            final(self).only_changed(old(self), set![Part::Clusters, Part::CdnNodes, Part::Transfers, Part::Events]),
            old(self).clusters.wf() ==> final(self).clusters.wf(),
    {
        let mut cluster = match self.clusters.get(cluster_id) {
            Ok(c) => c,
            Err(e) => return Err(e),
        };
        match self.capture_network_fee(&mut cluster.cdn_revenues) {
            Ok(()) => {},
            Err(e) => return Err(e),
        }
        let fee_bp = self.protocol.get_cluster_management_fee_bp();
        let manager_id = cluster.manager_id;
        match self.capture_fee(fee_bp, manager_id, &mut cluster.cdn_revenues) {
            Ok(()) => {},
            Err(e) => return Err(e),
        }
        let ghost ns = self.cdn_nodes.cdn_nodes@;
        let ghost keys = cluster.cdn_nodes_keys@;

        // What the CDN nodes were credited, in total.
        let mut distributed_revenue: Balance = 0;
        let mut i: usize = 0;
        while i < cluster.cdn_nodes_keys.len()
            invariant
                i <= keys.len(),
                cluster.cdn_nodes_keys@ == keys,
                self.cdn_nodes.cdn_nodes@ == ns,
                forall|j: int| 0 <= j < i ==> ns.contains_key(#[trigger] keys[j]),
                distributed_revenue == undistributed_total(ns, keys.take(i as int)),
            decreases keys.len() - i,
        {
            let cdn_node_key = cluster.cdn_nodes_keys[i];
            let cdn_node = match self.cdn_nodes.get(cdn_node_key) {
                Ok(n) => n,
                Err(e) => {
                    proof {
                        lemma_first_unknown(ns, keys, i as int);
                    }
                    return Err(e);
                },
            };
            proof {
                assert(keys.take(i + 1).drop_last() =~= keys.take(i as int));
                assert(all_known(ns, keys.take(i + 1)));
            }
            distributed_revenue = distributed_revenue + cdn_node.undistributed_payment;
            i = i + 1;
        }
        proof {
            assert(keys.take(keys.len() as int) =~= keys);
        }
        match cluster.cdn_revenues.pay(Payable(distributed_revenue)) {
            Ok(()) => {},
            Err(e) => return Err(e),
        }

        // The providers are paid what their nodes were credited.
        let ghost target = pay_out_cdn_nodes(ns, keys, self.transfers@, Seq::empty());
        let ghost before = *self;
        let ghost mut paid: Seq<AccountId> = Seq::empty();
        assert(keys.skip(0) =~= keys);
        assert(self.events@ =~= before.events@ + paid.map_values(
            |p: AccountId| Event::ClusterDistributeCdnRevenues { cluster_id, provider_id: p },
        ));
        let mut i: usize = 0;
        while i < cluster.cdn_nodes_keys.len()
            invariant
                i <= keys.len(),
                cluster.cdn_nodes_keys@ == keys,
                all_known(self.cdn_nodes.cdn_nodes@, keys),
                pay_out_cdn_nodes(self.cdn_nodes.cdn_nodes@, keys.skip(i as int), self.transfers@, paid) == target,
                self.events@ == before.events@ + paid.map_values(
                    |p: AccountId| Event::ClusterDistributeCdnRevenues { cluster_id, provider_id: p },
                ),
                self.cdn_nodes.keys@ == old(self).cdn_nodes.keys@,
                old(self).cdn_nodes.wf() ==> self.cdn_nodes.wf(),
                self.only_changed(&before, set![Part::CdnNodes, Part::Transfers, Part::Events]),
            decreases keys.len() - i,
        {
            let cdn_node_key = cluster.cdn_nodes_keys[i];
            let ghost events0 = self.events@;
            proof {
                assert(keys.skip(i as int)[0] == cdn_node_key);
                assert(keys.skip(i as int).drop_first() =~= keys.skip(i + 1));
                assert(self.cdn_nodes.cdn_nodes@.contains_key(keys[i as int]));
            }
            let mut cdn_node = match self.cdn_nodes.get(cdn_node_key) {
                Ok(n) => n,
                Err(e) => return Err(e),
            };
            let payment = cdn_node.undistributed_payment;
            match self.send_cash(cdn_node.provider_id, Cash(payment)) {
                Ok(()) => {},
                Err(e) => return Err(e),
            }
            match cdn_node.take_payment(payment) {
                Ok(()) => {},
                Err(e) => return Err(e),
            }
            match self.cdn_nodes.update(cdn_node_key, &cdn_node) {
                Ok(()) => {},
                Err(e) => return Err(e),
            }
            self.events.push(Event::ClusterDistributeCdnRevenues { cluster_id, provider_id: cdn_node.provider_id });
            proof {
                assert(paid.push(cdn_node.provider_id).map_values(
                    |p: AccountId| Event::ClusterDistributeCdnRevenues { cluster_id, provider_id: p },
                ) =~= paid.map_values(
                    |p: AccountId| Event::ClusterDistributeCdnRevenues { cluster_id, provider_id: p },
                ).push(Event::ClusterDistributeCdnRevenues { cluster_id, provider_id: cdn_node.provider_id }));
                paid = paid.push(cdn_node.provider_id);
            }
            i = i + 1;
        }
        assert(keys.skip(i as int) =~= Seq::<CdnNodeKey>::empty());
        match self.clusters.update(cluster_id, &cluster) {
            Ok(()) => {},
            Err(e) => return Err(e),
        }
        Ok(())
    }

    /// A cluster with its virtual nodes.
    pub fn message_cluster_get(&self, cluster_id: ClusterId) -> (r: Result<ClusterInfo>)
        ensures
            !self.clusters@.contains_key(cluster_id) ==> r is Err && r->Err_0 == Error::ClusterDoesNotExist,
            self.clusters@.contains_key(cluster_id) ==> r is Ok
                && r->Ok_0.cluster_id == cluster_id
                && r->Ok_0.cluster@ == self.clusters@[cluster_id]
                && r->Ok_0.cluster_v_nodes@ == self.topology.v_nodes_of_cluster(cluster_id),
    {
        let cluster = match self.clusters.get(cluster_id) {
            Ok(c) => c,
            Err(e) => return Err(e),
        };
        let cluster_v_nodes = self.topology.get_v_nodes_by_cluster(cluster_id);
        Ok(ClusterInfo { cluster_id, cluster, cluster_v_nodes })
    }

    /// The clusters with ids from `offset` on, at most `limit` of them, whose
    /// manager passes the filter, up to the first id without a cluster; and
    /// the next cluster id.
    pub fn message_cluster_list(&self, offset: u32, limit: u32, filter_manager_id: Option<AccountId>) -> (r: (Vec<ClusterInfo>, u32))
        requires
            offset + limit <= u32::MAX,
        ensures
            ({
                let ids = self.listed_clusters(offset as int, offset + limit, filter_manager_id);
                &&& r.0@.len() == ids.len()
                &&& forall|i: int| 0 <= i < ids.len() ==> {
                    &&& (#[trigger] r.0@[i]).cluster_id == ids[i]
                    &&& r.0@[i].cluster@ == self.clusters@[ids[i]]
                    &&& r.0@[i].cluster_v_nodes@ == self.topology.v_nodes_of_cluster(ids[i])
                }
                &&& r.1 == self.clusters.next_cluster_id
            }),
    {
        let end = offset + limit;
        let mut clusters: Vec<ClusterInfo> = Vec::new();
        let ghost all = self.listed_clusters(offset as int, end as int, filter_manager_id);
        let ghost mut ids: Seq<ClusterId> = Seq::empty();
        let mut cluster_id = offset;
        while cluster_id < end
            invariant
                offset <= cluster_id <= end,
                end == offset + limit,
                all == self.listed_clusters(offset as int, end as int, filter_manager_id),
                all == ids + self.listed_clusters(cluster_id as int, end as int, filter_manager_id),
                clusters@.len() == ids.len(),
                forall|i: int| 0 <= i < ids.len() ==> {
                    &&& (#[trigger] clusters@[i]).cluster_id == ids[i]
                    &&& clusters@[i].cluster@ == self.clusters@[ids[i]]
                    &&& clusters@[i].cluster_v_nodes@ == self.topology.v_nodes_of_cluster(ids[i])
                },
            ensures
                all == ids,
                clusters@.len() == ids.len(),
                forall|i: int| 0 <= i < ids.len() ==> {
                    &&& (#[trigger] clusters@[i]).cluster_id == ids[i]
                    &&& clusters@[i].cluster@ == self.clusters@[ids[i]]
                    &&& clusters@[i].cluster_v_nodes@ == self.topology.v_nodes_of_cluster(ids[i])
                },
            decreases end - cluster_id,
        {
            let cluster = match self.clusters.get(cluster_id) {
                Ok(c) => c,
                Err(_) => {
                    assert(ids + Seq::<ClusterId>::empty() =~= ids);
                    break;
                },
            };
            let keep = match filter_manager_id {
                Some(manager_id) => manager_id == cluster.manager_id,
                None => true,
            };
            if keep {
                let cluster_v_nodes = self.topology.get_v_nodes_by_cluster(cluster_id);
                clusters.push(ClusterInfo { cluster_id, cluster, cluster_v_nodes });
                proof {
                    let rest = self.listed_clusters(cluster_id + 1, end as int, filter_manager_id);
                    assert(ids + (seq![cluster_id] + rest) =~= ids.push(cluster_id) + rest);
                    ids = ids.push(cluster_id);
                }
            }
            cluster_id = cluster_id + 1;
        }
        proof {
            if cluster_id >= end {
                assert(ids + Seq::<ClusterId>::empty() =~= ids);
            }
        }
        (clusters, self.clusters.next_cluster_id)
    }
}

/// Once the manager of a cluster has set its CDN rate, reading the rate
/// gives what was set, and the rates of the other clusters are as before.
pub proof fn lemma_cdn_rate_read_back(before: DdcBucket, after: DdcBucket, cluster_id: ClusterId, rate: Balance, other: ClusterId)
    requires
        before.manager_check(cluster_id) is Ok,
        after.clusters@ == before.clusters@.insert(
            cluster_id,
            (ClusterView { cdn_usd_per_gb: rate, ..before.clusters@[cluster_id] }),
        ),
    ensures
        after.cdn_rate_of(cluster_id) == Ok::<Balance, Error>(rate),
        other != cluster_id ==> after.cdn_rate_of(other) == before.cdn_rate_of(other),
{
}

/// A cluster just created reads the default CDN rate until its manager
/// sets another; a cluster id that no cluster has reads an error.
pub proof fn lemma_cdn_rate_of_new_cluster(
    before: DdcBucket,
    after: DdcBucket,
    cluster_id: ClusterId,
    manager_id: AccountId,
    cluster_params: ClusterParams,
    unknown: ClusterId,
)
    requires
        after.clusters@ == before.clusters@.insert(cluster_id, new_cluster_view(manager_id, cluster_params, 0)),
    ensures
        after.cdn_rate_of(cluster_id) == Ok::<Balance, Error>(CDN_USD_PER_GB),
        !after.clusters@.contains_key(unknown) ==> after.cdn_rate_of(unknown) == Err::<Balance, Error>(Error::ClusterDoesNotExist),
{
}

} // verus!
