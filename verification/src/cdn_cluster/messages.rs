//! The public interface to manage CDN clusters.

use vstd::prelude::*;
use crate::{AccountId, Balance, BASIS_POINTS, DdcBucket, Error, Event, Part, Result, sent};
use crate::bucket::entity::BucketId;
use crate::cash::{Cash, Payable};
use crate::cdn_node::entity::CdnNodeKey;
use crate::cluster::entity::KB_PER_GB;
use crate::cluster::messages::{after_fees, all_known};
use crate::cluster::settlement::{
    CdnSettlement, account_charges, charge_accounts, lemma_charge_accounts_keeps_accounts, charges_fit, deduct_buckets, deductions_fit, pay_out_cdn_nodes,
    priceable, settle_cdn_nodes, settlement_fits, undistributed_total, lemma_deduct_buckets_keeps_ids,
};
use crate::node::entity::Resource;
use crate::node::messages::passes;
use crate::perm::entity::Permission;
use crate::protocol::store::ProtocolStore;
use super::entity::{CdnClusterStatus, CdnClusterView, ClusterId, CDN_CLUSTER_USD_PER_GB};

verus! {

impl DdcBucket {
    /// Why creating a CDN cluster of these CDN nodes is refused, if it is:
    /// the first of them that is missing, or whose provider does not trust
    /// the caller as a manager.
    pub open spec fn cdn_cluster_nodes_check(&self, keys: Seq<CdnNodeKey>) -> Result<()>
        decreases keys.len(),
    {
        if keys.len() == 0 {
            Ok(())
        } else if !self.cdn_nodes.cdn_nodes@.contains_key(keys[0]) {
            Err(Error::CdnNodeDoesNotExist)
        } else if !self.perms.holds(
            self.caller(),
            Permission::ClusterManagerTrustedBy(self.cdn_nodes.cdn_nodes@[keys[0]].provider_id),
        ) {
            Err(Error::ClusterManagerIsNotTrusted)
        } else {
            self.cdn_cluster_nodes_check(keys.drop_first())
        }
    }

    /// The ids from `id` on, below `end`, of the CDN clusters whose manager
    /// passes the filter; the first id without a CDN cluster ends the list.
    pub open spec fn listed_cdn_clusters(&self, id: int, end: int, filter: Option<AccountId>) -> Seq<ClusterId>
        decreases end - id,
    {
        if id >= end || id >= self.cdn_clusters@.len() {
            Seq::empty()
        } else {
            let rest = self.listed_cdn_clusters(id + 1, end, filter);
            if passes(filter, self.cdn_clusters@[id].manager_id) {
                seq![id as ClusterId] + rest
            } else {
                rest
            }
        }
    }

    /// Succeeds when the provider `trusted_by` trusts `manager` as a cluster manager.
    fn only_cdn_trusted_manager(&self, manager: AccountId, trusted_by: AccountId) -> (r: Result<()>)
        ensures
            r == if self.perms.holds(manager, Permission::ClusterManagerTrustedBy(trusted_by)) {
                Ok::<(), Error>(())
            } else {
                Err(Error::ClusterManagerIsNotTrusted)
            },
    {
        let perm = Permission::ClusterManagerTrustedBy(trusted_by);
        if self.perms.has_permission(manager, perm) {
            Ok(())
        } else {
            Err(Error::ClusterManagerIsNotTrusted)
        }
    }

    /// Creates a CDN cluster of CDN nodes whose providers all trust the
    /// caller, who manages it.
    pub fn message_cdn_cluster_create(&mut self, cdn_nodes_keys: Vec<CdnNodeKey>) -> (r: Result<ClusterId>)
        requires
            old(self).cdn_clusters@.len() <= u32::MAX,
        ensures
            ({
                let check = old(self).cdn_cluster_nodes_check(cdn_nodes_keys@);
                let id = old(self).cdn_clusters@.len() as ClusterId;
                &&& check is Err ==> r == Err::<ClusterId, Error>(check->Err_0) && *final(self) == *old(self)
                &&& check is Ok ==> r == Ok::<ClusterId, Error>(id)
                    && final(self).cdn_clusters@ == old(self).cdn_clusters@.push(CdnClusterView {
                        manager_id: old(self).caller(),
                        cdn_nodes: cdn_nodes_keys@,
                        resources_used: 0,
                        revenues: Cash(0),
                        usd_per_gb: CDN_CLUSTER_USD_PER_GB,
                    })
                    && final(self).events@ == old(self).events@.push(Event::CdnClusterCreated {
                        cluster_id: id,
                        manager: old(self).caller(),
                    })
            }),
            final(self).only_changed(old(self), set![Part::CdnClusters, Part::Events]),
    {
        let manager = self.env.caller;
        let ghost keys = cdn_nodes_keys@;
        assert(keys.skip(0) =~= keys);
        let mut i: usize = 0;
        while i < cdn_nodes_keys.len()
            invariant
                i <= keys.len(),
                cdn_nodes_keys@ == keys,
                manager == self.caller(),
                self.cdn_cluster_nodes_check(keys) == self.cdn_cluster_nodes_check(keys.skip(i as int)),
            decreases keys.len() - i,
        {
            let cdn_node_key = cdn_nodes_keys[i];
            proof {
                assert(keys.skip(i as int)[0] == cdn_node_key);
                assert(keys.skip(i as int).drop_first() =~= keys.skip(i + 1));
            }
            let cdn_node = match self.cdn_nodes.get(cdn_node_key) {
                Ok(n) => n,
                Err(e) => return Err(e),
            };
            match self.only_cdn_trusted_manager(manager, cdn_node.provider_id) {
                Ok(()) => {},
                Err(e) => return Err(e),
            }
            i = i + 1;
        }
        assert(keys.skip(i as int) =~= Seq::<CdnNodeKey>::empty());
        let cluster_id = match self.cdn_clusters.create(manager, cdn_nodes_keys) {
            Ok(id) => id,
            Err(e) => return Err(e),
        };
        self.events.push(Event::CdnClusterCreated { cluster_id, manager });
        Ok(cluster_id)
    }

    /// Puts the CDN revenues of an era into a CDN cluster: each client pays
    /// the price of its traffic from its bonded funds, each CDN node is
    /// credited its share of the price of its traffic and the protocol the
    /// rest, each bucket's consumption is deducted from its cap where the cap
    /// does not exceed it, and the CDN nodes' shares go to the CDN cluster.
    #[verifier::loop_isolation(false)]
    pub fn message_cdn_cluster_put_revenue(
        &mut self,
        cluster_id: ClusterId,
        aggregates_accounts: Vec<(AccountId, u128)>,
        aggregates_nodes: Vec<(CdnNodeKey, u128)>,
        aggregates_buckets: Vec<(BucketId, Resource)>,
        era: u64,
    ) -> (r: Result<()>)
        requires
            cluster_id < old(self).cdn_clusters@.len() ==> ({
                let c = old(self).cdn_clusters@[cluster_id as int];
                let rate = old(self).protocol.curr_converter.spec_rate();
                let usd = c.usd_per_gb;
                let fee = old(self).protocol.protocol_fee_bp as int;
                let charges = account_charges(aggregates_accounts@, usd, rate);
                let (ra, accs) = charge_accounts(old(self).accounts@, charges);
                let (rn, s1) = settle_cdn_nodes(old(self).cdn_settlement_start(), aggregates_nodes@, usd, rate, fee, old(self).validated_commit(era));
                let (rb, bks) = deduct_buckets(old(self).buckets.buckets@, aggregates_buckets@);
                &&& forall|i: int| 0 <= i < aggregates_accounts@.len() ==> priceable(#[trigger] aggregates_accounts@[i].1, usd, rate)
                &&& charges_fit(old(self).accounts@, charges, 0)
                &&& ra is Ok ==> settlement_fits(
                    old(self).cdn_settlement_start(),
                    aggregates_nodes@,
                    usd,
                    rate,
                    fee,
                    old(self).validated_commit(era),
                    old(self).validated_commit_fits(era),
                )
                &&& ra is Ok && rn is Ok ==> deductions_fit(old(self).buckets.buckets@, aggregates_buckets@)
                &&& ra is Ok && rn is Ok && rb is Ok ==> c.revenues.0 + s1.cluster_payment <= u128::MAX
            }),
        ensures
            ({
                let c = old(self).cdn_clusters@[cluster_id as int];
                let rate = old(self).protocol.curr_converter.spec_rate();
                let usd = c.usd_per_gb;
                let fee = old(self).protocol.protocol_fee_bp as int;
                let charges = account_charges(aggregates_accounts@, usd, rate);
                let (ra, accs) = charge_accounts(old(self).accounts@, charges);
                let (rn, s1) = settle_cdn_nodes(old(self).cdn_settlement_start(), aggregates_nodes@, usd, rate, fee, old(self).validated_commit(era));
                let (rb, bks) = deduct_buckets(old(self).buckets.buckets@, aggregates_buckets@);
                &&& cluster_id >= old(self).cdn_clusters@.len() ==> r == Err::<(), Error>(Error::ClusterDoesNotExist)
                    && *final(self) == *old(self)
                &&& cluster_id < old(self).cdn_clusters@.len() ==> {
                    &&& final(self).accounts@ == accs
                    &&& final(self).accounts.accounts_keys@ == old(self).accounts.accounts_keys@
                    &&& ra is Err ==> r == ra && final(self).cdn_nodes == old(self).cdn_nodes
                        && final(self).protocol == old(self).protocol && final(self).committer == old(self).committer
                        && final(self).buckets == old(self).buckets && final(self).cdn_clusters == old(self).cdn_clusters
                    &&& ra is Ok ==> final(self).cdn_nodes.cdn_nodes@ == s1.cdn_nodes
                        && final(self).cdn_nodes.keys@ == old(self).cdn_nodes.keys@
                        && final(self).protocol == (ProtocolStore { revenues: Cash(s1.protocol_revenues as u128), ..old(self).protocol })
                        && final(self).committer.validated_commits@ == s1.validated
                        && final(self).committer.commits@ == old(self).committer.commits@
                        && final(self).committer.operator_id == old(self).committer.operator_id
                        && final(self).committer.era_settings == old(self).committer.era_settings
                    &&& ra is Ok && rn is Err ==> r == rn && final(self).buckets == old(self).buckets
                        && final(self).cdn_clusters == old(self).cdn_clusters
                    &&& ra is Ok && rn is Ok ==> final(self).buckets.buckets@ == bks
                        && final(self).buckets.next_bucket_id == old(self).buckets.next_bucket_id
                        && final(self).buckets.writers@ == old(self).buckets.writers@
                        && final(self).buckets.readers@ == old(self).buckets.readers@
                    &&& ra is Ok && rn is Ok && rb is Err ==> r == rb && final(self).cdn_clusters == old(self).cdn_clusters
                    &&& ra is Ok && rn is Ok && rb is Ok ==> r == Ok::<(), Error>(())
                        && final(self).cdn_clusters@ == old(self).cdn_clusters@.update(
                            cluster_id as int,
                            CdnClusterView { revenues: Cash((c.revenues.0 + s1.cluster_payment) as u128), ..c },
                        )
                }
            }),
            old(self).cdn_nodes.wf() ==> final(self).cdn_nodes.wf(),
            old(self).buckets.wf() ==> final(self).buckets.wf(),
            final(self).only_changed(
                old(self),
                set![Part::Accounts, Part::CdnNodes, Part::Protocol, Part::Committer, Part::Buckets, Part::CdnClusters],
            ),
            old(self).accounts.wf() ==> final(self).accounts.wf(),
    {
        let mut cluster = match self.cdn_clusters.get(cluster_id) {
            Ok(c) => c,
            Err(e) => return Err(e),
        };
        let conv = self.protocol.curr_converter;
        let usd_per_gb = cluster.usd_per_gb;
        let ghost rate = conv.spec_rate();
        let ghost charges = account_charges(aggregates_accounts@, usd_per_gb, rate);
        proof {
            lemma_charge_accounts_keeps_accounts(self.accounts@, charges);
            assert(charge_accounts(self.accounts@, charges).1.dom() =~= self.accounts@.dom());
        }

        // The price of each client's traffic.
        let mut payments: Vec<(AccountId, Balance)> = Vec::new();
        let mut i: usize = 0;
        while i < aggregates_accounts.len()
            invariant
                i <= aggregates_accounts@.len(),
                payments@.len() == i,
                forall|j: int| 0 <= j < i ==> payments@[j] == charges[j],
            decreases aggregates_accounts@.len() - i,
        {
            let (client_id, used) = aggregates_accounts[i];
            assert(priceable(aggregates_accounts@[i as int].1, usd_per_gb, rate));
            let cere = conv.to_cere(used * usd_per_gb / KB_PER_GB);
            payments.push((client_id, cere));
            i = i + 1;
        }
        assert(payments@ =~= charges);

        // The clients pay from their bonded funds.
        let mut charged: Balance = 0;
        let ghost target_a = charge_accounts(self.accounts@, charges);
        assert(charges.skip(0) =~= charges);
        let mut i: usize = 0;
        while i < payments.len()
            invariant
                i <= payments@.len(),
                payments@ == charges,
                charge_accounts(self.accounts@, charges.skip(i as int)) == target_a,
                charges_fit(self.accounts@, charges.skip(i as int), charged as int),
                self.accounts.accounts_keys@ == old(self).accounts.accounts_keys@,
                self.only_changed(old(self), set![Part::Accounts]),
            decreases payments@.len() - i,
        {
            let (client_id, payment) = payments[i];
            proof {
                assert(charges.skip(i as int)[0] == (client_id, payment));
                assert(charges.skip(i as int).drop_first() =~= charges.skip(i + 1));
            }
            match self.accounts.get(&client_id) {
                Ok(mut account) => {
                    match account.withdraw_bonded(Payable(payment)) {
                        Ok(()) => {},
                        Err(e) => return Err(e),
                    }
                    charged = charged + payment;
                    self.accounts.save(&client_id, &account);
                },
                Err(_) => return Err(Error::InsufficientBalance),
            }
            i = i + 1;
        }
        assert(charges.skip(i as int) =~= Seq::<(AccountId, Balance)>::empty());

        // The CDN nodes get their share, the protocol the rest.
        let ghost fee = self.protocol.protocol_fee_bp as int;
        let ghost commit = self.validated_commit(era);
        let ghost commit_fits = self.validated_commit_fits(era);
        let ghost target_n = settle_cdn_nodes(self.cdn_settlement_start(), aggregates_nodes@, usd_per_gb, rate, fee, commit);
        let ghost protocol0 = self.protocol;
        let ghost committer0 = self.committer;
        let ghost after_accounts = *self;
        let mut cluster_payment: Balance = 0;
        assert(aggregates_nodes@.skip(0) =~= aggregates_nodes@);
        let mut i: usize = 0;
        while i < aggregates_nodes.len()
            invariant
                i <= aggregates_nodes@.len(),
                settle_cdn_nodes(
                    CdnSettlement {
                        cdn_nodes: self.cdn_nodes.cdn_nodes@,
                        protocol_revenues: self.protocol.revenues.0 as int,
                        validated: self.committer.validated_commits@,
                        cluster_payment: cluster_payment as int,
                    },
                    aggregates_nodes@.skip(i as int),
                    usd_per_gb,
                    rate,
                    fee,
                    commit,
                ) == target_n,
                settlement_fits(
                    CdnSettlement {
                        cdn_nodes: self.cdn_nodes.cdn_nodes@,
                        protocol_revenues: self.protocol.revenues.0 as int,
                        validated: self.committer.validated_commits@,
                        cluster_payment: cluster_payment as int,
                    },
                    aggregates_nodes@.skip(i as int),
                    usd_per_gb,
                    rate,
                    fee,
                    commit,
                    commit_fits,
                ),
                self.protocol == (ProtocolStore { revenues: self.protocol.revenues, ..protocol0 }),
                self.committer.commits@ == committer0.commits@,
                self.committer.operator_id == committer0.operator_id,
                self.committer.era_settings == committer0.era_settings,
                self.cdn_nodes.keys@ == old(self).cdn_nodes.keys@,
                old(self).cdn_nodes.wf() ==> self.cdn_nodes.wf(),
                self.only_changed(&after_accounts, set![Part::CdnNodes, Part::Protocol, Part::Committer]),
            decreases aggregates_nodes@.len() - i,
        {
            let (cdn_node_key, used) = aggregates_nodes[i];
            proof {
                assert(aggregates_nodes@.skip(i as int)[0] == (cdn_node_key, used));
                assert(aggregates_nodes@.skip(i as int).drop_first() =~= aggregates_nodes@.skip(i + 1));
            }
            let mut cdn_node = match self.cdn_nodes.get(cdn_node_key) {
                Ok(n) => n,
                Err(e) => return Err(e),
            };
            let protocol_fee = self.protocol.get_protocol_fee_bp();
            let payment = conv.to_cere(used * usd_per_gb / KB_PER_GB);
            let node_payment = payment * (BASIS_POINTS - protocol_fee) / BASIS_POINTS;
            assert(node_payment <= payment) by (nonlinear_arith)
                requires
                    node_payment == payment * (BASIS_POINTS - protocol_fee) / (BASIS_POINTS as int),
                    protocol_fee <= BASIS_POINTS,
            ;
            let protocol_payment = payment - node_payment;
            cdn_node.put_payment(node_payment);
            self.protocol.put_revenues(Cash(protocol_payment));
            match self.cdn_nodes.update(cdn_node_key, &cdn_node) {
                Ok(()) => {},
                Err(e) => return Err(e),
            }
            let validated = self.committer.set_validated_commit(cdn_node_key, era);
            assert(validated is Ok);
            cluster_payment = cluster_payment + node_payment;
            i = i + 1;
        }
        assert(aggregates_nodes@.skip(i as int) =~= Seq::<(CdnNodeKey, u128)>::empty());

        // The consumption is deducted from the buckets.
        let ghost target_b = deduct_buckets(self.buckets.buckets@, aggregates_buckets@);
        proof {
            lemma_deduct_buckets_keeps_ids(self.buckets.buckets@, aggregates_buckets@);
        }
        let ghost after_nodes = *self;
        assert(aggregates_buckets@.skip(0) =~= aggregates_buckets@);
        let mut i: usize = 0;
        while i < aggregates_buckets.len()
            invariant
                i <= aggregates_buckets@.len(),
                deduct_buckets(self.buckets.buckets@, aggregates_buckets@.skip(i as int)) == target_b,
                deductions_fit(self.buckets.buckets@, aggregates_buckets@.skip(i as int)),
                self.buckets.next_bucket_id == old(self).buckets.next_bucket_id,
                self.buckets.writers@ == old(self).buckets.writers@,
                self.buckets.readers@ == old(self).buckets.readers@,
                self.only_changed(&after_nodes, set![Part::Buckets]),
            decreases aggregates_buckets@.len() - i,
        {
            let (bucket_id, used) = aggregates_buckets[i];
            proof {
                assert(aggregates_buckets@.skip(i as int)[0] == (bucket_id, used));
                assert(aggregates_buckets@.skip(i as int).drop_first() =~= aggregates_buckets@.skip(i + 1));
            }
            let mut bucket = match self.buckets.get(bucket_id) {
                Ok(b) => b,
                Err(e) => return Err(e),
            };
            if bucket.resource_consumption_cap <= used {
                bucket.resource_consumption_cap = bucket.resource_consumption_cap - used;
                match self.buckets.update(bucket_id, &bucket) {
                    Ok(()) => {},
                    Err(e) => return Err(e),
                }
            }
            i = i + 1;
        }
        assert(aggregates_buckets@.skip(i as int) =~= Seq::<(BucketId, Resource)>::empty());

        cluster.put_revenues(Cash(cluster_payment));
        self.cdn_clusters.set(cluster_id, cluster);
        Ok(())
    }

    /// Takes the network and management fees from a CDN cluster's revenues,
    /// and pays the provider of each of its CDN nodes what the node was
    /// credited. What each step takes from the revenues stays taken when a
    /// later step fails.
    #[verifier::loop_isolation(false)]
    pub fn message_cdn_cluster_distribute_revenues(&mut self, cluster_id: ClusterId) -> (r: Result<()>)
        requires
            cluster_id < old(self).cdn_clusters@.len() ==> ({
                let c = old(self).cdn_clusters@[cluster_id as int];
                let cfg = old(self).network_fee.fee_config;
                let (f1, f2, ok1, ok2) = after_fees(c.revenues.0, cfg.network_fee_bp, cfg.cluster_management_fee_bp);
                let ns = old(self).cdn_nodes.cdn_nodes@;
                let keys = c.cdn_nodes;
                &&& c.revenues.0 * cfg.network_fee_bp <= u128::MAX
                &&& ok1 ==> (c.revenues.0 - f1) * cfg.cluster_management_fee_bp <= u128::MAX
                &&& ok2 ==> forall|p: int| 0 <= p <= keys.len() && all_known(ns, #[trigger] keys.take(p))
                    ==> undistributed_total(ns, keys.take(p)) <= u128::MAX
            }),
        ensures
            ({
                let c = old(self).cdn_clusters@[cluster_id as int];
                let cfg = old(self).network_fee.fee_config;
                let (f1, f2, ok1, ok2) = after_fees(c.revenues.0, cfg.network_fee_bp, cfg.cluster_management_fee_bp);
                let left = c.revenues.0 - f1 - f2;
                let ns = old(self).cdn_nodes.cdn_nodes@;
                let keys = c.cdn_nodes;
                let total = undistributed_total(ns, keys);
                let t1 = sent(old(self).transfers@, cfg.network_fee_destination, f1 as u128);
                let t2 = sent(t1, c.manager_id, f2 as u128);
                let (ns2, ts, paid) = pay_out_cdn_nodes(ns, keys, t2, Seq::empty());
                let with_revenues = |v: int| old(self).cdn_clusters@.update(cluster_id as int, CdnClusterView { revenues: Cash(v as u128), ..c });
                &&& cluster_id >= old(self).cdn_clusters@.len() ==> r == Err::<(), Error>(Error::ClusterDoesNotExist)
                    && *final(self) == *old(self)
                &&& cluster_id < old(self).cdn_clusters@.len() && !ok1 ==> r == Err::<(), Error>(Error::InsufficientBalance)
                    && *final(self) == *old(self)
                &&& cluster_id < old(self).cdn_clusters@.len() && ok1 && !ok2 ==> r == Err::<(), Error>(Error::InsufficientBalance)
                    && final(self).transfers@ == t1 && final(self).events == old(self).events
                    && final(self).cdn_clusters@ == with_revenues(c.revenues.0 - f1)
                    && final(self).cdn_nodes == old(self).cdn_nodes
                &&& cluster_id < old(self).cdn_clusters@.len() && ok2 && (!all_known(ns, keys) || total > left)
                    ==> r == Err::<(), Error>(if !all_known(ns, keys) { Error::CdnNodeDoesNotExist } else { Error::InsufficientBalance })
                    && final(self).transfers@ == t2 && final(self).events == old(self).events
                    && final(self).cdn_clusters@ == with_revenues(left)
                    && final(self).cdn_nodes == old(self).cdn_nodes
                &&& cluster_id < old(self).cdn_clusters@.len() && ok2 && all_known(ns, keys) && total <= left
                    ==> r == Ok::<(), Error>(())
                    && final(self).cdn_nodes.cdn_nodes@ == ns2
                    && final(self).cdn_nodes.keys@ == old(self).cdn_nodes.keys@
                    && final(self).transfers@ == ts
                    && final(self).events@ == old(self).events@ + paid.map_values(
                        |p: AccountId| Event::ClusterDistributeRevenues { cluster_id, provider_id: p },
                    )
                    && final(self).cdn_clusters@ == with_revenues(left - total)
            }),
            old(self).cdn_nodes.wf() ==> final(self).cdn_nodes.wf(),
            final(self).only_changed(old(self), set![Part::CdnClusters, Part::CdnNodes, Part::Transfers, Part::Events]),
    {
        let mut cluster = match self.cdn_clusters.get(cluster_id) {
            Ok(c) => c,
            Err(e) => return Err(e),
        };
        let network_fee_bp = self.network_fee.fee_config.network_fee_bp;
        let network_fee_destination = self.network_fee.fee_config.network_fee_destination;
        match self.capture_fee(network_fee_bp, network_fee_destination, &mut cluster.revenues) {
            Ok(()) => {},
            Err(e) => return Err(e),
        }
        let fee_bp = self.network_fee.cluster_management_fee_bp();
        let manager_id = cluster.manager_id;
        match self.capture_fee(fee_bp, manager_id, &mut cluster.revenues) {
            Ok(()) => {},
            Err(e) => {
                self.cdn_clusters.set(cluster_id, cluster);
                return Err(e);
            },
        }
        let ghost ns = self.cdn_nodes.cdn_nodes@;
        let ghost keys = cluster.cdn_nodes@;
        let ghost after_fees_state = *self;
        let ghost cluster_after_fees = cluster@;

        // What the CDN nodes were credited, in total.
        let mut distributed_revenue: Balance = 0;
        let mut i: usize = 0;
        while i < cluster.cdn_nodes.len()
            invariant
                i <= keys.len(),
                cluster.cdn_nodes@ == keys,
                cluster@ == cluster_after_fees,
                *self == after_fees_state,
                self.cdn_nodes.cdn_nodes@ == ns,
                forall|j: int| 0 <= j < i ==> ns.contains_key(#[trigger] keys[j]),
                distributed_revenue == undistributed_total(ns, keys.take(i as int)),
            decreases keys.len() - i,
        {
            let cdn_node_key = cluster.cdn_nodes[i];
            let cdn_node = match self.cdn_nodes.get(cdn_node_key) {
                Ok(n) => n,
                Err(e) => {
                    self.cdn_clusters.set(cluster_id, cluster);
                    return Err(e);
                },
            };
            proof {
                assert(keys.take(i + 1).drop_last() =~= keys.take(i as int));
                assert(all_known(ns, keys.take(i + 1)));
            }
            distributed_revenue = distributed_revenue + cdn_node.undistributed_payment;
            i = i + 1;
        }
        proof {
            assert(keys.take(keys.len() as int) =~= keys);
        }
        match cluster.revenues.pay(Payable(distributed_revenue)) {
            Ok(()) => {},
            Err(e) => {
                self.cdn_clusters.set(cluster_id, cluster);
                return Err(e);
            },
        }

        // The providers are paid what their nodes were credited.
        let ghost target = pay_out_cdn_nodes(ns, keys, self.transfers@, Seq::empty());
        let ghost before = *self;
        let ghost mut paid: Seq<AccountId> = Seq::empty();
        assert(keys.skip(0) =~= keys);
        assert(self.events@ =~= before.events@ + paid.map_values(
            |p: AccountId| Event::ClusterDistributeRevenues { cluster_id, provider_id: p },
        ));
        let mut i: usize = 0;
        while i < cluster.cdn_nodes.len()
            invariant
                i <= keys.len(),
                cluster.cdn_nodes@ == keys,
                all_known(self.cdn_nodes.cdn_nodes@, keys),
                pay_out_cdn_nodes(self.cdn_nodes.cdn_nodes@, keys.skip(i as int), self.transfers@, paid) == target,
                self.events@ == before.events@ + paid.map_values(
                    |p: AccountId| Event::ClusterDistributeRevenues { cluster_id, provider_id: p },
                ),
                self.cdn_nodes.keys@ == old(self).cdn_nodes.keys@,
                old(self).cdn_nodes.wf() ==> self.cdn_nodes.wf(),
                self.only_changed(&before, set![Part::CdnNodes, Part::Transfers, Part::Events]),
            decreases keys.len() - i,
        {
            let cdn_node_key = cluster.cdn_nodes[i];
            proof {
                assert(keys.skip(i as int)[0] == cdn_node_key);
                assert(keys.skip(i as int).drop_first() =~= keys.skip(i + 1));
                assert(self.cdn_nodes.cdn_nodes@.contains_key(keys[i as int]));
            }
            let mut cdn_node = match self.cdn_nodes.get(cdn_node_key) {
                Ok(n) => n,
                Err(e) => return Err(e),
            };
            let payment = cdn_node.undistributed_payment;
            match self.send_cash(cdn_node.provider_id, Cash(payment)) {
                Ok(()) => {},
                Err(e) => return Err(e),
            }
            match cdn_node.take_payment(payment) {
                Ok(()) => {},
                Err(e) => return Err(e),
            }
            match self.cdn_nodes.update(cdn_node_key, &cdn_node) {
                Ok(()) => {},
                Err(e) => return Err(e),
            }
            self.events.push(Event::ClusterDistributeRevenues { cluster_id, provider_id: cdn_node.provider_id });
            proof {
                assert(paid.push(cdn_node.provider_id).map_values(
                    |p: AccountId| Event::ClusterDistributeRevenues { cluster_id, provider_id: p },
                ) =~= paid.map_values(
                    |p: AccountId| Event::ClusterDistributeRevenues { cluster_id, provider_id: p },
                ).push(Event::ClusterDistributeRevenues { cluster_id, provider_id: cdn_node.provider_id }));
                paid = paid.push(cdn_node.provider_id);
            }
            i = i + 1;
        }
        assert(keys.skip(i as int) =~= Seq::<CdnNodeKey>::empty());
        self.cdn_clusters.set(cluster_id, cluster);
        Ok(())
    }

    /// A CDN cluster with its id.
    pub fn message_cdn_cluster_get(&self, cluster_id: ClusterId) -> (r: Result<CdnClusterStatus>)
        ensures
            cluster_id >= self.cdn_clusters@.len() ==> r is Err && r->Err_0 == Error::ClusterDoesNotExist,
            cluster_id < self.cdn_clusters@.len() ==> r is Ok && r->Ok_0.cluster_id == cluster_id
                && r->Ok_0.cluster@ == self.cdn_clusters@[cluster_id as int],
    {
        let cluster = match self.cdn_clusters.get(cluster_id) {
            Ok(c) => c,
            Err(e) => return Err(e),
        };
        Ok(CdnClusterStatus { cluster_id, cluster })
    }

    /// The CDN clusters with ids from `offset` on, at most `limit` of them,
    /// whose manager passes the filter; and the number of storage clusters.
    pub fn message_cdn_cluster_list(
        &self,
        offset: u32,
        limit: u32,
        filter_manager_id: Option<AccountId>,
    ) -> (r: (Vec<CdnClusterStatus>, u32))
        requires
            offset + limit <= u32::MAX,
            self.clusters.clusters_ids@.len() <= u32::MAX,
        ensures
            ({
                let ids = self.listed_cdn_clusters(offset as int, offset + limit, filter_manager_id);
                &&& r.0@.len() == ids.len()
                &&& forall|i: int| 0 <= i < ids.len() ==> {
                    &&& (#[trigger] r.0@[i]).cluster_id == ids[i]
                    &&& r.0@[i].cluster@ == self.cdn_clusters@[ids[i] as int]
                }
                &&& r.1 == self.clusters.clusters_ids@.len()
            }),
    {
        let end = offset + limit;
        let mut clusters: Vec<CdnClusterStatus> = Vec::new();
        let ghost all = self.listed_cdn_clusters(offset as int, end as int, filter_manager_id);
        let ghost mut ids: Seq<ClusterId> = Seq::empty();
        let mut cluster_id = offset;
        while cluster_id < end
            invariant
                offset <= cluster_id <= end,
                end == offset + limit,
                all == self.listed_cdn_clusters(offset as int, end as int, filter_manager_id),
                all == ids + self.listed_cdn_clusters(cluster_id as int, end as int, filter_manager_id),
                clusters@.len() == ids.len(),
                forall|i: int| 0 <= i < ids.len() ==> {
                    &&& (#[trigger] clusters@[i]).cluster_id == ids[i]
                    &&& clusters@[i].cluster@ == self.cdn_clusters@[ids[i] as int]
                },
            ensures
                all == ids,
                clusters@.len() == ids.len(),
                forall|i: int| 0 <= i < ids.len() ==> {
                    &&& (#[trigger] clusters@[i]).cluster_id == ids[i]
                    &&& clusters@[i].cluster@ == self.cdn_clusters@[ids[i] as int]
                },
            decreases end - cluster_id,
        {
            let cluster = match self.cdn_clusters.get(cluster_id) {
                Ok(c) => c,
                Err(_) => {
                    assert(ids + Seq::<ClusterId>::empty() =~= ids);
                    break;
                },
            };
            let keep = match filter_manager_id {
                Some(manager_id) => manager_id == cluster.manager_id,
                None => true,
            };
            if keep {
                clusters.push(CdnClusterStatus { cluster_id, cluster });
                proof {
                    let rest = self.listed_cdn_clusters(cluster_id + 1, end as int, filter_manager_id);
                    assert(ids + (seq![cluster_id] + rest) =~= ids.push(cluster_id) + rest);
                    ids = ids.push(cluster_id);
                }
            }
            cluster_id = cluster_id + 1;
        }
        proof {
            if cluster_id >= end {
                assert(ids + Seq::<ClusterId>::empty() =~= ids);
            }
        }
        (clusters, self.clusters.clusters_ids.len() as u32)
    }
}

} // verus!
