//! The public interface to manage Buckets.

use vstd::prelude::*;
use crate::{AccountId, DdcBucket, Error, Event, Part, Result, text_len};
use crate::account::entity::Account;
use crate::account::store::{MAX_ACCOUNTS_LEN_IN_VEC, with_added};
use crate::cash::Cash;
use crate::cluster::entity::{Cluster, ClusterId, ClusterView};
use crate::currency::{PRECISION, cere_of};
use crate::flow::Flow;
use crate::keymap::seq_remove_first;
use crate::node::entity::Resource;
use crate::node::messages::passes;
use crate::schedule::{Schedule, accrued};
use super::entity::{Bucket, BucketId, BucketInStatus, BucketParams, BucketStatus, BUCKET_PARAMS_MAX_LEN, in_status};

verus! {

/// Whether the caller may manage a bucket: it manages the bucket's cluster or owns the bucket.
pub open spec fn may_manage(bucket: Bucket, cluster: ClusterView, caller: AccountId) -> bool {
    cluster.manager_id == caller || bucket.owner_id == caller
}

impl DdcBucket {
    /// Why a management message on a bucket is refused, if it is: the bucket
    /// or its cluster is missing, or the caller may not manage it.
    pub open spec fn bucket_management_check(&self, bucket_id: BucketId) -> Result<()> {
        if !self.buckets.buckets@.contains_key(bucket_id) {
            Err(Error::BucketDoesNotExist)
        } else if !self.clusters@.contains_key(self.buckets.buckets@[bucket_id].cluster_id) {
            Err(Error::ClusterDoesNotExist)
        } else if !may_manage(
            self.buckets.buckets@[bucket_id],
            self.clusters@[self.buckets.buckets@[bucket_id].cluster_id],
            self.caller(),
        ) {
            Err(Error::OnlyOwner)
        } else {
            Ok(())
        }
    }

    /// Whether the status of the bucket can be computed without overflow.
    pub open spec fn status_computable(&self, bucket: Bucket) -> bool {
        self.accounts@.contains_key(bucket.flow.from) ==> self.accounts.covered_until_computable(
            bucket.flow.from,
            self.protocol.curr_converter,
        )
    }

    /// Whether `st` is the status of bucket `bucket_id` holding `bucket`.
    pub open spec fn is_status(&self, st: BucketStatus, bucket_id: BucketId, bucket: Bucket) -> bool {
        &&& st.bucket_id == bucket_id
        &&& st.bucket == in_status(bucket)
        &&& st.params == bucket.bucket_params
        &&& st.writer_ids@ == self.buckets.readers_of(bucket_id).push(bucket.owner_id)
        &&& st.reader_ids@ == self.buckets.readers_of(bucket_id)
        &&& st.rent_covered_until_ms == self.accounts.covered_until(bucket.flow.from, self.protocol.curr_converter)
    }

    /// The ids among `from..to` of existing buckets whose owner passes the
    /// filter and whose payer has an account.
    pub open spec fn listed_buckets(&self, from: int, to: int, filter: Option<AccountId>) -> Seq<BucketId>
        decreases to - from,
    {
        if to <= from {
            Seq::empty()
        } else {
            let id = (to - 1) as BucketId;
            let before = self.listed_buckets(from, to - 1, filter);
            let b = self.buckets.buckets@[id];
            if passes(filter, b.owner_id) && self.accounts@.contains_key(b.flow.from) {
                before.push(id)
            } else {
                before
            }
        }
    }

    /// Creates a bucket in a cluster for the given owner, or for the caller;
    /// the owner gets an account if it has none.
    pub fn message_bucket_create(&mut self, bucket_params: BucketParams, cluster_id: ClusterId, owner_id: Option<AccountId>) -> (r: Result<BucketId>)
        requires
            old(self).buckets.next_bucket_id < u32::MAX,
        ensures
            ({
                let owner = match owner_id { Some(o) => o, None => old(self).caller() };
                let accs = old(self).accounts@;
                let full = !accs.contains_key(owner) && old(self).accounts.accounts_keys@.len() >= MAX_ACCOUNTS_LEN_IN_VEC;
                let id = old(self).buckets.next_bucket_id;
                &&& full ==> r == Err::<BucketId, Error>(Error::AccountsSizeExceedsLimit) && *final(self) == *old(self)
                &&& !full ==> r == Ok::<BucketId, Error>(id)
                    && final(self).accounts@ == (if accs.contains_key(owner) { accs } else { accs.insert(owner, Account::new_spec()) })
                    && final(self).buckets.next_bucket_id == id + 1
                    && final(self).buckets.buckets@ == old(self).buckets.buckets@.insert(id, Bucket {
                        owner_id: owner,
                        cluster_id,
                        flow: Flow { from: owner, schedule: Schedule { rate: 0, offset: 0 } },
                        resource_reserved: 0,
                        public_availability: false,
                        resource_consumption_cap: 0,
                        bucket_params,
                    })
                    && final(self).buckets.writers@ == old(self).buckets.writers@
                    && final(self).buckets.readers@ == old(self).buckets.readers@
                    && final(self).events@ == old(self).events@.push(Event::BucketCreated { bucket_id: id, owner_id: owner })
            }),
            old(self).buckets.wf() ==> final(self).buckets.wf(),
            final(self).only_changed(old(self), set![Part::Accounts, Part::Buckets, Part::Events]),
            old(self).accounts.wf() ==> final(self).accounts.wf(),
    {
        let owner_id = match owner_id {
            Some(o) => o,
            None => self.env.caller,
        };
        match self.accounts.create_if_not_exist(owner_id) {
            Ok(()) => {},
            Err(e) => return Err(e),
        }
        let bucket_id = self.buckets.create(owner_id, cluster_id, bucket_params);
        self.events.push(Event::BucketCreated { bucket_id, owner_id });
        Ok(bucket_id)
    }

    pub fn message_bucket_change_owner(&mut self, bucket_id: BucketId, owner_id: AccountId) -> (r: Result<()>)
        ensures
            ({
                let bs = old(self).buckets.buckets@;
                &&& !bs.contains_key(bucket_id) ==> r == Err::<(), Error>(Error::BucketDoesNotExist) && *final(self) == *old(self)
                &&& bs.contains_key(bucket_id) && bs[bucket_id].owner_id != old(self).caller()
                    ==> r == Err::<(), Error>(Error::OnlyOwner) && *final(self) == *old(self)
                &&& bs.contains_key(bucket_id) && bs[bucket_id].owner_id == old(self).caller() ==> r == Ok::<(), Error>(())
                    && final(self).buckets.buckets@ == bs.insert(bucket_id, Bucket { owner_id, ..bs[bucket_id] })
                    && final(self).buckets.next_bucket_id == old(self).buckets.next_bucket_id
                    && final(self).buckets.writers@ == old(self).buckets.writers@
                    && final(self).buckets.readers@ == old(self).buckets.readers@
            }),
            old(self).buckets.wf() ==> final(self).buckets.wf(),
            final(self).only_changed(old(self), set![Part::Buckets]),
    {
        let caller = self.env.caller;
        let mut bucket = match self.buckets.get(bucket_id) {
            Ok(b) => b,
            Err(e) => return Err(e),
        };
        match bucket.only_owner(caller) {
            Ok(()) => {},
            Err(e) => return Err(e),
        }
        bucket.change_owner(owner_id);
        match self.buckets.update(bucket_id, &bucket) {
            Ok(()) => {},
            Err(e) => return Err(e),
        }
        Ok(())
    }

    /// Succeeds when the caller manages the cluster or owns the bucket.
    fn only_owner_or_cluster_manager(&self, bucket: &Bucket, cluster: &Cluster) -> (r: Result<()>)
        ensures
            r == if may_manage(*bucket, cluster@, self.caller()) { Ok::<(), Error>(()) } else { Err(Error::OnlyOwner) },
    {
        let caller = self.env.caller;
        match cluster.only_manager(caller) {
            Ok(()) => Ok(()),
            Err(_) => bucket.only_owner(caller),
        }
    }

    /// Reserves resource of the bucket's cluster for the bucket and raises
    /// the bucket's payment flow by the cluster's rent for it.
    pub fn message_bucket_alloc_into_cluster(&mut self, bucket_id: BucketId, resource: Resource) -> (r: Result<()>)
        requires
            ({
                let b = old(self).buckets.buckets@[bucket_id];
                let c = old(self).clusters@[b.cluster_id];
                let rent = c.total_rent * resource;
                old(self).bucket_management_check(bucket_id) is Ok ==> {
                    &&& c.resource_used + resource <= u32::MAX
                    &&& b.resource_reserved + resource <= u32::MAX
                    &&& rent <= u128::MAX
                    &&& rent * old(self).env.block_timestamp <= u128::MAX
                    &&& b.flow.schedule.rate + rent <= u128::MAX
                    &&& b.flow.schedule.offset + accrued(rent, old(self).env.block_timestamp as int) <= u128::MAX
                    &&& old(self).accounts@.contains_key(b.flow.from) ==> old(self).accounts@[b.flow.from].payable_schedule.rate + rent <= u128::MAX
                    &&& old(self).accounts@.contains_key(b.flow.from) ==> old(self).accounts@[b.flow.from].payable_schedule.offset
                        + accrued(rent, old(self).env.block_timestamp as int) <= u128::MAX
                }
            }),
        ensures
            ({
                let b = old(self).buckets.buckets@[bucket_id];
                let c = old(self).clusters@[b.cluster_id];
                let rent = c.total_rent * resource;
                let now = old(self).env.block_timestamp as int;
                let accs = old(self).accounts@;
                let c2 = ClusterView { resource_used: (c.resource_used + resource) as u32, ..c };
                &&& old(self).bucket_management_check(bucket_id) is Err ==> r == old(self).bucket_management_check(bucket_id)
                    && *final(self) == *old(self)
                &&& old(self).bucket_management_check(bucket_id) is Ok && c.resource_used + resource > c.resource_per_v_node
                    ==> r == Err::<(), Error>(Error::InsufficientResources) && *final(self) == *old(self)
                &&& old(self).bucket_management_check(bucket_id) is Ok && c.resource_used + resource <= c.resource_per_v_node
                    && !accs.contains_key(b.flow.from) ==> r == Err::<(), Error>(Error::AccountDoesNotExist)
                    && final(self).clusters@ == old(self).clusters@.insert(b.cluster_id, c2)
                    && final(self).clusters.next_cluster_id == old(self).clusters.next_cluster_id
                    && final(self).clusters.clusters_ids@ == old(self).clusters.clusters_ids@
                    && final(self).only_changed(old(self), set![Part::Clusters])
                &&& old(self).bucket_management_check(bucket_id) is Ok && c.resource_used + resource <= c.resource_per_v_node
                    && accs.contains_key(b.flow.from) ==> r == Ok::<(), Error>(())
                    && final(self).clusters@ == old(self).clusters@.insert(b.cluster_id, c2)
                    && final(self).clusters.next_cluster_id == old(self).clusters.next_cluster_id
                    && final(self).clusters.clusters_ids@ == old(self).clusters.clusters_ids@
                    && final(self).accounts@ == accs.insert(b.flow.from, Account {
                        payable_schedule: with_added(accs[b.flow.from].payable_schedule, now, rent),
                        ..accs[b.flow.from]
                    })
                    && final(self).accounts.accounts_keys@ == old(self).accounts.accounts_keys@
                    && final(self).buckets.buckets@ == old(self).buckets.buckets@.insert(bucket_id, Bucket {
                        resource_reserved: (b.resource_reserved + resource) as u32,
                        flow: Flow { from: b.flow.from, schedule: with_added(b.flow.schedule, now, rent) },
                        ..b
                    })
                    && final(self).buckets.next_bucket_id == old(self).buckets.next_bucket_id
                    && final(self).buckets.writers@ == old(self).buckets.writers@
                    && final(self).buckets.readers@ == old(self).buckets.readers@
                    && final(self).events@ == old(self).events@.push(Event::BucketAllocated {
                        bucket_id,
                        cluster_id: b.cluster_id,
                        resource,
                    })
            }),
            old(self).buckets.wf() ==> final(self).buckets.wf(),
            final(self).only_changed(old(self), set![Part::Accounts, Part::Buckets, Part::Clusters, Part::Events]),
            old(self).accounts.wf() ==> final(self).accounts.wf(),
            old(self).clusters.wf() ==> final(self).clusters.wf(),
    {
        let mut bucket = match self.buckets.get(bucket_id) {
            Ok(b) => b,
            Err(e) => return Err(e),
        };
        let mut cluster = match self.clusters.get(bucket.cluster_id) {
            Ok(c) => c,
            Err(e) => return Err(e),
        };
        match self.only_owner_or_cluster_manager(&bucket, &cluster) {
            Ok(()) => {},
            Err(e) => return Err(e),
        }
        match cluster.take_resource(resource) {
            Ok(()) => {},
            Err(e) => return Err(e),
        }
        match self.clusters.update(bucket.cluster_id, &cluster) {
            Ok(()) => {},
            Err(e) => return Err(e),
        }
        bucket.put_resource(resource);
        let rent = cluster.get_rent(resource);
        let now_ms = self.env.block_timestamp;
        match self.accounts.increase_flow(now_ms, rent, &mut bucket.flow) {
            Ok(()) => {},
            Err(e) => return Err(e),
        }
        match self.buckets.update(bucket_id, &bucket) {
            Ok(()) => {},
            Err(e) => return Err(e),
        }
        self.events.push(Event::BucketAllocated { bucket_id, cluster_id: bucket.cluster_id, resource });
        Ok(())
    }

    /// Settles the bucket's payment flow until now and credits the payment to
    /// the revenues of the bucket's cluster.
    pub fn message_bucket_settle_payment(&mut self, bucket_id: BucketId) -> (r: Result<()>)
        requires
            ({
                let b = old(self).buckets.buckets@[bucket_id];
                let now = old(self).env.block_timestamp as int;
                let usd = b.flow.schedule.value_at(now);
                let conv = old(self).protocol.curr_converter;
                old(self).buckets.buckets@.contains_key(bucket_id) ==> {
                    &&& b.flow.schedule.defined_at(now)
                    &&& conv.spec_rate() > 0
                    &&& usd * PRECISION <= u128::MAX
                    &&& old(self).accounts@.contains_key(b.flow.from) ==> old(self).accounts@[b.flow.from].payable_schedule.offset + usd <= u128::MAX
                    &&& old(self).clusters@.contains_key(b.cluster_id) ==> old(self).clusters@[b.cluster_id].revenues.0
                        + cere_of(conv.spec_rate(), usd) <= u128::MAX
                }
            }),
        ensures
            ({
                let bs = old(self).buckets.buckets@;
                let b = bs[bucket_id];
                let now = old(self).env.block_timestamp as int;
                let usd = b.flow.schedule.value_at(now);
                let cere = cere_of(old(self).protocol.curr_converter.spec_rate(), usd);
                let accs = old(self).accounts@;
                let paid = accs.contains_key(b.flow.from) && accs[b.flow.from].deposit.0 >= cere;
                let settled = Flow { from: b.flow.from, schedule: Schedule { rate: b.flow.schedule.rate, offset: accrued(b.flow.schedule.rate as int, now) as u128 } };
                &&& !bs.contains_key(bucket_id) ==> r == Err::<(), Error>(Error::BucketDoesNotExist) && *final(self) == *old(self)
                &&& bs.contains_key(bucket_id) && !accs.contains_key(b.flow.from)
                    ==> r == Err::<(), Error>(Error::AccountDoesNotExist) && *final(self) == *old(self)
                &&& bs.contains_key(bucket_id) && accs.contains_key(b.flow.from) && !paid
                    ==> r == Err::<(), Error>(Error::InsufficientBalance) && *final(self) == *old(self)
                &&& bs.contains_key(bucket_id) && paid ==> {
                    &&& final(self).accounts@ == accs.insert(b.flow.from, Account {
                        deposit: Cash((accs[b.flow.from].deposit.0 - cere) as u128),
                        payable_schedule: Schedule {
                            offset: (accs[b.flow.from].payable_schedule.offset + usd) as u128,
                            ..accs[b.flow.from].payable_schedule
                        },
                        ..accs[b.flow.from]
                    })
                    &&& final(self).accounts.accounts_keys@ == old(self).accounts.accounts_keys@
                    &&& !old(self).clusters@.contains_key(b.cluster_id) ==> r == Err::<(), Error>(Error::ClusterDoesNotExist)
                        && final(self).only_changed(old(self), set![Part::Accounts])
                    &&& old(self).clusters@.contains_key(b.cluster_id) ==> r == Ok::<(), Error>(())
                        && final(self).clusters@ == old(self).clusters@.insert(b.cluster_id, ClusterView {
                            revenues: Cash((old(self).clusters@[b.cluster_id].revenues.0 + cere) as u128),
                            ..old(self).clusters@[b.cluster_id]
                        })
                        && final(self).clusters.next_cluster_id == old(self).clusters.next_cluster_id
                        && final(self).clusters.clusters_ids@ == old(self).clusters.clusters_ids@
                        && final(self).buckets.buckets@ == bs.insert(bucket_id, Bucket { flow: settled, ..b })
                        && final(self).buckets.next_bucket_id == old(self).buckets.next_bucket_id
                        && final(self).buckets.writers@ == old(self).buckets.writers@
                        && final(self).buckets.readers@ == old(self).buckets.readers@
                        && final(self).events@ == old(self).events@.push(Event::BucketSettlePayment { bucket_id, cluster_id: b.cluster_id })
                }
            }),
            old(self).buckets.wf() ==> final(self).buckets.wf(),
            final(self).only_changed(old(self), set![Part::Accounts, Part::Buckets, Part::Clusters, Part::Events]),
            old(self).accounts.wf() ==> final(self).accounts.wf(),
            old(self).clusters.wf() ==> final(self).clusters.wf(),
    {
        let mut bucket = match self.buckets.get(bucket_id) {
            Ok(b) => b,
            Err(e) => return Err(e),
        };
        let now_ms = self.env.block_timestamp;
        let conv = self.protocol.curr_converter;
        let cash = match self.accounts.settle_flow(now_ms, &mut bucket.flow, &conv) {
            Ok(c) => c,
            Err(e) => return Err(e),
        };
        let mut cluster = match self.clusters.get(bucket.cluster_id) {
            Ok(c) => c,
            Err(e) => return Err(e),
        };
        cluster.revenues.increase(cash);
        match self.clusters.update(bucket.cluster_id, &cluster) {
            Ok(()) => {},
            Err(e) => return Err(e),
        }
        match self.buckets.update(bucket_id, &bucket) {
            Ok(()) => {},
            Err(e) => return Err(e),
        }
        self.events.push(Event::BucketSettlePayment { bucket_id, cluster_id: bucket.cluster_id });
        Ok(())
    }

    pub fn message_bucket_change_params(&mut self, bucket_id: BucketId, bucket_params: BucketParams) -> (r: Result<()>)
        ensures
            ({
                let bs = old(self).buckets.buckets@;
                &&& !bs.contains_key(bucket_id) ==> r == Err::<(), Error>(Error::BucketDoesNotExist) && *final(self) == *old(self)
                &&& bs.contains_key(bucket_id) && bs[bucket_id].owner_id != old(self).caller()
                    ==> r == Err::<(), Error>(Error::OnlyOwner) && *final(self) == *old(self)
                &&& bs.contains_key(bucket_id) && bs[bucket_id].owner_id == old(self).caller() && text_len(bucket_params) > BUCKET_PARAMS_MAX_LEN
                    ==> r == Err::<(), Error>(Error::ParamsSizeExceedsLimit) && *final(self) == *old(self)
                &&& bs.contains_key(bucket_id) && bs[bucket_id].owner_id == old(self).caller() && text_len(bucket_params) <= BUCKET_PARAMS_MAX_LEN
                    ==> r == Ok::<(), Error>(())
                    && final(self).buckets.buckets@ == bs.insert(bucket_id, Bucket { bucket_params, ..bs[bucket_id] })
                    && final(self).buckets.next_bucket_id == old(self).buckets.next_bucket_id
                    && final(self).buckets.writers@ == old(self).buckets.writers@
                    && final(self).buckets.readers@ == old(self).buckets.readers@
                    && final(self).events@ == old(self).events@.push(Event::BucketParamsSet { bucket_id, bucket_params })
            }),
            old(self).buckets.wf() ==> final(self).buckets.wf(),
            final(self).only_changed(old(self), set![Part::Buckets, Part::Events]),
    {
        let caller = self.env.caller;
        let mut bucket = match self.buckets.get(bucket_id) {
            Ok(b) => b,
            Err(e) => return Err(e),
        };
        match bucket.only_owner(caller) {
            Ok(()) => {},
            Err(e) => return Err(e),
        }
        match bucket.set_params(bucket_params.clone()) {
            Ok(()) => {},
            Err(e) => return Err(e),
        }
        match self.buckets.update(bucket_id, &bucket) {
            Ok(()) => {},
            Err(e) => return Err(e),
        }
        self.events.push(Event::BucketParamsSet { bucket_id, bucket_params });
        Ok(())
    }

    /// The status of a bucket: its settings, the accounts that may write
    /// and read it, and until when its payer's deposit covers its rent. The
    /// writers reported are the bucket's readers followed by its owner.
    pub fn bucket_calculate_status(&self, bucket_id: BucketId, bucket: Bucket) -> (r: Result<BucketStatus>)
        requires
            self.status_computable(bucket),
        ensures
            !self.accounts@.contains_key(bucket.flow.from) ==> r == Err::<BucketStatus, Error>(Error::AccountDoesNotExist),
            self.accounts@.contains_key(bucket.flow.from) ==> r is Ok && self.is_status(r->Ok_0, bucket_id, bucket),
    {
        let mut writer_ids = self.buckets.get_bucket_readers(bucket_id);
        writer_ids.push(bucket.owner_id);
        let conv = self.protocol.curr_converter;
        let rent_covered_until_ms = match self.accounts.flow_covered_until(&bucket.flow, &conv) {
            Ok(t) => t,
            Err(e) => return Err(e),
        };
        let reader_ids = self.buckets.get_bucket_readers(bucket_id);
        let bucket_params = bucket.bucket_params.clone();
        Ok(BucketStatus {
            bucket_id,
            params: bucket_params,
            bucket: BucketInStatus::from(bucket),
            writer_ids,
            reader_ids,
            rent_covered_until_ms,
        })
    }

    pub fn message_bucket_get(&self, bucket_id: BucketId) -> (r: Result<BucketStatus>)
        requires
            self.buckets.buckets@.contains_key(bucket_id) ==> self.status_computable(self.buckets.buckets@[bucket_id]),
        ensures
            !self.buckets.buckets@.contains_key(bucket_id) ==> r == Err::<BucketStatus, Error>(Error::BucketDoesNotExist),
            self.buckets.buckets@.contains_key(bucket_id) && !self.accounts@.contains_key(self.buckets.buckets@[bucket_id].flow.from)
                ==> r == Err::<BucketStatus, Error>(Error::AccountDoesNotExist),
            self.buckets.buckets@.contains_key(bucket_id) && self.accounts@.contains_key(self.buckets.buckets@[bucket_id].flow.from)
                ==> r is Ok && self.is_status(r->Ok_0, bucket_id, self.buckets.buckets@[bucket_id]),
    {
        let bucket = match self.buckets.get(bucket_id) {
            Ok(b) => b,
            Err(e) => return Err(e),
        };
        self.bucket_calculate_status(bucket_id, bucket)
    }

    /// The statuses of the buckets with ids `offset..offset + limit` whose
    /// owner passes the filter, and the number of buckets. Buckets whose
    /// status cannot be computed are skipped.
    pub fn message_bucket_list(&self, offset: u32, limit: u32, filter_owner_id: Option<AccountId>) -> (r: (Vec<BucketStatus>, u32))
        requires
            offset + limit <= u32::MAX,
            self.buckets.wf(),
            forall|id: BucketId| #[trigger] self.buckets.buckets@.contains_key(id) ==> self.status_computable(self.buckets.buckets@[id]),
        ensures
            ({
                let next = self.buckets.next_bucket_id as int;
                let end = if offset + limit <= next { offset + limit } else { next };
                let ids = if offset <= end { self.listed_buckets(offset as int, end, filter_owner_id) } else { Seq::empty() };
                &&& r.1 == self.buckets.next_bucket_id
                &&& r.0@.len() == ids.len()
                &&& forall|i: int| 0 <= i < ids.len() ==> self.is_status(#[trigger] r.0@[i], ids[i], self.buckets.buckets@[ids[i]])
                &&& forall|i: int| 0 <= i < r.0@.len() ==> offset <= #[trigger] r.0@[i].bucket_id < end
                &&& forall|i: int| 0 <= i < r.0@.len() ==> match filter_owner_id {
                    Some(f) => #[trigger] r.0@[i].bucket.owner_id == f,
                    None => true,
                }
                &&& forall|id: int|
                    #![trigger self.buckets.buckets@[id as BucketId]]
                    offset <= id < end && self.accounts@.contains_key(self.buckets.buckets@[id as BucketId].flow.from)
                        && match filter_owner_id {
                        Some(f) => self.buckets.buckets@[id as BucketId].owner_id == f,
                        None => true,
                    } ==> exists|i: int| 0 <= i < r.0@.len() && #[trigger] r.0@[i].bucket_id == id
            }),
    {
        let mut bucket_statuses: Vec<BucketStatus> = Vec::new();
        let end: u32 = offset + limit;
        let next: u32 = self.buckets.next_bucket_id;
        let mut bucket_id: u32 = offset;
        while bucket_id < end && bucket_id < next
            invariant
                offset <= bucket_id <= end,
                end == offset + limit,
                next == self.buckets.next_bucket_id,
                self.buckets.wf(),
                forall|id: BucketId| #[trigger] self.buckets.buckets@.contains_key(id) ==> self.status_computable(self.buckets.buckets@[id]),
                bucket_id <= next || bucket_id == offset,
                ({
                    let ids = if bucket_id <= next { self.listed_buckets(offset as int, bucket_id as int, filter_owner_id) } else { Seq::empty() };
                    &&& bucket_statuses@.len() == ids.len()
                    &&& forall|i: int| 0 <= i < ids.len() ==> self.is_status(#[trigger] bucket_statuses@[i], ids[i], self.buckets.buckets@[ids[i]])
                }),
            decreases end - bucket_id,
        {
            assert(self.buckets.buckets@.contains_key(bucket_id));
            let bucket = match self.buckets.buckets.get(&bucket_id) {
                None => {
                    // Unreachable: every id below the next one has a bucket.
                    return (bucket_statuses, next);
                },
                Some(bucket) => bucket.clone(),
            };
            let keep = match filter_owner_id {
                Some(owner_id) => owner_id == bucket.owner_id,
                None => true,
            };
            if keep {
                match self.bucket_calculate_status(bucket_id, bucket) {
                    Err(_) => {},
                    Ok(status) => {
                        bucket_statuses.push(status);
                    },
                }
            }
            bucket_id = bucket_id + 1;
        }
        proof {
            let e = if offset + limit <= next { offset + limit } else { next as int };
            if offset <= e {
                lemma_listed_buckets(*self, offset as int, e, filter_owner_id);
                let ids = self.listed_buckets(offset as int, e, filter_owner_id);
                assert(bucket_id as int == e);
                assert forall|id: int|
                    #![trigger self.buckets.buckets@[id as BucketId]]
                    offset <= id < e && self.accounts@.contains_key(self.buckets.buckets@[id as BucketId].flow.from)
                        && match filter_owner_id {
                        Some(f) => self.buckets.buckets@[id as BucketId].owner_id == f,
                        None => true,
                    } implies exists|i: int| 0 <= i < bucket_statuses@.len() && #[trigger] bucket_statuses@[i].bucket_id == id by {
                    let k = ids.index_of(id as BucketId);
                    assert(self.is_status(bucket_statuses@[k], ids[k], self.buckets.buckets@[ids[k]]));
                }
                assert forall|i: int| 0 <= i < bucket_statuses@.len() implies match filter_owner_id {
                    Some(f) => #[trigger] bucket_statuses@[i].bucket.owner_id == f,
                    None => true,
                } by {
                    assert(self.is_status(bucket_statuses@[i], ids[i], self.buckets.buckets@[ids[i]]));
                }
                assert forall|i: int| 0 <= i < bucket_statuses@.len() implies offset <= #[trigger] bucket_statuses@[i].bucket_id < e by {
                    assert(self.is_status(bucket_statuses@[i], ids[i], self.buckets.buckets@[ids[i]]));
                }
            }
        }
        (bucket_statuses, next)
    }

    /// The buckets owned by an account, in the order of their ids.
    pub fn message_bucket_list_for_account(&self, owner_id: AccountId) -> (r: Vec<Bucket>)
        requires
            self.buckets.wf(),
        ensures
            r@ == self.buckets_owned(owner_id, self.buckets.next_bucket_id as int),
    {
        let mut result: Vec<Bucket> = Vec::new();
        let next: u32 = self.buckets.next_bucket_id;
        let mut bucket_id: u32 = 0;
        while bucket_id < next
            invariant
                bucket_id <= next,
                next == self.buckets.next_bucket_id,
                self.buckets.wf(),
                result@ == self.buckets_owned(owner_id, bucket_id as int),
            decreases next - bucket_id,
        {
            let bucket = match self.buckets.get(bucket_id) {
                Ok(b) => b,
                Err(_) => {
                    // Unreachable: every id below the next one has a bucket.
                    return result;
                },
            };
            if bucket.owner_id == owner_id {
                result.push(bucket);
            }
            bucket_id = bucket_id + 1;
        }
        result
    }

    /// The buckets with ids below `to` owned by an account.
    pub open spec fn buckets_owned(&self, owner_id: AccountId, to: int) -> Seq<Bucket>
        decreases to,
    {
        if to <= 0 {
            Seq::empty()
        } else {
            let b = self.buckets.buckets@[(to - 1) as BucketId];
            let before = self.buckets_owned(owner_id, to - 1);
            if b.owner_id == owner_id {
                before.push(b)
            } else {
                before
            }
        }
    }

    pub fn message_bucket_set_resource_cap(&mut self, bucket_id: BucketId, new_resource_cap: Resource) -> (r: Result<()>)
        ensures
            old(self).bucket_management_check(bucket_id) is Err ==> r == old(self).bucket_management_check(bucket_id)
                && *final(self) == *old(self),
            old(self).bucket_management_check(bucket_id) is Ok ==> r == Ok::<(), Error>(())
                && final(self).buckets.buckets@ == old(self).buckets.buckets@.insert(bucket_id, Bucket {
                    resource_consumption_cap: new_resource_cap,
                    ..old(self).buckets.buckets@[bucket_id]
                })
                && final(self).buckets.next_bucket_id == old(self).buckets.next_bucket_id
                && final(self).buckets.writers@ == old(self).buckets.writers@
                && final(self).buckets.readers@ == old(self).buckets.readers@,
            old(self).buckets.wf() ==> final(self).buckets.wf(),
            final(self).only_changed(old(self), set![Part::Buckets]),
    {
        let mut bucket = match self.buckets.get(bucket_id) {
            Ok(b) => b,
            Err(e) => return Err(e),
        };
        let cluster = match self.clusters.get(bucket.cluster_id) {
            Ok(c) => c,
            Err(e) => return Err(e),
        };
        match self.only_owner_or_cluster_manager(&bucket, &cluster) {
            Ok(()) => {},
            Err(e) => return Err(e),
        }
        bucket.set_cap(new_resource_cap);
        match self.buckets.update(bucket_id, &bucket) {
            Ok(()) => {},
            Err(e) => return Err(e),
        }
        Ok(())
    }

    pub fn message_bucket_set_availability(&mut self, bucket_id: BucketId, public_availability: bool) -> (r: Result<()>)
        ensures
            old(self).bucket_management_check(bucket_id) is Err ==> r == old(self).bucket_management_check(bucket_id)
                && *final(self) == *old(self),
            old(self).bucket_management_check(bucket_id) is Ok ==> r == Ok::<(), Error>(())
                && final(self).buckets.buckets@ == old(self).buckets.buckets@.insert(bucket_id, Bucket {
                    public_availability,
                    ..old(self).buckets.buckets@[bucket_id]
                })
                && final(self).buckets.next_bucket_id == old(self).buckets.next_bucket_id
                && final(self).buckets.writers@ == old(self).buckets.writers@
                && final(self).buckets.readers@ == old(self).buckets.readers@
                && final(self).events@ == old(self).events@.push(Event::BucketAvailabilityUpdated { bucket_id, public_availability }),
            old(self).buckets.wf() ==> final(self).buckets.wf(),
            final(self).only_changed(old(self), set![Part::Buckets, Part::Events]),
    {
        let mut bucket = match self.buckets.get(bucket_id) {
            Ok(b) => b,
            Err(e) => return Err(e),
        };
        let cluster = match self.clusters.get(bucket.cluster_id) {
            Ok(c) => c,
            Err(e) => return Err(e),
        };
        match self.only_owner_or_cluster_manager(&bucket, &cluster) {
            Ok(()) => {},
            Err(e) => return Err(e),
        }
        bucket.set_availability(public_availability);
        match self.buckets.update(bucket_id, &bucket) {
            Ok(()) => {},
            Err(e) => return Err(e),
        }
        self.events.push(Event::BucketAvailabilityUpdated { bucket_id, public_availability });
        Ok(())
    }

    pub fn message_get_bucket_writers(&mut self, bucket_id: BucketId) -> (r: Result<Vec<AccountId>>)
        ensures
            r is Ok && r->Ok_0@ == old(self).buckets.writers_of(bucket_id),
            *final(self) == *old(self),
    {
        let writers = self.buckets.get_bucket_writers(bucket_id);
        Ok(writers)
    }

    pub fn message_grant_writer_permission(&mut self, bucket_id: BucketId, writer: AccountId) -> (r: Result<()>)
        ensures
            old(self).bucket_management_check(bucket_id) is Err ==> r == old(self).bucket_management_check(bucket_id)
                && *final(self) == *old(self),
            old(self).bucket_management_check(bucket_id) is Ok ==> r == Ok::<(), Error>(())
                && (forall|k: BucketId| #[trigger] final(self).buckets.writers_of(k) == if k == bucket_id {
                    old(self).buckets.writers_of(bucket_id).push(writer)
                } else {
                    old(self).buckets.writers_of(k)
                })
                && final(self).buckets.writers@.dom() == old(self).buckets.writers@.dom().insert(bucket_id)
                && final(self).buckets.buckets@ == old(self).buckets.buckets@
                && final(self).buckets.readers@ == old(self).buckets.readers@
                && final(self).buckets.next_bucket_id == old(self).buckets.next_bucket_id,
            old(self).buckets.wf() ==> final(self).buckets.wf(),
            final(self).only_changed(old(self), set![Part::Buckets]),
    {
        let bucket = match self.buckets.get(bucket_id) {
            Ok(b) => b,
            Err(e) => return Err(e),
        };
        let cluster = match self.clusters.get(bucket.cluster_id) {
            Ok(c) => c,
            Err(e) => return Err(e),
        };
        match self.only_owner_or_cluster_manager(&bucket, &cluster) {
            Ok(()) => {},
            Err(e) => return Err(e),
        }
        let _ = self.buckets.grant_writer_permission(bucket_id, writer);
        Ok(())
    }

    /// Revokes a write permission; the bucket must have had writers granted
    /// before (the call traps otherwise).
    pub fn message_revoke_writer_permission(&mut self, bucket_id: BucketId, writer: AccountId) -> (r: Result<()>)
        requires
            old(self).bucket_management_check(bucket_id) is Ok ==> old(self).buckets.writers@.contains_key(bucket_id),
        ensures
            old(self).bucket_management_check(bucket_id) is Err ==> r == old(self).bucket_management_check(bucket_id)
                && *final(self) == *old(self),
            old(self).bucket_management_check(bucket_id) is Ok ==> r == Ok::<(), Error>(())
                && (forall|k: BucketId| #[trigger] final(self).buckets.writers_of(k) == if k == bucket_id {
                    seq_remove_first(old(self).buckets.writers_of(bucket_id), writer)
                } else {
                    old(self).buckets.writers_of(k)
                })
                && final(self).buckets.writers@.dom() == old(self).buckets.writers@.dom()
                && final(self).buckets.buckets@ == old(self).buckets.buckets@
                && final(self).buckets.readers@ == old(self).buckets.readers@
                && final(self).buckets.next_bucket_id == old(self).buckets.next_bucket_id,
            old(self).buckets.wf() ==> final(self).buckets.wf(),
            final(self).only_changed(old(self), set![Part::Buckets]),
    {
        let bucket = match self.buckets.get(bucket_id) {
            Ok(b) => b,
            Err(e) => return Err(e),
        };
        let cluster = match self.clusters.get(bucket.cluster_id) {
            Ok(c) => c,
            Err(e) => return Err(e),
        };
        match self.only_owner_or_cluster_manager(&bucket, &cluster) {
            Ok(()) => {},
            Err(e) => return Err(e),
        }
        let _ = self.buckets.revoke_writer_permission(bucket_id, writer);
        Ok(())
    }

    pub fn message_get_bucket_readers(&mut self, bucket_id: BucketId) -> (r: Result<Vec<AccountId>>)
        ensures
            r is Ok && r->Ok_0@ == old(self).buckets.readers_of(bucket_id),
            *final(self) == *old(self),
    {
        let readers = self.buckets.get_bucket_readers(bucket_id);
        Ok(readers)
    }

    pub fn message_grant_reader_permission(&mut self, bucket_id: BucketId, reader: AccountId) -> (r: Result<()>)
        ensures
            old(self).bucket_management_check(bucket_id) is Err ==> r == old(self).bucket_management_check(bucket_id)
                && *final(self) == *old(self),
            old(self).bucket_management_check(bucket_id) is Ok ==> r == Ok::<(), Error>(())
                && (forall|k: BucketId| #[trigger] final(self).buckets.readers_of(k) == if k == bucket_id {
                    old(self).buckets.readers_of(bucket_id).push(reader)
                } else {
                    old(self).buckets.readers_of(k)
                })
                && final(self).buckets.readers@.dom() == old(self).buckets.readers@.dom().insert(bucket_id)
                && final(self).buckets.buckets@ == old(self).buckets.buckets@
                && final(self).buckets.writers@ == old(self).buckets.writers@
                && final(self).buckets.next_bucket_id == old(self).buckets.next_bucket_id,
            old(self).buckets.wf() ==> final(self).buckets.wf(),
            final(self).only_changed(old(self), set![Part::Buckets]),
    {
        let bucket = match self.buckets.get(bucket_id) {
            Ok(b) => b,
            Err(e) => return Err(e),
        };
        let cluster = match self.clusters.get(bucket.cluster_id) {
            Ok(c) => c,
            Err(e) => return Err(e),
        };
        match self.only_owner_or_cluster_manager(&bucket, &cluster) {
            Ok(()) => {},
            Err(e) => return Err(e),
        }
        let _ = self.buckets.grant_reader_permission(bucket_id, reader);
        Ok(())
    }

    /// Revokes a read permission; the bucket must have had readers granted
    /// before (the call traps otherwise).
    pub fn message_revoke_reader_permission(&mut self, bucket_id: BucketId, reader: AccountId) -> (r: Result<()>)
        requires
            old(self).bucket_management_check(bucket_id) is Ok ==> old(self).buckets.readers@.contains_key(bucket_id),
        ensures
            old(self).bucket_management_check(bucket_id) is Err ==> r == old(self).bucket_management_check(bucket_id)
                && *final(self) == *old(self),
            old(self).bucket_management_check(bucket_id) is Ok ==> r == Ok::<(), Error>(())
                && (forall|k: BucketId| #[trigger] final(self).buckets.readers_of(k) == if k == bucket_id {
                    seq_remove_first(old(self).buckets.readers_of(bucket_id), reader)
                } else {
                    old(self).buckets.readers_of(k)
                })
                && final(self).buckets.readers@.dom() == old(self).buckets.readers@.dom()
                && final(self).buckets.buckets@ == old(self).buckets.buckets@
                && final(self).buckets.writers@ == old(self).buckets.writers@
                && final(self).buckets.next_bucket_id == old(self).buckets.next_bucket_id,
            old(self).buckets.wf() ==> final(self).buckets.wf(),
            final(self).only_changed(old(self), set![Part::Buckets]),
    {
        let bucket = match self.buckets.get(bucket_id) {
            Ok(b) => b,
            Err(e) => return Err(e),
        };
        let cluster = match self.clusters.get(bucket.cluster_id) {
            Ok(c) => c,
            Err(e) => return Err(e),
        };
        match self.only_owner_or_cluster_manager(&bucket, &cluster) {
            Ok(()) => {},
            Err(e) => return Err(e),
        }
        let _ = self.buckets.revoke_reader_permission(bucket_id, reader);
        Ok(())
    }
}

/// Listing the bucket ids in `from..to` with an owner filter gives, in
/// increasing order, exactly the ids of the buckets owned by the filtered
/// account (every bucket without a filter) whose payer has an account.
pub proof fn lemma_listed_buckets(s: DdcBucket, from: int, to: int, filter: Option<AccountId>)
    requires
        0 <= from,
        to <= u32::MAX + 1,
    ensures
        ({
            let ids = s.listed_buckets(from, to, filter);
            &&& forall|i: int| 0 <= i < ids.len() ==> from <= #[trigger] ids[i] < to
            &&& forall|i: int| 0 <= i < ids.len() ==> match filter {
                Some(f) => s.buckets.buckets@[#[trigger] ids[i]].owner_id == f,
                None => true,
            }
            &&& forall|i: int| 0 <= i < ids.len() ==> s.accounts@.contains_key(s.buckets.buckets@[#[trigger] ids[i]].flow.from)
            &&& forall|i: int, j: int| 0 <= i < j < ids.len() ==> ids[i] < ids[j]
            &&& forall|id: int|
                #![trigger s.buckets.buckets@[id as BucketId]]
                from <= id < to && s.accounts@.contains_key(s.buckets.buckets@[id as BucketId].flow.from) && match filter {
                    Some(f) => s.buckets.buckets@[id as BucketId].owner_id == f,
                    None => true,
                } ==> ids.contains(id as BucketId)
        }),
    decreases to - from,
{
    if to > from {
        lemma_listed_buckets(s, from, to - 1, filter);
        let before = s.listed_buckets(from, to - 1, filter);
        let ids = s.listed_buckets(from, to, filter);
        let last = (to - 1) as BucketId;
        assert(last as int == to - 1);
        assert forall|id: int|
            #![trigger s.buckets.buckets@[id as BucketId]]
            from <= id < to && s.accounts@.contains_key(s.buckets.buckets@[id as BucketId].flow.from) && match filter {
                Some(f) => s.buckets.buckets@[id as BucketId].owner_id == f,
                None => true,
            } implies ids.contains(id as BucketId) by {
            if id < to - 1 {
                assert(before.contains(id as BucketId));
                let k = before.index_of(id as BucketId);
                assert(ids[k] == id as BucketId);
            } else {
                assert(ids[ids.len() - 1] == last);
            }
        }
    }
}

} // verus!
