//! The store of Buckets and of the accounts allowed to write or read them.

use vstd::prelude::*;
use crate::{AccountId, Error, Result};
use crate::cluster::entity::ClusterId;
use crate::flow::Flow;
use crate::keymap::{KeyMap, lemma_push_then_remove, remove_first, seq_remove_first};
use crate::schedule::Schedule;
use super::entity::{Bucket, BucketId, BucketParams};

verus! {

pub struct BucketStore {
    pub next_bucket_id: u32,
    pub buckets: KeyMap<BucketId, Bucket>,
    pub writers: KeyMap<BucketId, Vec<AccountId>>,
    pub readers: KeyMap<BucketId, Vec<AccountId>>,
}

/// The list stored for a key, or the empty list.
pub open spec fn list_or_empty(m: Map<BucketId, Vec<AccountId>>, key: BucketId) -> Seq<AccountId> {
    if m.contains_key(key) {
        m[key]@
    } else {
        Seq::empty()
    }
}

fn copy_list(v: &Vec<AccountId>) -> (r: Vec<AccountId>)
    ensures
        r@ == v@,
{
    let r = v.clone();
    assert(r@ =~= v@);
    r
}

impl BucketStore {
    /// The buckets are exactly those with an id below the next one.
    pub open spec fn wf(&self) -> bool {
        forall|id: BucketId| #[trigger] self.buckets@.contains_key(id) <==> id < self.next_bucket_id
    }

    pub open spec fn writers_of(&self, key: BucketId) -> Seq<AccountId> {
        list_or_empty(self.writers@, key)
    }

    pub open spec fn readers_of(&self, key: BucketId) -> Seq<AccountId> {
        list_or_empty(self.readers@, key)
    }

    pub fn new() -> (s: BucketStore)
        ensures
            s.next_bucket_id == 0,
            s.wf(),
            s.buckets@ == Map::<BucketId, Bucket>::empty(),
            forall|k: BucketId| s.writers_of(k) == Seq::<AccountId>::empty() && s.readers_of(k) == Seq::<AccountId>::empty(),
    {
        BucketStore { next_bucket_id: 0, buckets: KeyMap::new(), writers: KeyMap::new(), readers: KeyMap::new() }
    }

    #[must_use]
    pub fn create(&mut self, owner_id: AccountId, cluster_id: ClusterId, bucket_params: BucketParams) -> (id: BucketId)
        requires
            old(self).next_bucket_id < u32::MAX,
        ensures
            id == old(self).next_bucket_id,
            old(self).wf() ==> final(self).wf(),
            final(self).next_bucket_id == old(self).next_bucket_id + 1,
            final(self).buckets@ == old(self).buckets@.insert(id, Bucket {
                owner_id,
                cluster_id,
                flow: Flow { from: owner_id, schedule: Schedule { rate: 0, offset: 0 } },
                resource_reserved: 0,
                public_availability: false,
                resource_consumption_cap: 0,
                bucket_params,
            }),
            final(self).writers@ == old(self).writers@,
            final(self).readers@ == old(self).readers@,
    {
        let bucket_id = self.next_bucket_id;
        self.next_bucket_id = self.next_bucket_id + 1;
        let bucket = Bucket {
            owner_id,
            cluster_id,
            flow: Flow { from: owner_id, schedule: Schedule::empty() },
            resource_reserved: 0,
            resource_consumption_cap: 0,
            public_availability: false,
            bucket_params,
        };
        self.buckets.insert(bucket_id, bucket);
        bucket_id
    }

    pub fn get(&self, bucket_id: BucketId) -> (r: Result<Bucket>)
        ensures
            self.buckets@.contains_key(bucket_id) ==> r == Ok::<Bucket, Error>(self.buckets@[bucket_id]),
            !self.buckets@.contains_key(bucket_id) ==> r == Err::<Bucket, Error>(Error::BucketDoesNotExist),
    {
        match self.buckets.get(&bucket_id) {
            Some(b) => Ok(b.clone()),
            None => Err(Error::BucketDoesNotExist),
        }
    }

    pub fn update(&mut self, bucket_id: BucketId, bucket: &Bucket) -> (r: Result<()>)
        ensures
            old(self).buckets@.contains_key(bucket_id) ==> r == Ok::<(), Error>(())
                && final(self).buckets@ == old(self).buckets@.insert(bucket_id, *bucket),
            !old(self).buckets@.contains_key(bucket_id) ==> r == Err::<(), Error>(Error::BucketDoesNotExist)
                && final(self).buckets@ == old(self).buckets@,
            final(self).next_bucket_id == old(self).next_bucket_id,
            final(self).writers@ == old(self).writers@,
            final(self).readers@ == old(self).readers@,
    {
        if !self.buckets.contains(&bucket_id) {
            Err(Error::BucketDoesNotExist)
        } else {
            self.buckets.insert(bucket_id, bucket.clone());
            Ok(())
        }
    }

    /// The accounts allowed to write into a bucket.
    pub fn get_bucket_writers(&self, key: BucketId) -> (r: Vec<AccountId>)
        ensures
            r@ == self.writers_of(key),
    {
        match self.writers.get(&key) {
            Some(w) => copy_list(w),
            None => Vec::new(),
        }
    }

    pub fn grant_writer_permission(&mut self, key: BucketId, writer: AccountId) -> (r: Result<()>)
        ensures
            r == Ok::<(), Error>(()),
            forall|k: BucketId| #[trigger] final(self).writers_of(k) == if k == key {
                old(self).writers_of(key).push(writer)
            } else {
                old(self).writers_of(k)
            },
            final(self).writers@.dom() == old(self).writers@.dom().insert(key),
            final(self).buckets@ == old(self).buckets@,
            final(self).readers@ == old(self).readers@,
            final(self).next_bucket_id == old(self).next_bucket_id,
    {
        let mut writers = self.get_bucket_writers(key);
        writers.push(writer);
        self.writers.insert(key, writers);
        Ok(())
    }

    pub fn revoke_writer_permission(&mut self, key: BucketId, writer: AccountId) -> (r: Result<()>)
        requires
            old(self).writers@.contains_key(key),
        ensures
            r == Ok::<(), Error>(()),
            forall|k: BucketId| #[trigger] final(self).writers_of(k) == if k == key {
                seq_remove_first(old(self).writers_of(key), writer)
            } else {
                old(self).writers_of(k)
            },
            final(self).writers@.dom() == old(self).writers@.dom(),
            final(self).buckets@ == old(self).buckets@,
            final(self).readers@ == old(self).readers@,
            final(self).next_bucket_id == old(self).next_bucket_id,
    {
        let mut writers = self.get_bucket_writers(key);
        if remove_first(&mut writers, &writer).is_some() {
            self.writers.insert(key, writers);
        }
        assert(self.writers@.dom() =~= old(self).writers@.dom());
        Ok(())
    }

    /// The accounts allowed to read from a bucket.
    pub fn get_bucket_readers(&self, key: BucketId) -> (r: Vec<AccountId>)
        ensures
            r@ == self.readers_of(key),
    {
        match self.readers.get(&key) {
            Some(w) => copy_list(w),
            None => Vec::new(),
        }
    }

    pub fn grant_reader_permission(&mut self, key: BucketId, reader: AccountId) -> (r: Result<()>)
        ensures
            r == Ok::<(), Error>(()),
            forall|k: BucketId| #[trigger] final(self).readers_of(k) == if k == key {
                old(self).readers_of(key).push(reader)
            } else {
                old(self).readers_of(k)
            },
            final(self).readers@.dom() == old(self).readers@.dom().insert(key),
            final(self).buckets@ == old(self).buckets@,
            final(self).writers@ == old(self).writers@,
            final(self).next_bucket_id == old(self).next_bucket_id,
    {
        let mut readers = self.get_bucket_readers(key);
        readers.push(reader);
        self.readers.insert(key, readers);
        Ok(())
    }

    pub fn revoke_reader_permission(&mut self, key: BucketId, reader: AccountId) -> (r: Result<()>)
        requires
            old(self).readers@.contains_key(key),
        ensures
            r == Ok::<(), Error>(()),
            forall|k: BucketId| #[trigger] final(self).readers_of(k) == if k == key {
                seq_remove_first(old(self).readers_of(key), reader)
            } else {
                old(self).readers_of(k)
            },
            final(self).readers@.dom() == old(self).readers@.dom(),
            final(self).buckets@ == old(self).buckets@,
            final(self).writers@ == old(self).writers@,
            final(self).next_bucket_id == old(self).next_bucket_id,
    {
        let mut readers = self.get_bucket_readers(key);
        if remove_first(&mut readers, &reader).is_some() {
            self.readers.insert(key, readers);
        }
        assert(self.readers@.dom() =~= old(self).readers@.dom());
        Ok(())
    }
}

/// Granting an account access to a bucket and revoking it again leaves the
/// bucket's writers (or readers) as they were, for an account that was not
/// one of them; in between, the account is one of them.
pub proof fn lemma_grant_then_revoke_access(before: Seq<AccountId>, account: AccountId)
    requires
        !before.contains(account),
    ensures
        before.push(account).contains(account),
        seq_remove_first(before.push(account), account) == before,
{
    lemma_push_then_remove(before, account);
}

} // verus!
