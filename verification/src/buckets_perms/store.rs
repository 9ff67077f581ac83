//! The store of the accounts allowed to write into or read from each bucket.

use vstd::prelude::*;
use crate::{AccountId, Error, Result};
use crate::bucket::entity::BucketId;
use crate::keymap::{KeyMap, lemma_push_then_remove, remove_first, seq_remove_first};

verus! {

/// The list stored for a bucket, or the empty list.
pub open spec fn list_of(m: Map<BucketId, Vec<AccountId>>, key: BucketId) -> Seq<AccountId> {
    if m.contains_key(key) {
        m[key]@
    } else {
        Seq::empty()
    }
}

fn copy_accounts(v: &Vec<AccountId>) -> (r: Vec<AccountId>)
    ensures
        r@ == v@,
{
    let r = v.clone();
    assert(r@ =~= v@);
    r
}

pub struct BucketsPermsStore {
    writers: KeyMap<BucketId, Vec<AccountId>>,
    readers: KeyMap<BucketId, Vec<AccountId>>,
}

impl BucketsPermsStore {
    /// Whether the bucket has a list of writers, empty or not.
    pub closed spec fn has_writers(&self, key: BucketId) -> bool {
        self.writers@.contains_key(key)
    }

    /// Whether the bucket has a list of readers, empty or not.
    pub closed spec fn has_readers(&self, key: BucketId) -> bool {
        self.readers@.contains_key(key)
    }

    pub closed spec fn writers_of(&self, key: BucketId) -> Seq<AccountId> {
        list_of(self.writers@, key)
    }

    pub closed spec fn readers_of(&self, key: BucketId) -> Seq<AccountId> {
        list_of(self.readers@, key)
    }

    pub fn new() -> (s: BucketsPermsStore)
        ensures
            forall|k: BucketId| !s.has_writers(k) && !s.has_readers(k),
            forall|k: BucketId| s.writers_of(k) == Seq::<AccountId>::empty() && s.readers_of(k) == Seq::<AccountId>::empty(),
    {
        BucketsPermsStore { writers: KeyMap::new(), readers: KeyMap::new() }
    }

    /// The accounts allowed to write into a bucket.
    pub fn get_bucket_writers(&self, key: BucketId) -> (r: Vec<AccountId>)
        ensures
            r@ == self.writers_of(key),
    {
        match self.writers.get(&key) {
            Some(w) => copy_accounts(w),
            None => Vec::new(),
        }
    }

    pub fn grant_writer_permission(&mut self, key: BucketId, writer: AccountId) -> (r: Result<()>)
        ensures
            r == Ok::<(), Error>(()),
            forall|k: BucketId| #[trigger] final(self).writers_of(k) == if k == key {
                old(self).writers_of(key).push(writer)
            } else {
                old(self).writers_of(k)
            },
            forall|k: BucketId| #[trigger] final(self).has_writers(k) == (k == key || old(self).has_writers(k)),
            forall|k: BucketId| #[trigger] final(self).readers_of(k) == old(self).readers_of(k),
            forall|k: BucketId| #[trigger] final(self).has_readers(k) == old(self).has_readers(k),
    {
        let mut writers = self.get_bucket_writers(key);
        writers.push(writer);
        self.writers.insert(key, writers);
        Ok(())
    }

    pub fn revoke_writer_permission(&mut self, key: BucketId, writer: AccountId) -> (r: Result<()>)
        requires
            old(self).has_writers(key),
        ensures
            r == Ok::<(), Error>(()),
            forall|k: BucketId| #[trigger] final(self).writers_of(k) == if k == key {
                seq_remove_first(old(self).writers_of(key), writer)
            } else {
                old(self).writers_of(k)
            },
            forall|k: BucketId| #[trigger] final(self).has_writers(k) == old(self).has_writers(k),
            forall|k: BucketId| #[trigger] final(self).readers_of(k) == old(self).readers_of(k),
            forall|k: BucketId| #[trigger] final(self).has_readers(k) == old(self).has_readers(k),
    {
        let mut writers = self.get_bucket_writers(key);
        if remove_first(&mut writers, &writer).is_some() {
            self.writers.insert(key, writers);
        }
        Ok(())
    }

    /// The accounts allowed to read from a bucket.
    pub fn get_bucket_readers(&self, key: BucketId) -> (r: Vec<AccountId>)
        ensures
            r@ == self.readers_of(key),
    {
        match self.readers.get(&key) {
            Some(w) => copy_accounts(w),
            None => Vec::new(),
        }
    }

    pub fn grant_reader_permission(&mut self, key: BucketId, reader: AccountId) -> (r: Result<()>)
        ensures
            r == Ok::<(), Error>(()),
            forall|k: BucketId| #[trigger] final(self).readers_of(k) == if k == key {
                old(self).readers_of(key).push(reader)
            } else {
                old(self).readers_of(k)
            },
            forall|k: BucketId| #[trigger] final(self).has_readers(k) == (k == key || old(self).has_readers(k)),
            forall|k: BucketId| #[trigger] final(self).writers_of(k) == old(self).writers_of(k),
            forall|k: BucketId| #[trigger] final(self).has_writers(k) == old(self).has_writers(k),
    {
        let mut readers = self.get_bucket_readers(key);
        readers.push(reader);
        self.readers.insert(key, readers);
        Ok(())
    }

    pub fn revoke_reader_permission(&mut self, key: BucketId, reader: AccountId) -> (r: Result<()>)
        requires
            old(self).has_readers(key),
        ensures
            r == Ok::<(), Error>(()),
            forall|k: BucketId| #[trigger] final(self).readers_of(k) == if k == key {
                seq_remove_first(old(self).readers_of(key), reader)
            } else {
                old(self).readers_of(k)
            },
            forall|k: BucketId| #[trigger] final(self).has_readers(k) == old(self).has_readers(k),
            forall|k: BucketId| #[trigger] final(self).writers_of(k) == old(self).writers_of(k),
            forall|k: BucketId| #[trigger] final(self).has_writers(k) == old(self).has_writers(k),
    {
        let mut readers = self.get_bucket_readers(key);
        if remove_first(&mut readers, &reader).is_some() {
            self.readers.insert(key, readers);
        }
        Ok(())
    }
}

/// Granting write access to an account that a bucket's writers do not hold,
/// then revoking it, leaves every bucket's writers as they were.
pub proof fn lemma_grant_then_revoke_writer(
    before: BucketsPermsStore,
    granted: BucketsPermsStore,
    after: BucketsPermsStore,
    key: BucketId,
    writer: AccountId,
)
    requires
        !before.writers_of(key).contains(writer),
        forall|k: BucketId| #[trigger] granted.writers_of(k) == if k == key {
            before.writers_of(key).push(writer)
        } else {
            before.writers_of(k)
        },
        forall|k: BucketId| #[trigger] after.writers_of(k) == if k == key {
            seq_remove_first(granted.writers_of(key), writer)
        } else {
            granted.writers_of(k)
        },
    ensures
        forall|k: BucketId| #[trigger] after.writers_of(k) == before.writers_of(k),
{
    lemma_push_then_remove(before.writers_of(key), writer);
    assert(after.writers_of(key) == before.writers_of(key));
}

/// Granting read access to an account that a bucket's readers do not hold,
/// then revoking it, leaves every bucket's readers as they were.
pub proof fn lemma_grant_then_revoke_reader(
    before: BucketsPermsStore,
    granted: BucketsPermsStore,
    after: BucketsPermsStore,
    key: BucketId,
    reader: AccountId,
)
    requires
        !before.readers_of(key).contains(reader),
        forall|k: BucketId| #[trigger] granted.readers_of(k) == if k == key {
            before.readers_of(key).push(reader)
        } else {
            before.readers_of(k)
        },
        forall|k: BucketId| #[trigger] after.readers_of(k) == if k == key {
            seq_remove_first(granted.readers_of(key), reader)
        } else {
            granted.readers_of(k)
        },
    ensures
        forall|k: BucketId| #[trigger] after.readers_of(k) == before.readers_of(k),
{
    lemma_push_then_remove(before.readers_of(key), reader);
    assert(after.readers_of(key) == before.readers_of(key));
}

} // verus!
