//! The data structure of Buckets.

use vstd::prelude::*;
use crate::{AccountId, Error, Result, text_len, params_len};
use crate::cluster::entity::ClusterId;
use crate::flow::Flow;
use crate::node::entity::Resource;

verus! {

pub type BucketId = u32;

pub type BucketParams = String;

pub const BUCKET_PARAMS_MAX_LEN: usize = 100_000;

#[derive(Debug)]
pub struct Bucket {
    pub owner_id: AccountId,
    pub cluster_id: ClusterId,
    pub flow: Flow,
    pub resource_reserved: Resource,
    pub public_availability: bool,
    pub resource_consumption_cap: Resource,
    pub bucket_params: BucketParams,
}

impl Clone for Bucket {
    fn clone(&self) -> (r: Self)
        ensures
            r == *self,
    {
        Bucket {
            owner_id: self.owner_id,
            cluster_id: self.cluster_id,
            flow: self.flow,
            resource_reserved: self.resource_reserved,
            public_availability: self.public_availability,
            resource_consumption_cap: self.resource_consumption_cap,
            bucket_params: self.bucket_params.clone(),
        }
    }
}

/// The part of a bucket reported in its status.
#[derive(Clone, Copy, PartialEq, Eq, Structural, Debug)]
pub struct BucketInStatus {
    pub owner_id: AccountId,
    pub cluster_id: ClusterId,
    pub resource_reserved: Resource,
    pub public_availability: bool,
    pub resource_consumption_cap: Resource,
}

#[derive(Debug)]
pub struct BucketStatus {
    pub bucket_id: BucketId,
    pub bucket: BucketInStatus,
    pub params: BucketParams,
    pub writer_ids: Vec<AccountId>,
    pub reader_ids: Vec<AccountId>,
    pub rent_covered_until_ms: u64,
}

pub open spec fn in_status(bucket: Bucket) -> BucketInStatus {
    BucketInStatus {
        owner_id: bucket.owner_id,
        cluster_id: bucket.cluster_id,
        resource_reserved: bucket.resource_reserved,
        public_availability: bucket.public_availability,
        resource_consumption_cap: bucket.resource_consumption_cap,
    }
}

impl BucketInStatus {
    pub fn from(bucket: Bucket) -> (s: Self)
        ensures
            s == in_status(bucket),
    {
        BucketInStatus {
            owner_id: bucket.owner_id,
            cluster_id: bucket.cluster_id,
            resource_reserved: bucket.resource_reserved,
            public_availability: bucket.public_availability,
            resource_consumption_cap: bucket.resource_consumption_cap,
        }
    }
}

impl Bucket {
    pub fn only_owner(&self, caller: AccountId) -> (r: Result<()>)
        ensures
            r == if self.owner_id == caller { Ok::<(), Error>(()) } else { Err(Error::OnlyOwner) },
    {
        if self.owner_id == caller {
            Ok(())
        } else {
            Err(Error::OnlyOwner)
        }
    }

    pub fn put_resource(&mut self, amount: Resource)
        requires
            old(self).resource_reserved + amount <= u32::MAX,
        ensures
            *final(self) == (Bucket { resource_reserved: (old(self).resource_reserved + amount) as u32, ..*old(self) }),
    {
        self.resource_reserved = self.resource_reserved + amount;
    }

    pub fn set_cap(&mut self, amount: Resource)
        ensures
            *final(self) == (Bucket { resource_consumption_cap: amount, ..*old(self) }),
    {
        self.resource_consumption_cap = amount;
    }

    pub fn set_availability(&mut self, availability: bool)
        ensures
            *final(self) == (Bucket { public_availability: availability, ..*old(self) }),
    {
        self.public_availability = availability;
    }

    pub fn change_owner(&mut self, owner_id: AccountId)
        ensures
            *final(self) == (Bucket { owner_id, ..*old(self) }),
    {
        self.owner_id = owner_id;
    }

    pub fn set_params(&mut self, bucket_params: BucketParams) -> (r: Result<()>)
        ensures
            text_len(bucket_params) > BUCKET_PARAMS_MAX_LEN ==> r == Err::<(), Error>(Error::ParamsSizeExceedsLimit) && *final(self) == *old(self),
            text_len(bucket_params) <= BUCKET_PARAMS_MAX_LEN ==> r == Ok::<(), Error>(()) && *final(self) == (Bucket { bucket_params, ..*old(self) }),
    {
        if params_len(&bucket_params) > BUCKET_PARAMS_MAX_LEN {
            return Err(Error::ParamsSizeExceedsLimit);
        }
        self.bucket_params = bucket_params;
        Ok(())
    }
}

} // verus!
