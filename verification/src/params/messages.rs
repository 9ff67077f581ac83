//! The public interface to change parameters.

use vstd::prelude::*;
use crate::{DdcBucket, Error, Result, text_len};
use super::store::{
    BucketParamsStore, CdnNodeParamsStore, ClusterParamsStore, NodeParamsStore, Params, ParamsId, ParamsStoreTrait,
    PARAMS_MAX_LEN,
};

verus! {

impl DdcBucket {
    pub fn impl_change_bucket_params(store: &mut BucketParamsStore, params_id: ParamsId, params: Params) -> (r: Result<()>)
        ensures
            params_id >= old(store).params().len() ==> r == Err::<(), Error>(Error::ParamsDoesNotExist)
                && final(store).params() == old(store).params(),
            params_id < old(store).params().len() && text_len(params) > PARAMS_MAX_LEN
                ==> r == Err::<(), Error>(Error::ParamsTooBig) && final(store).params() == old(store).params(),
            params_id < old(store).params().len() && text_len(params) <= PARAMS_MAX_LEN ==> r == Ok::<(), Error>(())
                && final(store).params() == old(store).params().update(params_id as int, params),
    {
        match store.change(params_id, params) {
            Ok(_) => Ok(()),
            Err(e) => Err(e),
        }
    }

    pub fn impl_change_cluster_params(store: &mut ClusterParamsStore, params_id: ParamsId, params: Params) -> (r: Result<()>)
        ensures
            params_id >= old(store).params().len() ==> r == Err::<(), Error>(Error::ParamsDoesNotExist)
                && final(store).params() == old(store).params(),
            params_id < old(store).params().len() && text_len(params) > PARAMS_MAX_LEN
                ==> r == Err::<(), Error>(Error::ParamsTooBig) && final(store).params() == old(store).params(),
            params_id < old(store).params().len() && text_len(params) <= PARAMS_MAX_LEN ==> r == Ok::<(), Error>(())
                && final(store).params() == old(store).params().update(params_id as int, params),
    {
        match store.change(params_id, params) {
            Ok(_) => Ok(()),
            Err(e) => Err(e),
        }
    }

    pub fn impl_change_cdn_node_params(store: &mut CdnNodeParamsStore, params_id: ParamsId, params: Params) -> (r: Result<()>)
        ensures
            params_id >= old(store).params().len() ==> r == Err::<(), Error>(Error::ParamsDoesNotExist)
                && final(store).params() == old(store).params(),
            params_id < old(store).params().len() && text_len(params) > PARAMS_MAX_LEN
                ==> r == Err::<(), Error>(Error::ParamsTooBig) && final(store).params() == old(store).params(),
            params_id < old(store).params().len() && text_len(params) <= PARAMS_MAX_LEN ==> r == Ok::<(), Error>(())
                && final(store).params() == old(store).params().update(params_id as int, params),
    {
        match store.change(params_id, params) {
            Ok(_) => Ok(()),
            Err(e) => Err(e),
        }
    }

    pub fn impl_change_node_params(store: &mut NodeParamsStore, params_id: ParamsId, params: Params) -> (r: Result<()>)
        ensures
            params_id >= old(store).params().len() ==> r == Err::<(), Error>(Error::ParamsDoesNotExist)
                && final(store).params() == old(store).params(),
            params_id < old(store).params().len() && text_len(params) > PARAMS_MAX_LEN
                ==> r == Err::<(), Error>(Error::ParamsTooBig) && final(store).params() == old(store).params(),
            params_id < old(store).params().len() && text_len(params) <= PARAMS_MAX_LEN ==> r == Ok::<(), Error>(())
                && final(store).params() == old(store).params().update(params_id as int, params),
    {
        match store.change(params_id, params) {
            Ok(_) => Ok(()),
            Err(e) => Err(e),
        }
    }
}

} // verus!
