//! The stores of parameters, each a list indexed by id.

use vstd::prelude::*;
use crate::{Error, Result, text_len, params_len};

verus! {

pub type ParamsId = u32;

pub type Params = String;

pub const PARAMS_MAX_LEN: usize = 100_000;

/// How many bytes longer `new` is than `current`, or zero.
pub open spec fn growth(current: Params, new: Params) -> usize {
    if text_len(new) > text_len(current) {
        (text_len(new) - text_len(current)) as usize
    } else {
        0
    }
}

/// A list of parameters, indexed by id.
pub trait ParamsStoreTrait {
    spec fn params(&self) -> Seq<Params>;

    fn get_params_mut(&mut self) -> (r: &mut Vec<Params>)
        ensures
            r@ == old(self).params(),
            final(self).params() == final(r)@;

    fn get_params(&self) -> (r: &Vec<Params>)
        ensures
            r@ == self.params();

    /// Adds parameters; their id is their position.
    fn create(&mut self, params: Params) -> (r: Result<ParamsId>)
        requires
            old(self).params().len() <= u32::MAX,
        ensures
            text_len(params) > PARAMS_MAX_LEN ==> r == Err::<ParamsId, Error>(Error::ParamsTooBig)
                && final(self).params() == old(self).params(),
            text_len(params) <= PARAMS_MAX_LEN ==> r == Ok::<ParamsId, Error>(old(self).params().len() as ParamsId)
                && final(self).params() == old(self).params().push(params),
    {
        if params_len(&params) > PARAMS_MAX_LEN {
            return Err(Error::ParamsTooBig);
        }
        let params_id = self.get_params().len() as ParamsId;
        let list = self.get_params_mut();
        list.push(params);
        Ok(params_id)
    }

    /// Replaces the parameters of an id, and tells by how many bytes they grew.
    fn change(&mut self, params_id: ParamsId, params: Params) -> (r: Result<usize>)
        ensures
            params_id >= old(self).params().len() ==> r == Err::<usize, Error>(Error::ParamsDoesNotExist)
                && final(self).params() == old(self).params(),
            params_id < old(self).params().len() && text_len(params) > PARAMS_MAX_LEN
                ==> r == Err::<usize, Error>(Error::ParamsTooBig) && final(self).params() == old(self).params(),
            params_id < old(self).params().len() && text_len(params) <= PARAMS_MAX_LEN
                ==> r == Ok::<usize, Error>(growth(old(self).params()[params_id as int], params))
                && final(self).params() == old(self).params().update(params_id as int, params),
    {
        if params_id as usize >= self.get_params().len() {
            return Err(Error::ParamsDoesNotExist);
        }
        if params_len(&params) > PARAMS_MAX_LEN {
            return Err(Error::ParamsTooBig);
        }
        let current_len = params_len(&self.get_params()[params_id as usize]);
        let new_len = params_len(&params);
        let record_size = if new_len > current_len {
            new_len - current_len
        } else {
            0
        };
        let list = self.get_params_mut();
        list.set(params_id as usize, params);
        Ok(record_size)
    }

    fn get(&self, params_id: ParamsId) -> (r: Result<&Params>)
        ensures
            params_id < self.params().len() ==> r is Ok && *r->Ok_0 == self.params()[params_id as int],
            params_id >= self.params().len() ==> r is Err && r->Err_0 == Error::ParamsDoesNotExist,
    {
        let list = self.get_params();
        if (params_id as usize) < list.len() {
            Ok(&list[params_id as usize])
        } else {
            Err(Error::ParamsDoesNotExist)
        }
    }
}

pub struct BucketParamsStore {
    pub params: Vec<Params>,
}

pub struct ClusterParamsStore {
    pub params: Vec<Params>,
}

pub struct CdnNodeParamsStore {
    pub params: Vec<Params>,
}

pub struct NodeParamsStore {
    pub params: Vec<Params>,
}

impl ParamsStoreTrait for BucketParamsStore {
    open spec fn params(&self) -> Seq<Params> {
        self.params@
    }

    fn get_params_mut(&mut self) -> (r: &mut Vec<Params>) {
        &mut self.params
    }

    fn get_params(&self) -> (r: &Vec<Params>) {
        &self.params
    }
}

impl ParamsStoreTrait for ClusterParamsStore {
    open spec fn params(&self) -> Seq<Params> {
        self.params@
    }

    fn get_params_mut(&mut self) -> (r: &mut Vec<Params>) {
        &mut self.params
    }

    fn get_params(&self) -> (r: &Vec<Params>) {
        &self.params
    }
}

impl ParamsStoreTrait for CdnNodeParamsStore {
    open spec fn params(&self) -> Seq<Params> {
        self.params@
    }

    fn get_params_mut(&mut self) -> (r: &mut Vec<Params>) {
        &mut self.params
    }

    fn get_params(&self) -> (r: &Vec<Params>) {
        &self.params
    }
}

impl ParamsStoreTrait for NodeParamsStore {
    open spec fn params(&self) -> Seq<Params> {
        self.params@
    }

    fn get_params_mut(&mut self) -> (r: &mut Vec<Params>) {
        &mut self.params
    }

    fn get_params(&self) -> (r: &Vec<Params>) {
        &self.params
    }
}

} // verus!
