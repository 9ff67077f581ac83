//! The store of deals, each at the position of its id.

use vstd::prelude::*;
use crate::{Error, Result};
use crate::flow::Flow;
use super::entity::{Deal, DealId, NodeId};

verus! {

pub struct DealStore(pub Vec<Deal>);

impl DealStore {
    pub open spec fn view(&self) -> Seq<Deal> {
        self.0@
    }

    pub fn new() -> (s: DealStore)
        ensures
            s@ == Seq::<Deal>::empty(),
    {
        DealStore(Vec::new())
    }

    pub fn create(&mut self, node_id: NodeId, flow: Flow) -> (deal_id: DealId)
        requires
            old(self)@.len() < u32::MAX,
        ensures
            deal_id == old(self)@.len(),
            final(self)@ == old(self)@.push(Deal { node_id, flow }),
    {
        let deal_id = self.0.len() as DealId;
        self.0.push(Deal { node_id, flow });
        deal_id
    }

    pub fn get(&self, deal_id: DealId) -> (r: Result<Deal>)
        ensures
            deal_id < self@.len() ==> r == Ok::<Deal, Error>(self@[deal_id as int]),
            deal_id >= self@.len() ==> r == Err::<Deal, Error>(Error::DealDoesNotExist),
    {
        if (deal_id as usize) < self.0.len() {
            Ok(self.0[deal_id as usize])
        } else {
            Err(Error::DealDoesNotExist)
        }
    }
}

} // verus!
