//! The data structure of deals.

use vstd::prelude::*;
use crate::flow::Flow;

verus! {

pub type DealId = u32;

/// The id of a node in a deal.
pub type NodeId = u32;

#[derive(Clone, Copy, PartialEq, Eq, Structural, Debug)]
pub struct Deal {
    pub node_id: NodeId,
    pub flow: Flow,
}

#[derive(Clone, Copy, PartialEq, Eq, Structural, Debug)]
pub struct DealStatus {
    pub node_id: NodeId,
    pub estimated_rent_end_ms: u64,
}

} // verus!
