//! The data structure of CDN node tiers.

use vstd::prelude::*;

verus! {

pub type CdnNodeId = u32;

pub type TierId = u32;

#[derive(Clone, Copy, PartialEq, Eq, Structural, Debug)]
pub struct CdnNodeTier {
    pub cdn_node_id: CdnNodeId,
    pub tier_id: TierId,
}

} // verus!
