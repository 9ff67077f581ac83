//! The store of CDN node tiers.

use vstd::prelude::*;
use crate::{Error, Result};
use crate::keymap::KeyMap;
use super::entity::{CdnNodeId, CdnNodeTier, TierId};

verus! {

/// A node's tier after a toggle: a node without a tier goes to tier 2, a
/// node in tier 1 to tier 2, any other to tier 1.
pub open spec fn toggled(current: Option<TierId>) -> TierId {
    match current {
        None => 2,
        Some(t) => if t == 1 { 2 } else { 1 },
    }
}

pub struct CdnNodeTierStore(pub KeyMap<CdnNodeId, CdnNodeTier>);

impl CdnNodeTierStore {
    pub open spec fn view(&self) -> Map<CdnNodeId, CdnNodeTier> {
        self.0@
    }

    pub fn new() -> (s: CdnNodeTierStore)
        ensures
            s@ == Map::<CdnNodeId, CdnNodeTier>::empty(),
    {
        CdnNodeTierStore(KeyMap::new())
    }

    /// Moves a node to the other tier, or to tier 2 if it has none.
    pub fn toggle_tier(&mut self, cdn_node_id: CdnNodeId) -> (r: Result<()>)
        ensures
            r == Ok::<(), Error>(()),
            final(self)@ == old(self)@.insert(cdn_node_id, CdnNodeTier {
                cdn_node_id: if old(self)@.contains_key(cdn_node_id) { old(self)@[cdn_node_id].cdn_node_id } else { cdn_node_id },
                tier_id: toggled(if old(self)@.contains_key(cdn_node_id) { Some(old(self)@[cdn_node_id].tier_id) } else { None }),
            }),
    {
        match self.0.get(&cdn_node_id) {
            Some(tier) => {
                let mut cdn_node_tier = *tier;
                let mut new_tier: TierId = 1;
                if cdn_node_tier.tier_id == 1 {
                    new_tier = 2;
                }
                cdn_node_tier.tier_id = new_tier;
                self.0.insert(cdn_node_id, cdn_node_tier);
                Ok(())
            },
            None => {
                self.0.insert(cdn_node_id, CdnNodeTier { cdn_node_id, tier_id: 2 });
                Ok(())
            },
        }
    }

    pub fn get(&self, cdn_node_id: CdnNodeId) -> (r: Result<CdnNodeTier>)
        ensures
            self@.contains_key(cdn_node_id) ==> r == Ok::<CdnNodeTier, Error>(self@[cdn_node_id]),
            !self@.contains_key(cdn_node_id) ==> r == Err::<CdnNodeTier, Error>(Error::ParamsDoesNotExist),
    {
        match self.0.get(&cdn_node_id) {
            Some(tier) => Ok(*tier),
            None => Err(Error::ParamsDoesNotExist),
        }
    }
}

} // verus!
