//! The data structure of services.

use vstd::prelude::*;
use crate::{AccountId, Balance};

verus! {

pub type ServiceId = u32;

pub type ServiceParams = String;

#[derive(Debug)]
pub struct Service {
    pub service_id: ServiceId,
    pub provider_id: AccountId,
    pub rent_per_month: Balance,
    pub service_params: ServiceParams,
}

impl Clone for Service {
    fn clone(&self) -> (r: Self)
        ensures
            r == *self,
    {
        Service {
            service_id: self.service_id,
            provider_id: self.provider_id,
            rent_per_month: self.rent_per_month,
            service_params: self.service_params.clone(),
        }
    }
}

} // verus!
