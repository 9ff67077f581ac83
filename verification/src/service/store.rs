//! The store of services, each at the position of its id.

use vstd::prelude::*;
use crate::{AccountId, Balance, Error, Result};
use crate::node::messages::passes;
use super::entity::{Service, ServiceId, ServiceParams};

verus! {

pub struct ServiceStore(pub Vec<Service>);

impl ServiceStore {
    pub open spec fn view(&self) -> Seq<Service> {
        self.0@
    }

    /// The ids from `id` on, below `end`, of the services whose provider
    /// passes the filter; the first id without a service ends the list.
    pub open spec fn listed(&self, id: int, end: int, filter: Option<AccountId>) -> Seq<ServiceId>
        decreases end - id,
    {
        if id >= end || id >= self@.len() {
            Seq::empty()
        } else {
            let rest = self.listed(id + 1, end, filter);
            if passes(filter, self@[id].provider_id) {
                seq![id as ServiceId] + rest
            } else {
                rest
            }
        }
    }

    pub fn new() -> (s: ServiceStore)
        ensures
            s@ == Seq::<Service>::empty(),
    {
        ServiceStore(Vec::new())
    }

    pub fn create(&mut self, provider_id: AccountId, rent_per_month: Balance, service_params: ServiceParams) -> (service_id: ServiceId)
        requires
            old(self)@.len() < u32::MAX,
        ensures
            service_id == old(self)@.len(),
            final(self)@ == old(self)@.push(Service { service_id, provider_id, rent_per_month, service_params }),
    {
        let service_id = self.0.len() as ServiceId;
        let service = Service { service_id, provider_id, rent_per_month, service_params };
        self.0.push(service);
        service_id
    }

    pub fn get(&self, service_id: ServiceId) -> (r: Result<&Service>)
        ensures
            service_id < self@.len() ==> r is Ok && *r->Ok_0 == self@[service_id as int],
            service_id >= self@.len() ==> r is Err && r->Err_0 == Error::ServiceDoesNotExist,
    {
        if (service_id as usize) < self.0.len() {
            Ok(&self.0[service_id as usize])
        } else {
            Err(Error::ServiceDoesNotExist)
        }
    }

    /// The services with ids from `offset` on, at most `limit` of them, whose
    /// provider passes the filter, and the number of services.
    pub fn list(&self, offset: u32, limit: u32, filter_provider_id: Option<AccountId>) -> (r: (Vec<Service>, u32))
        requires
            offset + limit <= u32::MAX,
            self@.len() <= u32::MAX,
        ensures
            ({
                let ids = self.listed(offset as int, offset + limit, filter_provider_id);
                &&& r.0@.len() == ids.len()
                &&& forall|i: int| 0 <= i < ids.len() ==> #[trigger] r.0@[i] == self@[ids[i] as int]
                &&& r.1 == self@.len()
            }),
    {
        let end = offset + limit;
        let mut services: Vec<Service> = Vec::new();
        let ghost all = self.listed(offset as int, end as int, filter_provider_id);
        let ghost mut ids: Seq<ServiceId> = Seq::empty();
        let mut service_id = offset;
        while service_id < end
            invariant
                offset <= service_id <= end,
                end == offset + limit,
                all == self.listed(offset as int, end as int, filter_provider_id),
                all == ids + self.listed(service_id as int, end as int, filter_provider_id),
                services@.len() == ids.len(),
                forall|i: int| 0 <= i < ids.len() ==> #[trigger] services@[i] == self@[ids[i] as int],
            ensures
                all == ids,
                services@.len() == ids.len(),
                forall|i: int| 0 <= i < ids.len() ==> #[trigger] services@[i] == self@[ids[i] as int],
            decreases end - service_id,
        {
            let service = match self.get(service_id) {
                Ok(s) => s,
                Err(_) => {
                    assert(ids + Seq::<ServiceId>::empty() =~= ids);
                    break;
                },
            };
            let keep = match filter_provider_id {
                Some(provider_id) => provider_id == service.provider_id,
                None => true,
            };
            if keep {
                services.push(service.clone());
                proof {
                    let rest = self.listed(service_id + 1, end as int, filter_provider_id);
                    assert(ids + (seq![service_id] + rest) =~= ids.push(service_id) + rest);
                    ids = ids.push(service_id);
                }
            }
            service_id = service_id + 1;
        }
        proof {
            if service_id >= end {
                assert(ids + Seq::<ServiceId>::empty() =~= ids);
            }
        }
        (services, self.0.len() as u32)
    }
}

} // verus!
