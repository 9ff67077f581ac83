use ddc_bucket::{AccountId, Error, TOKEN};
use ddc_bucket::deal::store::DealStore;
use ddc_bucket::flow::Flow;
use ddc_bucket::params::store::{BucketParamsStore, NodeParamsStore, ParamsStoreTrait};
use ddc_bucket::schedule::Schedule;
use ddc_bucket::service::store::ServiceStore;
use ddc_bucket::DdcBucket;

fn id(n: u128) -> AccountId {
    AccountId { high: 0, low: n }
}

#[test]
fn params_create_change_get() {
    let mut store = BucketParamsStore { params: vec![] };
    assert_eq!(store.create("{}".to_string()), Ok(0));
    assert_eq!(store.create("{\"a\":1}".to_string()), Ok(1));
    assert_eq!(store.create("x".repeat(100_001)), Err(Error::ParamsTooBig));
    assert_eq!(store.get(1), Ok(&"{\"a\":1}".to_string()));
    // Growing by 3 bytes reports 3; shrinking reports 0.
    assert_eq!(store.change(0, "12345".to_string()), Ok(3));
    assert_eq!(store.change(0, "1".to_string()), Ok(0));
    assert_eq!(store.get(0), Ok(&"1".to_string()));
    assert_eq!(store.change(5, "1".to_string()), Err(Error::ParamsDoesNotExist));
    assert_eq!(store.get(5), Err(Error::ParamsDoesNotExist));
    let mut nodes = NodeParamsStore { params: vec!["a".to_string()] };
    assert_eq!(DdcBucket::impl_change_node_params(&mut nodes, 0, "b".to_string()), Ok(()));
    assert_eq!(nodes.params, vec!["b".to_string()]);
    assert_eq!(DdcBucket::impl_change_bucket_params(&mut store, 9, "b".to_string()), Err(Error::ParamsDoesNotExist));
}

#[test]
fn service_list_works() {
    let owner_id1 = id(1);
    let owner_id2 = id(2);
    let owner_id3 = id(3);
    let rent_per_month = 10 * TOKEN;
    let mut services = ServiceStore::new();
    let service_params1 = "{\"url\":\"https://ddc-1.cere.network/bucket/{BUCKET_ID}\"}";
    let service_params2 = "{\"url\":\"https://ddc-2.cere.network/bucket/{BUCKET_ID}\"}";
    let service_id1 = services.create(owner_id1, rent_per_month, service_params1.to_string());
    let service_id2 = services.create(owner_id2, rent_per_month, service_params2.to_string());
    assert_ne!(service_id1, service_id2);
    let count = 2;
    let ids = |r: (Vec<ddc_bucket::service::entity::Service>, u32)| -> (Vec<u32>, u32) {
        (r.0.iter().map(|s| s.service_id).collect(), r.1)
    };
    assert_eq!(ids(services.list(0, 100, None)), (vec![service_id1, service_id2], count));
    assert_eq!(ids(services.list(0, 2, None)), (vec![service_id1, service_id2], count));
    assert_eq!(ids(services.list(0, 1, None)), (vec![service_id1], count));
    assert_eq!(ids(services.list(1, 1, None)), (vec![service_id2], count));
    assert_eq!(ids(services.list(20, 20, None)), (vec![], count));
    assert_eq!(ids(services.list(0, 100, Some(owner_id1))), (vec![service_id1], count));
    assert_eq!(ids(services.list(0, 100, Some(owner_id2))), (vec![service_id2], count));
    assert_eq!(ids(services.list(0, 100, Some(owner_id3))), (vec![], count));
    let service1 = services.get(service_id1).unwrap();
    assert_eq!(service1.provider_id, owner_id1);
    assert_eq!(service1.rent_per_month, rent_per_month);
    assert_eq!(service1.service_params, service_params1.to_string());
    assert_eq!(services.get(7).err(), Some(Error::ServiceDoesNotExist));
}

#[test]
fn deals_are_stored_by_id() {
    let mut deals = DealStore::new();
    let flow = Flow { from: id(4), schedule: Schedule::new(0, 5) };
    assert_eq!(deals.create(7, flow), 0);
    assert_eq!(deals.create(8, flow), 1);
    assert_eq!(deals.get(1).unwrap().node_id, 8);
    assert_eq!(deals.get(0).unwrap().flow, flow);
    assert_eq!(deals.get(2), Err(Error::DealDoesNotExist));
}
