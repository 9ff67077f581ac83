use ddc_bucket::{AccountId, DdcBucket, Env, Error, Event};

fn id(n: u128) -> AccountId {
    AccountId { high: 0, low: n }
}

fn env(caller: AccountId, now: u64, value: u128) -> Env {
    Env { caller, block_timestamp: now, transferred_value: value }
}

#[test]
fn node_create_then_remove_restores_the_store() {
    let mut c = DdcBucket::new(env(id(1), 0, 0));
    c.set_env(env(id(2), 0, 0));
    assert_eq!(c.message_node_create(id(101), "{}".to_string(), 100, 10), Ok(id(101)));
    assert_eq!(
        c.take_events(),
        vec![Event::NodeCreated { node_key: id(101), provider_id: id(2), rent_v_node_per_month: 10, node_params: "{}".to_string() }]
    );
    let info = c.message_node_get(id(101)).unwrap();
    assert_eq!(info.node.provider_id, id(2));
    assert_eq!(info.node.free_resource, 100);
    assert_eq!(info.node.cluster_id, None);
    assert_eq!(c.message_node_create(id(101), "{}".to_string(), 1, 1), Err(Error::NodeAlreadyExists));
    c.set_env(env(id(3), 0, 0));
    assert_eq!(c.message_node_remove(id(101)), Err(Error::OnlyNodeProvider));
    c.set_env(env(id(2), 0, 0));
    assert_eq!(c.message_node_remove(id(101)), Ok(()));
    assert!(c.nodes.keys.is_empty());
    assert_eq!(c.message_node_get(id(101)).err(), Some(Error::NodeDoesNotExist));
    assert_eq!(c.message_node_remove(id(101)), Err(Error::NodeDoesNotExist));
}

#[test]
fn node_params_and_list() {
    let mut c = DdcBucket::new(env(id(1), 0, 0));
    c.set_env(env(id(2), 0, 0));
    c.message_node_create(id(101), "a".to_string(), 100, 10).unwrap();
    c.set_env(env(id(3), 0, 0));
    c.message_node_create(id(102), "b".to_string(), 100, 10).unwrap();
    assert_eq!(c.message_node_set_params(id(102), "c".to_string()), Ok(()));
    assert_eq!(c.message_node_get(id(102)).unwrap().node.node_params, "c".to_string());
    assert_eq!(c.message_node_set_params(id(101), "d".to_string()), Err(Error::OnlyNodeProvider));
    assert_eq!(c.message_node_set_params(id(102), "x".repeat(100_001)), Err(Error::ParamsSizeExceedsLimit));
    let keys = |r: (Vec<ddc_bucket::node::entity::NodeInfo>, u32)| -> (Vec<AccountId>, u32) {
        (r.0.iter().map(|i| i.node_key).collect(), r.1)
    };
    assert_eq!(keys(c.message_node_list(0, 10, None)), (vec![id(101), id(102)], 2));
    assert_eq!(keys(c.message_node_list(1, 10, None)), (vec![id(102)], 2));
    assert_eq!(keys(c.message_node_list(0, 1, None)), (vec![id(101)], 2));
    assert_eq!(keys(c.message_node_list(0, 10, Some(id(3)))), (vec![id(102)], 2));
    assert_eq!(keys(c.message_node_list(5, 10, None)), (vec![], 2));
}

#[test]
fn cdn_node_create_then_remove() {
    let mut c = DdcBucket::new(env(id(1), 0, 0));
    c.set_env(env(id(2), 0, 0));
    assert_eq!(c.message_cdn_node_create(id(201), "{}".to_string()), Ok(id(201)));
    assert_eq!(c.message_cdn_node_create(id(201), "{}".to_string()), Err(Error::CdnNodeAlreadyExists));
    assert_eq!(c.message_cdn_node_get(id(201)).unwrap().cdn_node.undistributed_payment, 0);
    c.set_env(env(id(3), 0, 0));
    assert_eq!(c.message_remove_cdn_node(id(201)), Err(Error::OnlyCdnNodeProvider));
    c.set_env(env(id(2), 0, 0));
    assert_eq!(c.message_remove_cdn_node(id(201)), Ok(()));
    assert!(c.cdn_nodes.keys.is_empty());
    assert_eq!(c.message_cdn_node_get(id(201)).err(), Some(Error::CdnNodeDoesNotExist));
}

/// Two buckets of two owners in one cluster, listed with paging and an
/// owner filter.
#[test]
fn bucket_list_works() {
    let mut c = DdcBucket::new(env(id(1), 0, 0));
    let owner_id1 = id(11);
    let owner_id2 = id(12);
    let owner_id3 = id(13);
    c.message_cluster_create("{}".to_string()).unwrap();
    c.set_env(env(owner_id1, 0, 0));
    let bucket_id1 = c.message_bucket_create("".to_string(), 0, None).unwrap();
    c.set_env(env(owner_id2, 0, 0));
    let bucket_id2 = c.message_bucket_create("".to_string(), 0, None).unwrap();
    assert_ne!(bucket_id1, bucket_id2);
    let count = 2;
    let ids = |r: (Vec<ddc_bucket::bucket::entity::BucketStatus>, u32)| -> (Vec<u32>, u32) {
        (r.0.iter().map(|s| s.bucket_id).collect(), r.1)
    };
    assert_eq!(ids(c.message_bucket_list(0, 100, None)), (vec![bucket_id1, bucket_id2], count));
    assert_eq!(ids(c.message_bucket_list(0, 2, None)), (vec![bucket_id1, bucket_id2], count));
    assert_eq!(ids(c.message_bucket_list(0, 1, None)), (vec![bucket_id1], count));
    assert_eq!(ids(c.message_bucket_list(1, 1, None)), (vec![bucket_id2], count));
    assert_eq!(ids(c.message_bucket_list(20, 20, None)), (vec![], count));
    assert_eq!(ids(c.message_bucket_list(0, 100, Some(owner_id1))), (vec![bucket_id1], count));
    assert_eq!(ids(c.message_bucket_list(0, 100, Some(owner_id2))), (vec![bucket_id2], count));
    assert_eq!(ids(c.message_bucket_list(0, 100, Some(owner_id3))), (vec![], count));
}

#[test]
fn bucket_create_get_and_owner() {
    let mut c = DdcBucket::new(env(id(1), 0, 0));
    c.message_cluster_create("{}".to_string()).unwrap();
    c.take_events();
    c.set_env(env(id(11), 0, 0));
    assert_eq!(c.message_bucket_create("{}".to_string(), 0, None), Ok(0));
    assert_eq!(c.take_events(), vec![Event::BucketCreated { bucket_id: 0, owner_id: id(11) }]);
    let status = c.message_bucket_get(0).unwrap();
    assert_eq!(status.bucket_id, 0);
    assert_eq!(status.bucket.owner_id, id(11));
    assert_eq!(status.bucket.cluster_id, 0);
    assert_eq!(status.params, "{}".to_string());
    assert_eq!(status.writer_ids, vec![id(11)]);
    assert!(status.reader_ids.is_empty());
    assert_eq!(c.message_bucket_get(5).err(), Some(Error::BucketDoesNotExist));
    c.set_env(env(id(12), 0, 0));
    assert_eq!(c.message_bucket_change_owner(0, id(12)), Err(Error::OnlyOwner));
    c.set_env(env(id(11), 0, 0));
    assert_eq!(c.message_bucket_change_owner(0, id(12)), Ok(()));
    assert_eq!(c.buckets.get(0).unwrap().owner_id, id(12));
    assert_eq!(c.message_bucket_list_for_account(id(12)).len(), 1);
    assert_eq!(c.message_bucket_list_for_account(id(11)).len(), 0);
}

#[test]
fn bucket_writer_grant_then_revoke() {
    let mut c = DdcBucket::new(env(id(1), 0, 0));
    c.message_cluster_create("{}".to_string()).unwrap();
    c.set_env(env(id(11), 0, 0));
    c.message_bucket_create("{}".to_string(), 0, None).unwrap();
    assert_eq!(c.message_get_bucket_writers(0), Ok(vec![]));
    assert_eq!(c.message_grant_writer_permission(0, id(20)), Ok(()));
    assert_eq!(c.message_get_bucket_writers(0), Ok(vec![id(20)]));
    assert_eq!(c.message_revoke_writer_permission(0, id(20)), Ok(()));
    assert_eq!(c.message_get_bucket_writers(0), Ok(vec![]));
    assert_eq!(c.message_grant_reader_permission(0, id(21)), Ok(()));
    assert_eq!(c.message_get_bucket_readers(0), Ok(vec![id(21)]));
    assert_eq!(c.message_revoke_reader_permission(0, id(21)), Ok(()));
    assert_eq!(c.message_get_bucket_readers(0), Ok(vec![]));
    c.set_env(env(id(99), 0, 0));
    assert_eq!(c.message_grant_writer_permission(0, id(20)), Err(Error::OnlyOwner));
    assert_eq!(c.message_grant_writer_permission(7, id(20)), Err(Error::BucketDoesNotExist));
}

#[test]
fn bucket_availability_and_params() {
    let mut c = DdcBucket::new(env(id(1), 0, 0));
    c.message_cluster_create("{}".to_string()).unwrap();
    c.set_env(env(id(11), 0, 0));
    c.message_bucket_create("{}".to_string(), 0, None).unwrap();
    c.take_events();
    assert_eq!(c.message_bucket_set_availability(0, true), Ok(()));
    assert!(c.buckets.get(0).unwrap().public_availability);
    assert_eq!(c.message_bucket_change_params(0, "p".to_string()), Ok(()));
    assert_eq!(c.buckets.get(0).unwrap().bucket_params, "p".to_string());
    assert_eq!(c.message_bucket_set_resource_cap(0, 9), Ok(()));
    assert_eq!(c.buckets.get(0).unwrap().resource_consumption_cap, 9);
}
