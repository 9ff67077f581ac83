use ddc_bucket::{AccountId, DdcBucket, Env, Error, Event, TOKEN, Transfer};
use ddc_bucket::cash::Cash;
use ddc_bucket::network_fee::FeeConfig;
use ddc_bucket::protocol::store::NetworkFeeConfig;

fn id(n: u128) -> AccountId {
    AccountId { high: 0, low: n }
}

fn env(caller: AccountId, now: u64, value: u128) -> Env {
    Env { caller, block_timestamp: now, transferred_value: value }
}

const ADMIN: u128 = 1;
const PROVIDER: u128 = 2;
const MANAGER: u128 = 3;
const CLIENT: u128 = 4;
const C1: u128 = 201;
const C2: u128 = 202;

/// Two CDN nodes of one provider in cluster 0 of a trusted manager, a client
/// with 50 tokens bonded and a bucket 0 of the client in cluster 0, and a
/// protocol fee of 10%.
fn setup() -> DdcBucket {
    let mut c = DdcBucket::new(env(id(ADMIN), 0, 0));
    c.message_admin_set_protocol_fee_bp(1000).unwrap();
    c.set_env(env(id(PROVIDER), 0, 0));
    c.message_cdn_node_create(id(C1), "{}".to_string()).unwrap();
    c.message_cdn_node_create(id(C2), "{}".to_string()).unwrap();
    c.message_grant_trusted_manager_permission(id(MANAGER)).unwrap();
    c.set_env(env(id(MANAGER), 0, 0));
    c.message_cluster_create("{}".to_string()).unwrap();
    c.message_cluster_add_cdn_node(0, id(C1)).unwrap();
    c.message_cluster_add_cdn_node(0, id(C2)).unwrap();
    c.set_env(env(id(CLIENT), 0, 100 * TOKEN));
    c.message_account_deposit().unwrap();
    c.message_account_bond(50 * TOKEN).unwrap();
    c.message_bucket_create("{}".to_string(), 0, None).unwrap();
    c.message_bucket_set_resource_cap(0, 7).unwrap();
    c.take_events();
    c
}

fn undistributed(c: &DdcBucket, n: u128) -> u128 {
    c.cdn_nodes.get(id(n)).unwrap().undistributed_payment
}

#[test]
fn cdn_node_joins_and_leaves_a_cluster() {
    let mut c = setup();
    let info = c.message_cluster_get(0).unwrap();
    assert_eq!(info.cluster.cdn_nodes_keys, vec![id(C1), id(C2)]);
    assert_eq!(c.cdn_nodes.get(id(C1)).unwrap().cluster_id, Some(0));
    c.set_env(env(id(PROVIDER), 0, 0));
    assert_eq!(c.message_cluster_remove_cdn_node(0, id(C1)), Ok(()));
    assert_eq!(c.message_cluster_get(0).unwrap().cluster.cdn_nodes_keys, vec![id(C2)]);
    assert_eq!(c.cdn_nodes.get(id(C1)).unwrap().cluster_id, None);
    assert_eq!(c.message_cluster_remove_cdn_node(0, id(C1)), Err(Error::CdnNodeIsNotAddedToCluster(0)));
    c.set_env(env(id(77), 0, 0));
    assert_eq!(c.message_cluster_remove_cdn_node(0, id(C2)), Err(Error::OnlyClusterManagerOrCdnNodeProvider));
    assert_eq!(c.message_cluster_add_cdn_node(0, id(C1)), Err(Error::OnlyTrustedClusterManager));
    c.set_env(env(id(MANAGER), 0, 0));
    assert_eq!(c.message_cluster_add_cdn_node(0, id(C2)), Err(Error::CdnNodeIsAddedToCluster(0)));
    assert_eq!(c.message_cluster_add_cdn_node(0, id(999)), Err(Error::CdnNodeDoesNotExist));
    assert_eq!(c.message_cluster_add_cdn_node(0, id(C1)), Ok(()));
    assert_eq!(c.message_cluster_get(0).unwrap().cluster.cdn_nodes_keys, vec![id(C2), id(C1)]);
}

#[test]
fn put_cdn_revenue_charges_clients_and_credits_nodes() {
    let mut c = setup();
    let bonded_before = c.accounts.get(&id(CLIENT)).unwrap().bonded.0;
    assert_eq!(
        c.message_cluster_put_cdn_revenue(
            0,
            vec![(id(CLIENT), 1_000_000)],
            vec![(id(C1), 600_000), (id(C2), 400_000)],
            vec![(0, 7)],
            1,
        ),
        Ok(())
    );
    // 1 GB at 104_857_600 USD units per GB, at one USD per CERE.
    assert_eq!(c.accounts.get(&id(CLIENT)).unwrap().bonded.0, bonded_before - 104_857_600);
    assert_eq!(undistributed(&c, C1), 56_623_104);
    assert_eq!(undistributed(&c, C2), 37_748_736);
    assert_eq!(c.message_get_protocol_revenues(), Cash(6_291_456 + 4_194_304));
    let cluster = c.message_cluster_get(0).unwrap().cluster;
    assert_eq!(cluster.cdn_revenues, Cash(94_371_840));
    // What the nodes and the protocol get is the price of the traffic.
    assert_eq!(cluster.cdn_revenues.0 + c.message_get_protocol_revenues().0, 104_857_600);
    assert_eq!(c.message_get_validated_commit(id(C1)), (1, 0));
    assert_eq!(c.message_get_validated_commit(id(C2)), (1, 0));
    // The cap equal to the consumption is used up.
    assert_eq!(c.buckets.get(0).unwrap().resource_consumption_cap, 0);
}

#[test]
fn put_cdn_revenue_errors() {
    let mut c = setup();
    assert_eq!(
        c.message_cluster_put_cdn_revenue(9, vec![], vec![], vec![], 1),
        Err(Error::ClusterDoesNotExist)
    );
    assert_eq!(
        c.message_cluster_put_cdn_revenue(0, vec![(id(55), 10)], vec![], vec![], 1),
        Err(Error::InsufficientBalance)
    );
    assert_eq!(
        c.message_cluster_put_cdn_revenue(0, vec![], vec![(id(999), 10)], vec![], 1),
        Err(Error::CdnNodeDoesNotExist)
    );
    assert_eq!(
        c.message_cluster_put_cdn_revenue(0, vec![], vec![], vec![(42, 0)], 1),
        Err(Error::BucketDoesNotExist)
    );
    // A cap above the consumption stays.
    assert_eq!(c.message_cluster_put_cdn_revenue(0, vec![], vec![], vec![(0, 3)], 1), Ok(()));
    assert_eq!(c.buckets.get(0).unwrap().resource_consumption_cap, 7);
}

#[test]
fn distribute_cdn_revenue_pays_providers() {
    let mut c = setup();
    c.message_cluster_put_cdn_revenue(0, vec![], vec![(id(C1), 600_000), (id(C2), 400_000)], vec![], 1).unwrap();
    c.take_events();
    assert_eq!(c.message_cluster_distribute_cdn_revenue(0), Ok(()));
    assert_eq!(
        c.take_transfers(),
        vec![
            Transfer { destination: id(PROVIDER), value: 56_623_104 },
            Transfer { destination: id(PROVIDER), value: 37_748_736 },
        ]
    );
    assert_eq!(undistributed(&c, C1), 0);
    assert_eq!(undistributed(&c, C2), 0);
    assert_eq!(c.message_cluster_get(0).unwrap().cluster.cdn_revenues, Cash(0));
    assert_eq!(
        c.take_events(),
        vec![
            Event::ClusterDistributeCdnRevenues { cluster_id: 0, provider_id: id(PROVIDER) },
            Event::ClusterDistributeCdnRevenues { cluster_id: 0, provider_id: id(PROVIDER) },
        ]
    );
    assert_eq!(c.message_cluster_distribute_cdn_revenue(5), Err(Error::ClusterDoesNotExist));
}

#[test]
fn distribute_cdn_revenue_needs_the_credited_revenues() {
    let mut c = setup();
    c.message_cluster_put_cdn_revenue(0, vec![], vec![(id(C1), 600_000)], vec![], 1).unwrap();
    let mut cluster = c.clusters.get(0).unwrap();
    cluster.cdn_revenues = Cash(10);
    c.clusters.update(0, &cluster).unwrap();
    assert_eq!(c.message_cluster_distribute_cdn_revenue(0), Err(Error::InsufficientBalance));
    assert!(c.take_transfers().is_empty());
    assert_eq!(undistributed(&c, C1), 56_623_104);
}

#[test]
fn cdn_cluster_create_checks_trust() {
    let mut c = setup();
    c.set_env(env(id(77), 0, 0));
    assert_eq!(c.message_cdn_cluster_create(vec![id(C1)]), Err(Error::ClusterManagerIsNotTrusted));
    c.set_env(env(id(MANAGER), 0, 0));
    assert_eq!(c.message_cdn_cluster_create(vec![id(C1), id(999)]), Err(Error::CdnNodeDoesNotExist));
    assert_eq!(c.message_cdn_cluster_create(vec![id(C1), id(C2)]), Ok(0));
    assert_eq!(c.take_events(), vec![Event::CdnClusterCreated { cluster_id: 0, manager: id(MANAGER) }]);
    let status = c.message_cdn_cluster_get(0).unwrap();
    assert_eq!(status.cluster_id, 0);
    assert_eq!(status.cluster.manager_id, id(MANAGER));
    assert_eq!(status.cluster.cdn_nodes, vec![id(C1), id(C2)]);
    assert_eq!(status.cluster.usd_per_gb, 104_857_600);
    assert_eq!(c.message_cdn_cluster_get(1).err(), Some(Error::ClusterDoesNotExist));
}

#[test]
fn cdn_cluster_revenue_round() {
    let mut c = setup();
    c.set_env(env(id(MANAGER), 0, 0));
    c.message_cdn_cluster_create(vec![id(C1), id(C2)]).unwrap();
    c.take_events();
    assert_eq!(
        c.message_cdn_cluster_put_revenue(0, vec![(id(CLIENT), 1_000_000)], vec![(id(C1), 600_000), (id(C2), 400_000)], vec![], 2),
        Ok(())
    );
    assert_eq!(c.message_cdn_cluster_get(0).unwrap().cluster.revenues, Cash(94_371_840));
    assert_eq!(c.message_get_validated_commit(id(C2)), (2, 0));
    assert_eq!(c.message_cdn_cluster_distribute_revenues(0), Ok(()));
    assert_eq!(
        c.take_transfers(),
        vec![
            Transfer { destination: id(PROVIDER), value: 56_623_104 },
            Transfer { destination: id(PROVIDER), value: 37_748_736 },
        ]
    );
    assert_eq!(c.message_cdn_cluster_get(0).unwrap().cluster.revenues, Cash(0));
    assert_eq!(
        c.take_events(),
        vec![
            Event::ClusterDistributeRevenues { cluster_id: 0, provider_id: id(PROVIDER) },
            Event::ClusterDistributeRevenues { cluster_id: 0, provider_id: id(PROVIDER) },
        ]
    );
}

#[test]
fn cdn_cluster_list_counts_storage_clusters() {
    let mut c = setup();
    c.set_env(env(id(MANAGER), 0, 0));
    c.message_cdn_cluster_create(vec![id(C1)]).unwrap();
    c.set_env(env(id(PROVIDER), 0, 0));
    c.message_grant_trusted_manager_permission(id(PROVIDER)).unwrap();
    c.message_cdn_cluster_create(vec![id(C2)]).unwrap();
    let r = c.message_cdn_cluster_list(0, 10, None);
    assert_eq!(r.0.iter().map(|s| s.cluster_id).collect::<Vec<u32>>(), vec![0, 1]);
    assert_eq!(r.1, 1);
    let r = c.message_cdn_cluster_list(0, 10, Some(id(PROVIDER)));
    assert_eq!(r.0.iter().map(|s| s.cluster_id).collect::<Vec<u32>>(), vec![1]);
    let r = c.message_cdn_cluster_list(1, 1, None);
    assert_eq!(r.0.iter().map(|s| s.cluster_id).collect::<Vec<u32>>(), vec![1]);
}

#[test]
fn cdn_cluster_distribution_pays_the_fee_config_only() {
    let mut c = setup();
    c.set_env(env(id(MANAGER), 0, 0));
    c.message_cdn_cluster_create(vec![id(C1), id(C2)]).unwrap();
    c.message_cdn_cluster_put_revenue(0, vec![(id(CLIENT), 1_000_000)], vec![(id(C1), 600_000), (id(C2), 400_000)], vec![], 2)
        .unwrap();
    c.take_transfers();
    // The storage clusters' network fee does not reach CDN clusters.
    c.set_env(env(id(ADMIN), 0, 0));
    c.message_admin_set_network_fee_config(NetworkFeeConfig {
        network_fee_bp: 5000,
        network_fee_destination: id(50),
        cluster_management_fee_bp: 5000,
    })
    .unwrap();
    // The fee configuration does: 10% of 94_371_840 goes to the network,
    // and what is left no longer covers the nodes' payments.
    c.message_admin_set_fee_config(FeeConfig { network_fee_bp: 1000, network_fee_destination: id(60), cluster_management_fee_bp: 0 })
        .unwrap();
    assert_eq!(c.message_cdn_cluster_distribute_revenues(0), Err(Error::InsufficientBalance));
    assert_eq!(c.take_transfers(), vec![Transfer { destination: id(60), value: 9_437_184 }]);
    assert_eq!(c.message_cdn_cluster_get(0).unwrap().cluster.revenues, Cash(84_934_656));
}
