use ddc_bucket::{AccountId, DdcBucket, Env, Error, Event, Transfer};
use ddc_bucket::cash::Cash;
use ddc_bucket::node::entity::NodeStatusInCluster;
use ddc_bucket::protocol::store::NetworkFeeConfig;

fn id(n: u128) -> AccountId {
    AccountId { high: 0, low: n }
}

fn env(caller: AccountId, now: u64, value: u128) -> Env {
    Env { caller, block_timestamp: now, transferred_value: value }
}

const ADMIN: u128 = 1;
const PROVIDER: u128 = 2;
const MANAGER: u128 = 3;
const N1: u128 = 101;
const N2: u128 = 102;

/// A contract with two storage nodes of one provider, who trusts the
/// manager; the manager runs cluster 0 with 10 units of resource per
/// virtual node.
fn setup() -> DdcBucket {
    let mut c = DdcBucket::new(env(id(ADMIN), 0, 0));
    c.set_env(env(id(PROVIDER), 0, 0));
    c.message_node_create(id(N1), "{}".to_string(), 100, 10).unwrap();
    c.message_node_create(id(N2), "{}".to_string(), 100, 10).unwrap();
    c.message_grant_trusted_manager_permission(id(MANAGER)).unwrap();
    c.set_env(env(id(MANAGER), 0, 0));
    assert_eq!(c.message_cluster_create("{}".to_string()), Ok(0));
    assert_eq!(c.message_cluster_reserve_resource(0, 10), Ok(()));
    c.take_events();
    c
}

fn free(c: &DdcBucket, n: u128) -> u32 {
    c.nodes.get(id(n)).unwrap().free_resource
}

#[test]
fn cluster_create_and_get() {
    let mut c = DdcBucket::new(env(id(ADMIN), 0, 0));
    c.set_env(env(id(MANAGER), 0, 0));
    assert_eq!(c.message_cluster_create("{\"a\":1}".to_string()), Ok(0));
    let info = c.message_cluster_get(0).unwrap();
    assert_eq!(info.cluster_id, 0);
    assert_eq!(info.cluster.manager_id, id(MANAGER));
    assert_eq!(info.cluster.cluster_params, "{\"a\":1}".to_string());
    assert!(info.cluster.nodes_keys.is_empty());
    assert_eq!(info.cluster.resource_per_v_node, 0);
    assert!(info.cluster_v_nodes.is_empty());
    assert_eq!(
        c.take_events(),
        vec![Event::ClusterCreated { cluster_id: 0, manager_id: id(MANAGER), cluster_params: "{\"a\":1}".to_string() }]
    );
    assert_eq!(c.message_cluster_get(1).err(), Some(Error::ClusterDoesNotExist));
}

#[test]
fn cluster_params_too_long_are_refused() {
    let mut c = DdcBucket::new(env(id(ADMIN), 0, 0));
    assert_eq!(c.message_cluster_create("x".repeat(100_001)), Err(Error::ParamsSizeExceedsLimit));
    // The id was taken all the same.
    assert_eq!(c.message_cluster_create("x".repeat(100_000)), Ok(1));
    assert_eq!(c.message_cluster_set_params(1, "y".repeat(100_001)), Err(Error::ParamsSizeExceedsLimit));
    assert_eq!(c.message_cluster_set_params(1, "{}".to_string()), Ok(()));
    assert_eq!(c.message_cluster_get(1).unwrap().cluster.cluster_params, "{}".to_string());
}

#[test]
fn add_node_assigns_virtual_nodes() {
    let mut c = setup();
    assert_eq!(c.message_cluster_add_node(0, id(N1), vec![1, 2, 3]), Ok(()));
    let node = c.nodes.get(id(N1)).unwrap();
    assert_eq!(node.cluster_id, Some(0));
    assert_eq!(node.status_in_cluster, Some(NodeStatusInCluster::ADDING));
    // The node was stored before its virtual nodes were reserved.
    assert_eq!(node.free_resource, 100);
    let info = c.message_cluster_get(0).unwrap();
    assert_eq!(info.cluster.nodes_keys, vec![id(N1)]);
    assert_eq!(info.cluster.total_rent, 30);
    assert_eq!(info.cluster_v_nodes, vec![1, 2, 3]);
    assert_eq!(c.topology.get_v_nodes_by_node(id(N1)), vec![1, 2, 3]);
    assert_eq!(c.topology.get_node_by_v_node(0, 2), Ok(id(N1)));
    assert_eq!(c.take_events(), vec![Event::ClusterNodeAdded { cluster_id: 0, node_key: id(N1) }]);
    assert_eq!(c.message_node_get(id(N1)).unwrap().v_nodes, vec![1, 2, 3]);
}

#[test]
fn add_then_remove_node_restores_cluster_and_topology() {
    let mut c = setup();
    c.message_cluster_add_node(0, id(N1), vec![1, 2, 3]).unwrap();
    assert_eq!(c.message_cluster_remove_node(0, id(N1)), Ok(()));
    let info = c.message_cluster_get(0).unwrap();
    assert!(info.cluster.nodes_keys.is_empty());
    assert_eq!(info.cluster.total_rent, 0);
    assert!(info.cluster_v_nodes.is_empty());
    assert!(c.topology.get_v_nodes_by_node(id(N1)).is_empty());
    assert_eq!(c.topology.get_node_by_v_node(0, 1), Err(Error::VNodeIsNotAssignedToNode(0, 1)));
    let node = c.nodes.get(id(N1)).unwrap();
    assert_eq!(node.cluster_id, None);
    assert_eq!(node.status_in_cluster, None);
    assert_eq!(node.free_resource, 100);
    // The node can be added again.
    assert_eq!(c.message_cluster_add_node(0, id(N1), vec![1, 2, 3]), Ok(()));
}

#[test]
fn add_node_errors() {
    let mut c = setup();
    assert_eq!(c.message_cluster_add_node(0, id(999), vec![1]), Err(Error::NodeDoesNotExist));
    c.set_env(env(id(77), 0, 0));
    assert_eq!(c.message_cluster_add_node(0, id(N1), vec![1]), Err(Error::OnlyTrustedClusterManager));
    // Trusted by the provider, but not the cluster's manager.
    c.set_env(env(id(PROVIDER), 0, 0));
    c.message_grant_trusted_manager_permission(id(77)).unwrap();
    c.set_env(env(id(77), 0, 0));
    assert_eq!(c.message_cluster_add_node(0, id(N1), vec![1]), Err(Error::OnlyClusterManager));
    assert_eq!(c.message_cluster_add_node(5, id(N1), vec![1]), Err(Error::ClusterDoesNotExist));
    c.set_env(env(id(MANAGER), 0, 0));
    c.message_cluster_add_node(0, id(N1), vec![1]).unwrap();
    assert_eq!(c.message_cluster_add_node(0, id(N1), vec![2]), Err(Error::NodeIsAddedToCluster(0)));
}

#[test]
fn add_node_without_resources_keeps_the_node_in_the_cluster() {
    let mut c = setup();
    let v_nodes: Vec<u64> = (1..=11).collect();
    assert_eq!(c.message_cluster_add_node(0, id(N2), v_nodes), Err(Error::InsufficientNodeResources));
    // The node was stored with its cluster before the reservation failed.
    assert_eq!(c.nodes.get(id(N2)).unwrap().cluster_id, Some(0));
    let info = c.message_cluster_get(0).unwrap();
    assert!(info.cluster.nodes_keys.is_empty());
    assert_eq!(info.cluster.total_rent, 0);
    assert!(info.cluster_v_nodes.is_empty());
}

#[test]
fn add_node_with_taken_virtual_node_is_refused_by_the_topology() {
    let mut c = setup();
    c.message_cluster_add_node(0, id(N1), vec![1, 2, 3]).unwrap();
    assert_eq!(
        c.message_cluster_add_node(0, id(N2), vec![3, 4]),
        Err(Error::VNodeIsAlreadyAssignedToNode(id(N2)))
    );
    // The cluster was updated before the topology refused.
    let info = c.message_cluster_get(0).unwrap();
    assert_eq!(info.cluster.nodes_keys, vec![id(N1), id(N2)]);
    assert_eq!(info.cluster.total_rent, 50);
    assert_eq!(info.cluster_v_nodes, vec![1, 2, 3]);
    assert!(c.topology.get_v_nodes_by_node(id(N2)).is_empty());
    assert_eq!(c.topology.get_node_by_v_node(0, 3), Ok(id(N1)));
}

#[test]
fn remove_node_errors() {
    let mut c = setup();
    assert_eq!(c.message_cluster_remove_node(0, id(N1)), Err(Error::NodeIsNotAddedToCluster(0)));
    c.message_cluster_add_node(0, id(N1), vec![1]).unwrap();
    c.set_env(env(id(77), 0, 0));
    assert_eq!(c.message_cluster_remove_node(0, id(N1)), Err(Error::OnlyClusterManagerOrNodeProvider));
    assert_eq!(c.message_cluster_remove_node(0, id(999)), Err(Error::NodeDoesNotExist));
    assert_eq!(c.message_cluster_remove_node(9, id(N1)), Err(Error::ClusterDoesNotExist));
    // The provider may remove its node.
    c.set_env(env(id(PROVIDER), 0, 0));
    assert_eq!(c.message_cluster_remove_node(0, id(N1)), Ok(()));
}

#[test]
fn reserve_resource_reserves_on_each_virtual_node() {
    let mut c = setup();
    c.message_cluster_add_node(0, id(N1), vec![1, 2, 3]).unwrap();
    c.message_cluster_add_node(0, id(N2), vec![4]).unwrap();
    c.take_events();
    assert_eq!(c.message_cluster_reserve_resource(0, 5), Ok(()));
    assert_eq!(c.message_cluster_get(0).unwrap().cluster.resource_per_v_node, 15);
    assert_eq!(free(&c, N1), 85);
    assert_eq!(free(&c, N2), 95);
    assert_eq!(c.take_events(), vec![Event::ClusterReserveResource { cluster_id: 0, resource: 5 }]);
    // Not enough left on the first node: the reservations before it stand.
    assert_eq!(c.message_cluster_reserve_resource(0, 30), Err(Error::InsufficientNodeResources));
    assert_eq!(c.message_cluster_get(0).unwrap().cluster.resource_per_v_node, 45);
    assert_eq!(free(&c, N1), 25);
    assert_eq!(free(&c, N2), 95);
    c.set_env(env(id(77), 0, 0));
    assert_eq!(c.message_cluster_reserve_resource(0, 1), Err(Error::OnlyClusterManager));
}

#[test]
fn reset_node_shrinks_and_grows() {
    let mut c = setup();
    c.message_cluster_add_node(0, id(N1), vec![1, 2, 3]).unwrap();
    c.take_events();
    assert_eq!(c.message_cluster_reset_node(0, id(N1), vec![1, 2]), Ok(()));
    assert_eq!(free(&c, N1), 110);
    assert_eq!(c.message_cluster_get(0).unwrap().cluster.total_rent, 20);
    assert_eq!(c.topology.get_v_nodes_by_node(id(N1)), vec![1, 2]);
    assert_eq!(c.topology.get_v_nodes_by_cluster(0), vec![1, 2]);
    assert_eq!(c.topology.get_node_by_v_node(0, 3), Err(Error::VNodeIsNotAssignedToNode(0, 3)));

    assert_eq!(c.message_cluster_reset_node(0, id(N1), vec![1, 2, 5, 6]), Ok(()));
    assert_eq!(free(&c, N1), 90);
    assert_eq!(c.message_cluster_get(0).unwrap().cluster.total_rent, 40);
    assert_eq!(c.topology.get_v_nodes_by_cluster(0), vec![1, 2, 5, 6]);
    assert_eq!(c.topology.get_node_by_v_node(0, 6), Ok(id(N1)));
    assert_eq!(
        c.take_events(),
        vec![
            Event::ClusterNodeReset { cluster_id: 0, node_key: id(N1) },
            Event::ClusterNodeReset { cluster_id: 0, node_key: id(N1) },
        ]
    );

    // Growing beyond the node's resources changes nothing.
    let many: Vec<u64> = (10..30).collect();
    assert_eq!(c.message_cluster_reset_node(0, id(N1), many), Err(Error::InsufficientNodeResources));
    assert_eq!(free(&c, N1), 90);
    assert_eq!(c.message_cluster_reset_node(0, id(N2), vec![1]), Err(Error::NodeIsNotAddedToCluster(0)));
}

#[test]
fn replace_node_hands_virtual_nodes_over() {
    let mut c = setup();
    c.message_cluster_add_node(0, id(N1), vec![1, 2, 3]).unwrap();
    c.message_cluster_add_node(0, id(N2), vec![4]).unwrap();
    c.take_events();
    assert_eq!(c.message_cluster_replace_node(0, vec![1, 2], id(N2)), Ok(()));
    assert_eq!(free(&c, N1), 120);
    assert_eq!(free(&c, N2), 80);
    assert_eq!(c.topology.get_v_nodes_by_node(id(N1)), vec![3]);
    assert_eq!(c.topology.get_v_nodes_by_node(id(N2)), vec![4, 1, 2]);
    assert_eq!(c.topology.get_node_by_v_node(0, 1), Ok(id(N2)));
    assert_eq!(c.topology.get_v_nodes_by_cluster(0), vec![1, 2, 3, 4]);
    assert_eq!(c.take_events(), vec![Event::ClusterNodeReplaced { cluster_id: 0, node_key: id(N2) }]);
    assert_eq!(c.message_cluster_replace_node(0, vec![9], id(N2)), Err(Error::VNodeIsNotAssignedToNode(0, 9)));
}

#[test]
fn distribute_revenues_conserves_value() {
    let mut c = setup();
    c.message_cluster_add_node(0, id(N1), vec![1]).unwrap();
    c.message_cluster_add_node(0, id(N2), vec![2]).unwrap();
    let mut cluster = c.clusters.get(0).unwrap();
    cluster.revenues = Cash(1000);
    c.clusters.update(0, &cluster).unwrap();
    c.set_env(env(id(ADMIN), 0, 0));
    c.message_admin_set_network_fee_config(NetworkFeeConfig {
        network_fee_bp: 1000,
        network_fee_destination: id(50),
        cluster_management_fee_bp: 500,
    })
    .unwrap();
    c.take_events();
    assert_eq!(c.message_cluster_distribute_revenues(0), Ok(()));
    let transfers = c.take_transfers();
    assert_eq!(
        transfers,
        vec![
            Transfer { destination: id(50), value: 100 },
            Transfer { destination: id(MANAGER), value: 45 },
            Transfer { destination: id(PROVIDER), value: 427 },
            Transfer { destination: id(PROVIDER), value: 427 },
        ]
    );
    let left = c.message_cluster_get(0).unwrap().cluster.revenues.0;
    assert_eq!(left, 1);
    let sent: u128 = transfers.iter().map(|t| t.value).sum();
    assert_eq!(sent + left, 1000);
    assert_eq!(
        c.take_events(),
        vec![
            Event::ClusterDistributeRevenues { cluster_id: 0, provider_id: id(PROVIDER) },
            Event::ClusterDistributeRevenues { cluster_id: 0, provider_id: id(PROVIDER) },
        ]
    );
    assert_eq!(c.message_cluster_distribute_revenues(3), Err(Error::ClusterDoesNotExist));
}

#[test]
fn distribute_revenues_with_excessive_fee_is_refused() {
    let mut c = setup();
    c.message_cluster_add_node(0, id(N1), vec![1]).unwrap();
    let mut cluster = c.clusters.get(0).unwrap();
    cluster.revenues = Cash(1000);
    c.clusters.update(0, &cluster).unwrap();
    c.set_env(env(id(ADMIN), 0, 0));
    c.message_admin_set_network_fee_config(NetworkFeeConfig {
        network_fee_bp: 20_000,
        network_fee_destination: id(50),
        cluster_management_fee_bp: 0,
    })
    .unwrap();
    assert_eq!(c.message_cluster_distribute_revenues(0), Err(Error::InsufficientBalance));
    assert!(c.take_transfers().is_empty());
    assert_eq!(c.message_cluster_get(0).unwrap().cluster.revenues, Cash(1000));
}

#[test]
fn cluster_list_pages_and_filters() {
    let mut c = DdcBucket::new(env(id(ADMIN), 0, 0));
    c.set_env(env(id(10), 0, 0));
    c.message_cluster_create("{}".to_string()).unwrap();
    c.set_env(env(id(11), 0, 0));
    c.message_cluster_create("{}".to_string()).unwrap();
    c.set_env(env(id(10), 0, 0));
    c.message_cluster_create("{}".to_string()).unwrap();
    let ids = |r: (Vec<ddc_bucket::cluster::entity::ClusterInfo>, u32)| -> (Vec<u32>, u32) {
        (r.0.iter().map(|i| i.cluster_id).collect(), r.1)
    };
    assert_eq!(ids(c.message_cluster_list(0, 100, None)), (vec![0, 1, 2], 3));
    assert_eq!(ids(c.message_cluster_list(1, 1, None)), (vec![1], 3));
    assert_eq!(ids(c.message_cluster_list(0, 100, Some(id(10)))), (vec![0, 2], 3));
    assert_eq!(ids(c.message_cluster_list(0, 100, Some(id(12)))), (vec![], 3));
    assert_eq!(ids(c.message_cluster_list(20, 20, None)), (vec![], 3));
    // The first missing id ends the list.
    c.set_env(env(id(11), 0, 0));
    c.message_cluster_remove(1).unwrap();
    assert_eq!(ids(c.message_cluster_list(0, 100, None)), (vec![0], 3));
}

#[test]
fn cluster_remove_requires_an_empty_cluster() {
    let mut c = setup();
    c.message_cluster_add_node(0, id(N1), vec![1]).unwrap();
    assert_eq!(c.message_cluster_remove(0), Err(Error::ClusterIsNotEmpty));
    c.set_env(env(id(77), 0, 0));
    assert_eq!(c.message_cluster_remove(0), Err(Error::OnlyClusterManager));
    c.set_env(env(id(MANAGER), 0, 0));
    c.message_cluster_remove_node(0, id(N1)).unwrap();
    c.take_events();
    assert_eq!(c.message_cluster_remove(0), Ok(()));
    assert_eq!(c.take_events(), vec![Event::ClusterRemoved { cluster_id: 0 }]);
    assert_eq!(c.message_cluster_get(0).err(), Some(Error::ClusterDoesNotExist));
    assert_eq!(c.message_cluster_remove(0), Err(Error::ClusterDoesNotExist));
}

#[test]
fn node_status_and_cdn_rate() {
    let mut c = setup();
    assert_eq!(c.message_cluster_set_node_status(0, id(N1), NodeStatusInCluster::ACTIVE), Ok(()));
    assert_eq!(c.nodes.get(id(N1)).unwrap().status_in_cluster, Some(NodeStatusInCluster::ACTIVE));
    assert_eq!(c.message_cdn_get_rate(0), Ok(104_857_600));
    assert_eq!(c.message_cdn_set_rate(0, 7), Ok(()));
    assert_eq!(c.message_cdn_get_rate(0), Ok(7));
    c.set_env(env(id(77), 0, 0));
    assert_eq!(c.message_cdn_set_rate(0, 8), Err(Error::OnlyClusterManager));
    assert_eq!(c.message_cluster_set_node_status(0, id(N1), NodeStatusInCluster::OFFLINE), Err(Error::OnlyClusterManager));
    assert_eq!(c.message_cdn_get_rate(4), Err(Error::ClusterDoesNotExist));
}

#[test]
fn trusted_manager_permission_grant_and_revoke() {
    let mut c = DdcBucket::new(env(id(ADMIN), 0, 0));
    c.set_env(env(id(PROVIDER), 0, 0));
    c.message_grant_trusted_manager_permission(id(MANAGER)).unwrap();
    c.set_env(env(id(MANAGER), 0, 0));
    assert_eq!(c.only_trusted_cluster_manager(id(PROVIDER)), Ok(id(MANAGER)));
    c.set_env(env(id(PROVIDER), 0, 0));
    c.message_revoke_trusted_manager_permission(id(MANAGER)).unwrap();
    c.set_env(env(id(MANAGER), 0, 0));
    assert_eq!(c.only_trusted_cluster_manager(id(PROVIDER)), Err(Error::OnlyTrustedClusterManager));
}
