use ddc_bucket::{AccountId, DdcBucket, Env, Error, TOKEN, Transfer};
use ddc_bucket::buckets_perms::store::BucketsPermsStore;
use ddc_bucket::cash::{Cash, Payable};
use ddc_bucket::cdn_node_tier::store::CdnNodeTierStore;
use ddc_bucket::committer::store::{Commit, EraConfig, Phase};
use ddc_bucket::currency::{CurrencyConverter, PRECISION};
use ddc_bucket::perm::entity::Permission;
use ddc_bucket::schedule::{Schedule, MS_PER_MONTH};
use ddc_bucket::topology::store::TopologyStore;

fn id(n: u128) -> AccountId {
    AccountId { high: 0, low: n }
}

fn env(caller: AccountId, now: u64, value: u128) -> Env {
    Env { caller, block_timestamp: now, transferred_value: value }
}

#[test]
fn cash_pay_and_borrow() {
    let mut cash = Cash(100);
    assert_eq!(cash.pay(Payable(30)), Ok(()));
    assert_eq!(cash.peek(), 70);
    assert_eq!(cash.pay(Payable(71)), Err(Error::InsufficientBalance));
    assert_eq!(cash.peek(), 70);
    cash.increase(Cash(30));
    assert_eq!(cash, Cash(100));
    let (payable, borrowed) = Cash::borrow_payable_cash(42);
    assert_eq!(payable, Payable(42));
    assert_eq!(borrowed, Cash(42));
}

#[test]
fn schedule_values() {
    let month = MS_PER_MONTH as u64;
    let s = Schedule::new(month, 10);
    // A new schedule starts at zero.
    assert_eq!(s.value_at_time(month), 0);
    assert_eq!(s.value_at_time(2 * month), 10);
    assert_eq!(s.value_at_time(2 * month + month / 2), 15);
    assert_eq!(s.time_of_value(10), 2 * month);
    assert_eq!(Schedule::empty().time_of_value(5), u64::MAX);
    let mut t = s;
    assert_eq!(t.take_value_at_time(3 * month), 20);
    assert_eq!(t.value_at_time(3 * month), 0);
    assert_eq!(t.value_at_time(4 * month), 10);
    let mut a = Schedule::new(0, 10);
    a.add_schedule(Schedule::new(0, 5));
    assert_eq!(a.value_at_time(month), 15);
}

#[test]
fn currency_round_trip_never_gains() {
    let mut conv = CurrencyConverter::new();
    assert_eq!(conv.to_cere(100), 100);
    assert_eq!(conv.to_usd(100), 100);
    conv.set_usd_per_cere(3 * TOKEN);
    assert_eq!(conv.to_cere(100), 33);
    assert_eq!(conv.to_usd(33), 99);
    assert!(conv.to_usd(conv.to_cere(100)) <= 100);
    assert_eq!(PRECISION, 10_000_000);
}

#[test]
fn capture_fee_sends_the_fee() {
    let mut c = DdcBucket::new(env(id(1), 0, 0));
    let mut revenues = Cash(10_000);
    assert_eq!(c.capture_fee(150, id(7), &mut revenues), Ok(()));
    assert_eq!(revenues, Cash(9_850));
    assert_eq!(c.take_transfers(), vec![Transfer { destination: id(7), value: 150 }]);
    // A zero fee sends nothing.
    assert_eq!(c.capture_fee(0, id(7), &mut revenues), Ok(()));
    assert!(c.take_transfers().is_empty());
    assert_eq!(c.capture_fee(20_000, id(7), &mut revenues), Err(Error::InsufficientBalance));
    assert_eq!(revenues, Cash(9_850));
}

#[test]
fn contract_fee_is_kept_and_the_rest_refunded() {
    let mut c = DdcBucket::new(env(id(1), 0, 0));
    c.set_env(env(id(2), 0, TOKEN));
    assert_eq!(c.capture_fee_and_refund(10), Ok(()));
    assert_eq!(c.take_transfers(), vec![Transfer { destination: id(2), value: TOKEN - 10 * (TOKEN / 100) }]);
    c.set_env(env(id(2), 0, 5));
    assert_eq!(c.capture_fee_and_refund(10), Err(Error::InsufficientBalance));
    assert!(c.take_transfers().is_empty());
}

#[test]
fn permissions_and_admin() {
    let mut c = DdcBucket::new(env(id(1), 0, 0));
    assert_eq!(c.only_with_permission(Permission::SuperAdmin), Ok(id(1)));
    c.set_env(env(id(2), 0, 0));
    assert_eq!(c.only_with_permission(Permission::SuperAdmin), Err(Error::Unauthorized));
    assert_eq!(c.message_admin_grant_permission(id(3), Permission::SetExchangeRate), Err(Error::OnlySuperAdmin));
    assert_eq!(c.message_admin_withdraw(5), Err(Error::OnlySuperAdmin));
    c.set_env(env(id(1), 0, 0));
    assert_eq!(c.message_admin_grant_permission(id(2), Permission::SuperAdmin), Ok(()));
    c.set_env(env(id(2), 0, 0));
    // A super admin holds every permission.
    assert_eq!(c.only_with_permission(Permission::SetExchangeRate), Ok(id(2)));
    assert_eq!(c.message_admin_withdraw(5), Ok(()));
    assert_eq!(c.take_transfers(), vec![Transfer { destination: id(2), value: 5 }]);
    assert_eq!(c.message_admin_revoke_permission(id(2), Permission::SuperAdmin), Ok(()));
    assert_eq!(c.only_with_permission(Permission::SuperAdmin), Err(Error::Unauthorized));
}

#[test]
fn admin_transfers_node_ownership() {
    let mut c = DdcBucket::new(env(id(1), 0, 0));
    c.message_node_create(id(101), "{}".to_string(), 1, 1).unwrap();
    c.set_env(env(id(2), 0, 0));
    c.message_node_create(id(102), "{}".to_string(), 1, 1).unwrap();
    c.set_env(env(id(1), 0, 0));
    assert_eq!(c.message_admin_transfer_node_ownership(id(102), id(5)), Err(Error::NodeProviderIsNotSuperAdmin));
    assert_eq!(c.message_admin_transfer_node_ownership(id(103), id(5)), Err(Error::NodeDoesNotExist));
    assert_eq!(c.message_admin_transfer_node_ownership(id(101), id(5)), Ok(()));
    assert_eq!(c.nodes.get(id(101)).unwrap().provider_id, id(5));
}

#[test]
fn protocol_revenues_are_withdrawn_to_the_fee_destination() {
    let mut c = DdcBucket::new(env(id(1), 0, 0));
    c.protocol.put_revenues(Cash(100));
    assert_eq!(c.message_admin_withdraw_revenues(101), Err(Error::InsufficientBalance));
    assert_eq!(c.message_admin_withdraw_revenues(60), Ok(()));
    assert_eq!(c.message_get_protocol_revenues(), Cash(40));
    assert_eq!(c.take_transfers(), vec![Transfer { destination: id(1), value: 60 }]);
}

#[test]
fn commits_are_read_back() {
    let mut c = DdcBucket::new(env(id(1), 0, 0));
    let commit1 = Commit { hash: ddc_bucket::Hash { high: 1, low: 2 }, total_logs: 3, from_timestamp: 4, to_timestamp: 5 };
    let commit2 = Commit { hash: ddc_bucket::Hash { high: 6, low: 7 }, total_logs: 8, from_timestamp: 9, to_timestamp: 10 };
    assert_eq!(c.message_set_commit(id(2), id(201), commit1), Ok(()));
    assert_eq!(c.message_set_commit(id(2), id(202), commit1), Ok(()));
    assert_eq!(c.message_set_commit(id(2), id(201), commit2), Ok(()));
    // The newest commit of a node comes last, and replaces the older one.
    assert_eq!(c.message_get_commit(id(2)), vec![(id(202), commit1), (id(201), commit2)]);
    assert!(c.message_get_commit(id(3)).is_empty());
    assert_eq!(c.message_get_validated_commit(id(201)), (0, 0));
}

#[test]
fn era_settings_and_phases() {
    let mut c = DdcBucket::new(env(id(1), 0, 0));
    let cfg = EraConfig { start: 1_000, interval: 100, commit_duration: 30, validation_duration: 40 };
    c.set_env(env(id(2), 0, 0));
    assert_eq!(c.message_set_era(cfg), Err(Error::EraSettingFailed));
    c.set_env(env(id(1), 0, 0));
    assert_eq!(c.message_set_era(cfg), Ok(()));
    assert_eq!(c.message_get_era_settings(), cfg);
    c.set_env(env(id(1), 1_250, 0));
    let s = c.message_get_era();
    assert_eq!(s.current_era, 2);
    assert_eq!(s.current_phase, Phase::Valiadation);
    assert_eq!(s.previous_era, 1);
    assert_eq!(s.prev_era_from_timestamp, 1_100);
    assert_eq!(s.prev_era_to_timestamp, 1_200);
    c.set_env(env(id(1), 1_210, 0));
    assert_eq!(c.message_get_era().current_phase, Phase::Commit);
    c.set_env(env(id(1), 1_290, 0));
    assert_eq!(c.message_get_era().current_phase, Phase::Payout);
}

#[test]
fn topology_add_then_remove_node() {
    let mut t = TopologyStore::new();
    assert_eq!(t.create_topology(0), Ok(()));
    assert_eq!(t.create_topology(0), Err(Error::TopologyAlreadyExists));
    assert_eq!(t.add_node(0, id(101), vec![1, 2]), Ok(()));
    assert_eq!(t.add_node(0, id(102), vec![2, 3]), Err(Error::VNodeIsAlreadyAssignedToNode(id(102))));
    assert_eq!(t.add_node(0, id(102), vec![3, 3]), Err(Error::VNodeIsAlreadyAssignedToNode(id(102))));
    assert_eq!(t.get_node_by_v_node(0, 1), Ok(id(101)));
    assert_eq!(t.remove_node(0, id(101)), Ok(()));
    assert!(t.get_v_nodes_by_cluster(0).is_empty());
    assert!(t.get_v_nodes_by_node(id(101)).is_empty());
    assert!(!t.v_node_has_node(0, 1));
    assert_eq!(t.remove_topology(0), Ok(()));
    assert!(t.get_v_nodes_by_cluster(0).is_empty());
}

#[test]
fn topology_replace_and_reset() {
    let mut t = TopologyStore::new();
    t.create_topology(0).unwrap();
    t.add_node(0, id(101), vec![1, 2, 3]).unwrap();
    t.add_node(0, id(102), vec![4]).unwrap();
    assert_eq!(t.replace_node(0, id(102), vec![5]), Err(Error::VNodeDoesNotExistsInCluster(0)));
    assert_eq!(t.replace_node(0, id(102), vec![3]), Ok(()));
    assert_eq!(t.get_v_nodes_by_node(id(101)), vec![1, 2]);
    assert_eq!(t.get_v_nodes_by_node(id(102)), vec![4, 3]);
    assert_eq!(t.reset_node(0, id(101), vec![2, 4]), Err(Error::VNodeIsAlreadyAssignedToNode(id(101))));
    assert_eq!(t.reset_node(0, id(101), vec![2, 7]), Ok(()));
    assert_eq!(t.get_v_nodes_by_cluster(0), vec![3, 4, 2, 7]);
    assert_eq!(t.get_node_by_v_node(0, 1), Err(Error::VNodeIsNotAssignedToNode(0, 1)));
}

#[test]
fn cdn_node_tiers_toggle() {
    let mut s = CdnNodeTierStore::new();
    assert_eq!(s.get(5), Err(Error::ParamsDoesNotExist));
    assert_eq!(s.toggle_tier(5), Ok(()));
    assert_eq!(s.get(5).unwrap().tier_id, 2);
    s.toggle_tier(5).unwrap();
    assert_eq!(s.get(5).unwrap().tier_id, 1);
    s.toggle_tier(5).unwrap();
    assert_eq!(s.get(5).unwrap().tier_id, 2);
    assert_eq!(s.get(5).unwrap().cdn_node_id, 5);
}

#[test]
fn buckets_perms_grant_and_revoke() {
    let mut perms = BucketsPermsStore::new();
    assert_eq!(perms.get_bucket_writers(7), Vec::<AccountId>::new());
    assert_eq!(perms.get_bucket_readers(7), Vec::<AccountId>::new());

    assert_eq!(perms.grant_writer_permission(7, id(1)), Ok(()));
    assert_eq!(perms.grant_writer_permission(7, id(2)), Ok(()));
    assert_eq!(perms.grant_writer_permission(7, id(1)), Ok(()));
    assert_eq!(perms.get_bucket_writers(7), vec![id(1), id(2), id(1)]);
    assert_eq!(perms.get_bucket_writers(8), Vec::<AccountId>::new());
    assert_eq!(perms.get_bucket_readers(7), Vec::<AccountId>::new());

    // Only the first occurrence goes.
    assert_eq!(perms.revoke_writer_permission(7, id(1)), Ok(()));
    assert_eq!(perms.get_bucket_writers(7), vec![id(2), id(1)]);
    // Revoking an account that is not there changes nothing.
    assert_eq!(perms.revoke_writer_permission(7, id(9)), Ok(()));
    assert_eq!(perms.get_bucket_writers(7), vec![id(2), id(1)]);

    assert_eq!(perms.grant_reader_permission(3, id(5)), Ok(()));
    assert_eq!(perms.get_bucket_readers(3), vec![id(5)]);
    assert_eq!(perms.revoke_reader_permission(3, id(5)), Ok(()));
    assert_eq!(perms.get_bucket_readers(3), Vec::<AccountId>::new());
    assert_eq!(perms.get_bucket_writers(7), vec![id(2), id(1)]);
}

#[test]
fn time_of_value_is_the_last_millisecond_before_the_value_passes() {
    let month = MS_PER_MONTH as u64;
    // 3 units per month: the value reaches 1 at a third of a month, rounded.
    let s = Schedule::new(0, 3);
    let t = s.time_of_value(1);
    assert_eq!(t, month / 3);
    assert!(s.value_at_time(t) <= 1);
    assert!(s.value_at_time(t + 1) >= 1);
    assert_eq!(s.value_at_time(t - 1), 0);
    // With an offset the time moves on by what was taken.
    let s = Schedule::new(month, 3);
    let t = s.time_of_value(2);
    assert_eq!(t, 5 * month / 3);
    assert!(s.value_at_time(t) <= 2);
    assert!(s.value_at_time(t + 1) >= 2);
}

#[test]
fn commit_phase_needs_no_room_for_the_validation_window() {
    let mut c = DdcBucket::new(env(id(1), 0, 0));
    let cfg = EraConfig { start: 0, interval: 100, commit_duration: u64::MAX - 10, validation_duration: 20 };
    assert_eq!(c.message_set_era(cfg), Ok(()));
    c.set_env(env(id(1), 150, 0));
    let s = c.message_get_era();
    assert_eq!(s.current_phase, Phase::Commit);
    assert_eq!(s.current_era, 1);
    assert_eq!(s.previous_era, 0);
    assert_eq!(s.prev_era_from_timestamp, 0);
    assert_eq!(s.prev_era_to_timestamp, 100);
}
