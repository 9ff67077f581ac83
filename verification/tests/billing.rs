use ddc_bucket::{AccountId, DdcBucket, Env, Error, Event};
use ddc_bucket::cash::{Cash, Payable};
use ddc_bucket::network_fee::{FeeConfig, NetworkFeeStore};
use ddc_bucket::protocol::store::NetworkFeeConfig;
use ddc_bucket::schedule::{Schedule, MS_PER_MONTH};

fn id(n: u128) -> AccountId {
    AccountId { high: 0, low: n }
}

fn env(caller: AccountId, now: u64, value: u128) -> Env {
    Env { caller, block_timestamp: now, transferred_value: value }
}

#[test]
fn billing_deposit_withdraw_and_transfer() {
    let mut c = DdcBucket::new(env(id(1), 0, 0));
    c.set_env(env(id(2), 0, 1000));
    assert_eq!(c.message_deposit(), Ok(()));
    assert_eq!(c.billing_accounts.balance(&id(2)), 1000);
    assert_eq!(c.take_events(), vec![Event::Deposit { account_id: id(2), value: 1000 }]);
    assert_eq!(c.billing_get_net(id(2)), 1000);
    assert_eq!(c.billing_get_net(id(9)), 0);
    assert_eq!(c.billing_withdraw(id(2), Payable(300)), Ok(()));
    assert_eq!(c.billing_accounts.balance(&id(2)), 700);
    assert_eq!(c.billing_withdraw(id(2), Payable(800)), Err(Error::InsufficientBalance));
    assert_eq!(c.billing_withdraw(id(9), Payable(1)), Err(Error::InsufficientBalance));
    assert_eq!(c.billing_transfer(id(2), id(3), 200), Ok(()));
    assert_eq!(c.billing_accounts.balance(&id(2)), 500);
    assert_eq!(c.billing_accounts.balance(&id(3)), 200);
    assert_eq!(c.billing_transfer(id(3), id(2), 201), Err(Error::InsufficientBalance));
}

#[test]
fn billing_flow_is_settled() {
    let month = MS_PER_MONTH as u64;
    let mut c = DdcBucket::new(env(id(1), 0, 0));
    c.set_env(env(id(2), 0, 500));
    c.message_deposit().unwrap();
    let schedule = Schedule::new(0, 100);
    let mut account = c.billing_accounts.get(&id(2)).unwrap();
    account.payable_schedule = schedule;
    c.billing_accounts.save(&id(2), &account);
    let flow_id = c.flows.create(id(2), schedule);
    assert_eq!(flow_id, 0);
    assert_eq!(c.billing_flow_covered_until(0), Ok(5 * month));
    assert_eq!(c.billing_flow_covered_until(1), Err(Error::FlowDoesNotExist));

    c.set_env(env(id(2), month, 0));
    // A month of the schedule is owed and not withdrawable.
    assert_eq!(c.billing_get_net(id(2)), 400);
    assert_eq!(c.billing_settle_flow(0), Ok(Cash(100)));
    let account = c.billing_accounts.get(&id(2)).unwrap();
    assert_eq!(account.deposit, Cash(400));
    assert_eq!(account.payable_locked, 0);
    assert_eq!(c.flows.get(0).unwrap().schedule.value_at_time(month), 0);
    // Nothing more has flowed at the same time.
    assert_eq!(c.billing_settle_flow(0), Ok(Cash(0)));
    assert_eq!(c.billing_settle_flow(7), Err(Error::FlowDoesNotExist));

    let other = c.flows.create(id(9), Schedule::new(0, 1));
    assert_eq!(c.billing_settle_flow(other), Err(Error::AccountDoesNotExist));
    assert_eq!(c.billing_flow_covered_until(other), Err(Error::AccountDoesNotExist));
}

#[test]
fn fee_config_is_set_by_a_super_admin() {
    let mut c = DdcBucket::new(env(id(1), 0, 0));
    let config = FeeConfig { network_fee_bp: 100, network_fee_destination: id(50), cluster_management_fee_bp: 200 };
    assert_eq!(c.message_admin_set_fee_config(config), Ok(()));
    assert_eq!(c.network_fee.fee_config, config);
    // The network fee configuration of the storage clusters is a separate one.
    assert_eq!(
        c.message_get_network_fee_config(),
        NetworkFeeConfig { network_fee_bp: 0, network_fee_destination: id(0), cluster_management_fee_bp: 0 }
    );
    c.set_env(env(id(2), 0, 0));
    assert_eq!(c.message_admin_set_fee_config(FeeConfig::default()), Err(Error::Unauthorized));
    let store = NetworkFeeStore { fee_config: config };
    assert_eq!(store.cluster_management_fee_bp(), 200);
}
