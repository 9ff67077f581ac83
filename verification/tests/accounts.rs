use ddc_bucket::{AccountId, DdcBucket, Env, Error, Event, TOKEN};
use ddc_bucket::account::entity::MS_PER_WEEK;
use ddc_bucket::cash::Cash;

fn id(n: u128) -> AccountId {
    AccountId { high: 0, low: n }
}

fn env(caller: AccountId, now: u64, value: u128) -> Env {
    Env { caller, block_timestamp: now, transferred_value: value }
}

fn contract() -> DdcBucket {
    DdcBucket::new(env(id(1), 0, 0))
}

#[test]
fn deposit_creates_the_account_and_emits_an_event() {
    let mut c = contract();
    let bob = id(2);
    c.set_env(env(bob, 1_000, 100 * TOKEN));
    assert_eq!(c.message_account_deposit(), Ok(()));
    assert_eq!(c.accounts.balance(&bob), 100 * TOKEN);
    assert_eq!(c.message_get_accounts(), vec![bob]);
    assert_eq!(c.take_events(), vec![Event::Deposit { account_id: bob, value: 100 * TOKEN }]);

    // A second deposit adds to the first.
    c.set_env(env(bob, 2_000, 5));
    assert_eq!(c.message_account_deposit(), Ok(()));
    assert_eq!(c.accounts.balance(&bob), 100 * TOKEN + 5);
    assert_eq!(c.message_get_accounts(), vec![bob]);
}

#[test]
fn bond_unbond_withdraw_round_trip() {
    let mut c = contract();
    let bob = id(2);
    c.set_env(env(bob, 1_000, 100 * TOKEN));
    c.message_account_deposit().unwrap();

    assert_eq!(c.message_account_bond(40 * TOKEN), Ok(()));
    let a = c.accounts.get(&bob).unwrap();
    assert_eq!(a.deposit, Cash(60 * TOKEN));
    assert_eq!(a.bonded, Cash(40 * TOKEN));
    // Bonding conserves deposit plus bonded funds.
    assert_eq!(a.deposit.0 + a.bonded.0, 100 * TOKEN);

    assert_eq!(c.message_account_unbond(Cash(40 * TOKEN)), Ok(()));
    let a = c.accounts.get(&bob).unwrap();
    assert_eq!(a.bonded, Cash(0));
    assert_eq!(a.unbonded_amount, Cash(40 * TOKEN));
    assert_eq!(a.unbonded_timestamp, 1_000 + MS_PER_WEEK);

    // Too early: the bonding period is not over.
    c.set_env(env(bob, 1_000 + MS_PER_WEEK - 1, 0));
    assert_eq!(c.message_account_withdraw_unbonded(), Err(Error::BondingPeriodNotFinished));
    assert_eq!(c.accounts.balance(&bob), 60 * TOKEN);

    // After the bonding period the deposit is back.
    c.set_env(env(bob, 1_000 + MS_PER_WEEK, 0));
    assert_eq!(c.message_account_withdraw_unbonded(), Ok(()));
    let a = c.accounts.get(&bob).unwrap();
    assert_eq!(a.deposit, Cash(100 * TOKEN));
    assert_eq!(a.bonded, Cash(0));
    assert_eq!(a.unbonded_amount, Cash(0));
}

#[test]
fn bond_without_account_is_refused() {
    let mut c = contract();
    c.set_env(env(id(9), 0, 0));
    assert_eq!(c.message_account_bond(1), Err(Error::InsufficientBalance));
}

#[test]
fn bond_beyond_deposit_is_refused() {
    let mut c = contract();
    let bob = id(2);
    c.set_env(env(bob, 0, 10));
    c.message_account_deposit().unwrap();
    assert_eq!(c.message_account_bond(11), Err(Error::InsufficientBalance));
    assert_eq!(c.accounts.balance(&bob), 10);
}

#[test]
fn unbond_errors() {
    let mut c = contract();
    let bob = id(2);
    c.set_env(env(bob, 0, 0));
    assert_eq!(c.message_account_unbond(Cash(1)), Err(Error::AccountDoesNotExist));
    c.set_env(env(bob, 0, 10));
    c.message_account_deposit().unwrap();
    c.message_account_bond(5).unwrap();
    assert_eq!(c.message_account_unbond(Cash(6)), Err(Error::InsufficientBalance));
}

#[test]
fn withdraw_unbonded_without_account_is_refused() {
    let mut c = contract();
    c.set_env(env(id(3), 0, 0));
    assert_eq!(c.message_account_withdraw_unbonded(), Err(Error::AccountDoesNotExist));
}

#[test]
fn exchange_rate_is_set_by_its_holder() {
    let mut c = contract();
    let admin = id(1);
    let rater = id(5);
    c.set_env(env(admin, 0, 0));
    c.message_admin_grant_permission(rater, ddc_bucket::perm::entity::Permission::SetExchangeRate).unwrap();
    assert_eq!(c.message_account_get_usd_per_cere(), TOKEN);
    c.set_env(env(rater, 0, 0));
    c.message_account_set_usd_per_cere(3 * TOKEN);
    assert_eq!(c.message_account_get_usd_per_cere(), 3 * TOKEN);
}

#[test]
fn amounts_beyond_the_funds_are_refused_whatever_their_size() {
    let mut c = contract();
    let bob = id(2);
    c.set_env(env(bob, 0, 10));
    c.message_account_deposit().unwrap();
    assert_eq!(c.message_account_bond(u128::MAX), Err(Error::InsufficientBalance));
    c.message_account_bond(5).unwrap();
    assert_eq!(c.message_account_unbond(Cash(u128::MAX)), Err(Error::InsufficientBalance));
    // A refused unbonding needs no room for a bonding period.
    c.set_env(env(bob, u64::MAX, 0));
    assert_eq!(c.message_account_unbond(Cash(6)), Err(Error::InsufficientBalance));
    let a = c.accounts.get(&bob).unwrap();
    assert_eq!(a.bonded, Cash(5));
    assert_eq!(a.unbonded_amount, Cash(0));
    assert_eq!(a.deposit, Cash(5));
}

#[test]
fn unbonded_funds_come_back_a_week_after_the_last_unbonding() {
    let mut c = contract();
    let bob = id(2);
    c.set_env(env(bob, 0, 100));
    c.message_account_deposit().unwrap();
    c.message_account_bond(60).unwrap();
    c.set_env(env(bob, 10, 0));
    c.message_account_unbond(Cash(20)).unwrap();
    c.set_env(env(bob, 500, 0));
    c.message_account_unbond(Cash(10)).unwrap();
    // Other operations in between leave the unbonding as it is.
    c.message_account_bond(5).unwrap();
    c.set_env(env(bob, 500 + MS_PER_WEEK - 1, 0));
    assert_eq!(c.message_account_withdraw_unbonded(), Err(Error::BondingPeriodNotFinished));
    c.set_env(env(bob, 500 + MS_PER_WEEK, 0));
    assert_eq!(c.message_account_withdraw_unbonded(), Ok(()));
    let a = c.accounts.get(&bob).unwrap();
    assert_eq!(a.deposit, Cash(35 + 30));
    assert_eq!(a.unbonded_amount, Cash(0));
    assert_eq!(a.unbonded_timestamp, 0);
}
