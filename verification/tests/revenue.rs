//! Protocol revenue: the fee accrued when a rewards cycle completes, and
//! the round trip through distribution.

use liquid_staking::contract::StakeContract;
use liquid_staking::maintenance::MaintenanceModule;
use liquid_staking::storage::StakePool;
use liquid_staking::storage::StorageModule;
use liquid_staking::storage::EXCHANGE_RATE_SCALE;

#[test]
fn rewards_cycle_accrues_service_fee() {
    let mut pool = StakePool::init();
    pool.push_validators(1);
    pool.push_validators(2);
    pool.set_service_fee(75);  // 7.5 percent, in parts per thousand

    let epoch = 3;
    // First step: cycle not finished yet, nothing accrues.
    pool.get_rewards_admin(epoch).expect("step refused");
    pool.get_rewards_callback(epoch, Some(400));
    assert_eq!(pool.protocol_revenue, 0);

    // Wrapping step: the fee on the epoch's full total accrues.
    pool.get_rewards_admin(epoch).expect("step refused");
    pool.get_rewards_callback(epoch, Some(600));
    assert_eq!(pool.rewards_amounts.get(epoch), Some(1000));
    assert_eq!(pool.protocol_revenue, 1000 * 75 / 1000);
}

#[test]
fn revenue_accrues_across_epochs() {
    let mut pool = StakePool::init();
    pool.push_validators(1);
    pool.set_service_fee(100);

    pool.get_rewards_admin(10).expect("step refused");
    pool.get_rewards_callback(10, Some(500));
    assert_eq!(pool.protocol_revenue, 50);

    pool.get_rewards_admin(11).expect("step refused");
    pool.get_rewards_callback(11, Some(300));
    assert_eq!(pool.protocol_revenue, 50 + 30);
}

#[test]
fn distribution_round_trip() {
    // Accrue revenue R: afterwards the accrual is zero and the supply grew
    // by exactly R * rate / scale.
    let mut pool = StakePool::init();
    let revenue: u128 = 12345;
    pool.protocol_revenue = revenue;
    pool.exchange_rate = 2 * EXCHANGE_RATE_SCALE;
    pool.total_token_supply = 1_000_000;

    let minted = pool.distribute_protocol_revenue();
    assert_eq!(minted, revenue * (2 * EXCHANGE_RATE_SCALE) / EXCHANGE_RATE_SCALE);
    assert_eq!(minted, 24690);
    assert_eq!(pool.protocol_revenue, 0);
    assert_eq!(pool.total_token_supply, 1_000_000 + 24690);
}

#[test]
fn distribution_of_nothing_mints_nothing() {
    let mut pool = StakePool::init();
    pool.total_token_supply = 500;
    let minted = pool.distribute_protocol_revenue();
    assert_eq!(minted, 0);
    assert_eq!(pool.total_token_supply, 500);
    assert_eq!(pool.protocol_revenue, 0);
}
