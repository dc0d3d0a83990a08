//! The epoch-phased reconciliation protocol: phase ordering, cycle length,
//! failure tolerance, and the once-per-epoch exchange rate update.

use liquid_staking::contract::StakeContract;
use liquid_staking::maintenance::MaintenanceModule;
use liquid_staking::storage::StakePool;
use liquid_staking::storage::EXCHANGE_RATE_SCALE;
use liquid_staking::StakeError;

fn pool_with_validators(ids: &[u64]) -> StakePool {
    let mut pool = StakePool::init();
    for &id in ids {
        pool.push_validators(id);
    }
    pool
}

/// Runs a full rewards query cycle for `epoch`, resolving each step with
/// the matching entry of `results` (`None` = failed call).
fn run_rewards_cycle(pool: &mut StakePool, epoch: u64, results: &[Option<u128>]) {
    for result in results {
        let handle = pool.get_rewards_admin(epoch).expect("rewards step refused");
        assert_eq!(handle.epoch, epoch);
        pool.get_rewards_callback(epoch, *result);
    }
}

/// Runs a full redelegation cycle for `epoch`, every step succeeding.
fn run_redelegate_cycle(pool: &mut StakePool, epoch: u64, n: usize) {
    for _ in 0..n {
        let handle = pool.redelegateAdmin(epoch).expect("redelegate step refused");
        pool.redelegate_callback(epoch, handle.position, Some(0));
    }
}

/// Runs a full withdraw cycle for `epoch`, every step succeeding.
fn run_withdraw_cycle(pool: &mut StakePool, epoch: u64, n: usize) {
    for _ in 0..n {
        let handle = pool.withdraw_admin(epoch).expect("withdraw step refused");
        pool.withdraw_callback(epoch, handle.position, Some(0));
    }
}

/// Runs a full stake query cycle for `epoch`, resolving each step with the
/// matching entry of `results`.
fn run_stake_cycle(pool: &mut StakePool, epoch: u64, results: &[Option<u128>]) {
    for result in results {
        let handle = pool.get_stake_admin(epoch).expect("stake step refused");
        pool.get_stake_callback(epoch, handle.validator, *result);
    }
}

#[test]
fn stake_query_requires_rewards_first() {
    let mut pool = pool_with_validators(&[1, 2, 3]);
    let err = pool.get_stake_admin(7).unwrap_err();
    assert_eq!(err, StakeError::MustFetchRewardsFirst);
    assert_eq!(err.message(), "must fetch rewards first");
}

#[test]
fn stake_query_requires_redelegation_second() {
    let mut pool = pool_with_validators(&[1, 2, 3]);
    run_rewards_cycle(&mut pool, 7, &[Some(0), Some(0), Some(0)]);
    let err = pool.get_stake_admin(7).unwrap_err();
    assert_eq!(err, StakeError::MustRedelegateFirst);
    assert_eq!(err.message(), "must redelegate rewards first");
}

#[test]
fn redelegation_requires_rewards_first() {
    let mut pool = pool_with_validators(&[1, 2, 3]);
    let err = pool.redelegateAdmin(7).unwrap_err();
    assert_eq!(err, StakeError::MustGetRewardsFirst);
    assert_eq!(err.message(), "must get rewards first");
}

#[test]
fn phases_in_order_reach_finished() {
    let mut pool = pool_with_validators(&[1, 2, 3]);
    let epoch = 7;

    run_rewards_cycle(&mut pool, epoch, &[Some(10), Some(20), Some(30)]);
    assert!(pool.rewards_info_finished.contains(epoch));

    run_redelegate_cycle(&mut pool, epoch, 3);
    assert!(pool.redelegate_finished.contains(epoch));

    run_stake_cycle(&mut pool, epoch, &[Some(100), Some(200), Some(300)]);
    assert!(pool.stake_info_finished.contains(epoch));

    run_withdraw_cycle(&mut pool, epoch, 3);
    assert!(pool.withdraw_finished.contains(epoch));

    assert_eq!(pool.stake_amounts.get(epoch), Some(600));
    assert_eq!(pool.rewards_amounts.get(epoch), Some(60));

    // Each completed cycle refuses to run again this epoch.
    let err = pool.redelegateAdmin(epoch).unwrap_err();
    assert_eq!(err, StakeError::AlreadyRedelegated);
    assert_eq!(err.message(), "already redelegated");
    let err = pool.get_stake_admin(epoch).unwrap_err();
    assert_eq!(err, StakeError::AlreadyGotStakeThisEpoch);
    assert_eq!(err.message(), "already got stake amount this epoch");
    let err = pool.withdraw_admin(epoch).unwrap_err();
    assert_eq!(err, StakeError::AlreadyGotWithdrawThisEpoch);
}

#[test]
fn cycle_finishes_after_exactly_registry_size_advances() {
    let mut pool = pool_with_validators(&[11, 22, 33, 44]);
    let epoch = 1;

    // The first three advances do not finish the cycle; the fourth does.
    for step in 0..4 {
        assert!(!pool.rewards_info_finished.contains(epoch));
        let handle = pool.get_rewards_admin(epoch).expect("step refused");
        assert_eq!(handle.validator, [11, 22, 33, 44][step]);
        pool.get_rewards_callback(epoch, None);
    }
    assert!(pool.rewards_info_finished.contains(epoch));

    // A fifth advance is refused: the cycle already ran this epoch.
    let err = pool.get_rewards_admin(epoch).unwrap_err();
    assert_eq!(err, StakeError::AlreadyGotRewardsThisEpoch);
    assert_eq!(err.message(), "already got rewards amount this epoch");
}

#[test]
fn single_validator_cycle_wraps_immediately() {
    let mut pool = pool_with_validators(&[5]);
    let epoch = 2;
    let handle = pool.get_rewards_admin(epoch).expect("step refused");
    assert_eq!(handle.validator, 5);
    assert_eq!(handle.position, 1);
    pool.get_rewards_callback(epoch, Some(9));
    assert!(pool.rewards_info_finished.contains(epoch));
    assert_eq!(pool.get_rewards_admin(epoch).unwrap_err(), StakeError::AlreadyGotRewardsThisEpoch);
}

#[test]
fn failed_step_still_counts_toward_cycle() {
    // A 3-validator stake query cycle whose 2nd call fails must still
    // finish after 3 advances, accumulating only the 1st and 3rd results.
    let mut pool = pool_with_validators(&[1, 2, 3]);
    let epoch = 4;
    run_rewards_cycle(&mut pool, epoch, &[Some(0), Some(0), Some(0)]);
    run_redelegate_cycle(&mut pool, epoch, 3);

    run_stake_cycle(&mut pool, epoch, &[Some(700), None, Some(40)]);
    assert!(pool.stake_info_finished.contains(epoch));
    assert_eq!(pool.stake_amounts.get(epoch), Some(740));

    // The failed step left no stake record for the 2nd validator.
    assert_eq!(pool.validator_stake_amount.get(1), Some(700));
    assert_eq!(pool.validator_stake_amount.get(2), None);
    assert_eq!(pool.validator_stake_amount.get(3), Some(40));
}

#[test]
fn empty_registry_is_rejected() {
    let mut pool = StakePool::init();
    assert_eq!(pool.get_rewards_admin(1).unwrap_err(), StakeError::EmptyRegistry);
    assert_eq!(pool.withdraw_admin(1).unwrap_err(), StakeError::EmptyRegistry);
    assert_eq!(pool.delegate_admin(50).unwrap_err(), StakeError::EmptyRegistry);
}

#[test]
fn exchange_rate_updates_once_per_epoch() {
    let mut pool = pool_with_validators(&[1, 2]);
    let epoch = 3;
    pool.total_token_supply = 1000;

    // Not before every phase finished.
    assert_eq!(pool.update_exchange_rate(epoch).unwrap_err(), StakeError::OperationsNotFinished);

    run_rewards_cycle(&mut pool, epoch, &[Some(0), Some(0)]);
    run_redelegate_cycle(&mut pool, epoch, 2);
    run_stake_cycle(&mut pool, epoch, &[Some(300), Some(200)]);
    run_withdraw_cycle(&mut pool, epoch, 2);

    pool.update_exchange_rate(epoch).expect("first update refused");
    assert_eq!(pool.exchange_rate, 1000 * EXCHANGE_RATE_SCALE / 500);

    // The second attempt fails and changes nothing.
    let rate_before = pool.exchange_rate;
    let err = pool.update_exchange_rate(epoch).unwrap_err();
    assert_eq!(err, StakeError::RateAlreadyUpdated);
    assert_eq!(err.message(), "Exchange rate already updated for this epoch");
    assert_eq!(pool.exchange_rate, rate_before);
}

#[test]
fn exchange_rate_division_guards_zero_stake() {
    let mut pool = pool_with_validators(&[1]);
    let epoch = 9;
    pool.total_token_supply = 1000;

    run_rewards_cycle(&mut pool, epoch, &[Some(0)]);
    run_redelegate_cycle(&mut pool, epoch, 1);
    run_stake_cycle(&mut pool, epoch, &[Some(0)]);
    run_withdraw_cycle(&mut pool, epoch, 1);

    // An all-zero accumulated stake divides by 1 instead of failing.
    pool.update_exchange_rate(epoch).expect("update refused");
    assert_eq!(pool.exchange_rate, 1000 * EXCHANGE_RATE_SCALE);
}

#[test]
fn exchange_rate_survives_large_totals() {
    // supply * scale would overrun the machine word; the update still goes
    // through, splitting the supply against the divisor first.
    let mut pool = pool_with_validators(&[1]);
    let epoch = 12;
    let supply: u128 = 1_000_000_700_000_000_000_000_000;
    let stake_total: u128 = 500_000_000_000_000_000_000_000;
    pool.total_token_supply = supply;

    run_rewards_cycle(&mut pool, epoch, &[Some(0)]);
    run_redelegate_cycle(&mut pool, epoch, 1);
    run_stake_cycle(&mut pool, epoch, &[Some(stake_total)]);
    run_withdraw_cycle(&mut pool, epoch, 1);

    pool.update_exchange_rate(epoch).expect("update refused");
    // supply / stake = 2 remainder 7e17, and 7e17 * 1e18 / 5e23 = 1.4e12.
    assert_eq!(pool.exchange_rate, 2 * EXCHANGE_RATE_SCALE + 1_400_000_000_000);
}

#[test]
fn late_phase_start_resets_cursor() {
    // Leave epoch 5's rewards cycle unfinished, then start epoch 6: the
    // first step of the new epoch restarts from the first validator.
    let mut pool = pool_with_validators(&[1, 2, 3]);
    let h1 = pool.get_rewards_admin(5).expect("step refused");
    assert_eq!(h1.validator, 1);
    pool.get_rewards_callback(5, Some(1));

    let h2 = pool.get_rewards_admin(6).expect("step refused");
    assert_eq!(h2.validator, 1);
    assert_eq!(pool.rewards_mapping_index, 2);
}

#[test]
fn callback_marks_finish_only_on_wrapped_position() {
    let mut pool = pool_with_validators(&[1, 2]);
    let epoch = 8;
    let h1 = pool.withdraw_admin(epoch).expect("step refused");
    assert_eq!(h1.position, 2);
    pool.withdraw_callback(epoch, h1.position, None);
    assert!(!pool.withdraw_finished.contains(epoch));

    let h2 = pool.withdraw_admin(epoch).expect("step refused");
    assert_eq!(h2.position, 1);
    pool.withdraw_callback(epoch, h2.position, None);
    assert!(pool.withdraw_finished.contains(epoch));
}
