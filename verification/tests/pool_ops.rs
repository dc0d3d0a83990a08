//! Deposits, withdrawals, claims, token issuance, and the owner's storage
//! endpoints.

use liquid_staking::contract::StakeContract;
use liquid_staking::callbacks::CallbacksModule;
use liquid_staking::storage::StakePool;
use liquid_staking::storage::StorageModule;
use liquid_staking::storage::EXCHANGE_RATE_SCALE;
use liquid_staking::tokens::TokenAttributes;
use liquid_staking::tokens::TokenModule;
use liquid_staking::StakeError;

#[test]
fn init_defaults() {
    let pool = StakePool::init();
    assert_eq!(pool.delta_stake, 0);
    assert_eq!(pool.exchange_rate, 1);
    assert_eq!(pool.exchange_rate_multiplier, EXCHANGE_RATE_SCALE);
    assert_eq!(pool.mapping_index, 1);
    assert_eq!(pool.rewards_mapping_index, 1);
    assert_eq!(pool.withdraw_mapping_index, 1);
    assert_eq!(pool.redelegate_mapping_index, 1);
    assert_eq!(pool.get_validators_count(), 0);
    assert_eq!(pool.staked_egld_id, None);
}

#[test]
fn stake_mints_at_current_rate() {
    let mut pool = StakePool::init();
    pool.exchange_rate = 2 * EXCHANGE_RATE_SCALE;

    let minted = pool.stake(1000).expect("deposit refused");
    assert_eq!(minted, 2000);
    assert_eq!(pool.total_token_supply, 2000);
    assert_eq!(pool.delta_stake, 1000);
}

#[test]
fn stake_of_zero_is_rejected() {
    let mut pool = StakePool::init();
    let err = pool.stake(0).unwrap_err();
    assert_eq!(err, StakeError::StakeValueMustBePositive);
    assert_eq!(err.message(), "Stake value must be bigger than 0");
    assert_eq!(pool.total_token_supply, 0);
    assert_eq!(pool.delta_stake, 0);
}

#[test]
fn unstake_burns_and_releases() {
    let mut pool = StakePool::init();
    pool.staked_egld_id = Some(77);
    pool.exchange_rate = 2 * EXCHANGE_RATE_SCALE;
    pool.total_token_supply = 6 * EXCHANGE_RATE_SCALE;
    pool.delta_stake = 100;

    let payment = 4 * EXCHANGE_RATE_SCALE;
    let (released, attributes) = pool.unstake(77, payment, 40).expect("withdrawal refused");
    // The payment converted back through the rate: 4e18 / 2e18 * 1e18.
    assert_eq!(released, 2 * EXCHANGE_RATE_SCALE);
    assert_eq!(attributes, TokenAttributes { epoch: 40 });
    assert_eq!(pool.total_token_supply, 2 * EXCHANGE_RATE_SCALE);
    assert_eq!(pool.delta_stake, 100 - (4 * EXCHANGE_RATE_SCALE) as i128);
}

#[test]
fn unstake_rejects_wrong_token_and_zero() {
    let mut pool = StakePool::init();
    pool.staked_egld_id = Some(77);
    pool.total_token_supply = 500;

    let err = pool.unstake(78, 100, 1).unwrap_err();
    assert_eq!(err, StakeError::InvalidToken);
    assert_eq!(err.message(), "Invalid token sent");

    let err = pool.unstake(77, 0, 1).unwrap_err();
    assert_eq!(err, StakeError::ZeroAmount);
    assert_eq!(err.message(), "Cannot receive 0 amount");
    assert_eq!(pool.total_token_supply, 500);
}

#[test]
fn claim_pays_after_one_epoch() {
    let mut pool = StakePool::init();
    pool.undelegated_token_id = Some(9);

    let receipt = TokenAttributes { epoch: 30 };
    // Same epoch: not claimable yet.
    assert_eq!(pool.claim(9, 400, receipt, 30).expect("claim refused"), None);
    // One epoch later: paid out.
    assert_eq!(pool.claim(9, 400, receipt, 31).expect("claim refused"), Some(400));

    assert_eq!(pool.claim(8, 400, receipt, 31).unwrap_err(), StakeError::InvalidToken);
    assert_eq!(pool.claim(9, 0, receipt, 31).unwrap_err(), StakeError::ZeroAmount);
}

#[test]
fn token_issuance_happens_once() {
    let mut pool = StakePool::init();
    assert_eq!(pool.set_local_roles().unwrap_err(), StakeError::TokenNotIssued);
    pool.issue_staked_egld().expect("issuance refused");

    // The issuance call failed: nothing recorded, a retry is allowed.
    pool.esdt_issue_callback(None);
    assert_eq!(pool.staked_egld_id, None);
    pool.issue_staked_egld().expect("retry refused");

    // The retry succeeded.
    pool.esdt_issue_callback(Some(77));
    assert_eq!(pool.staked_egld_id, Some(77));
    let err = pool.issue_staked_egld().unwrap_err();
    assert_eq!(err, StakeError::TokenAlreadyIssued);
    assert_eq!(err.message(), "token was already issued");
    pool.set_local_roles().expect("roles refused");
}

#[test]
fn receipt_token_issuance_records_identity() {
    let mut pool = StakePool::init();
    pool.meta_esdt_issue_callback(None);
    assert_eq!(pool.undelegated_token_id, None);
    pool.meta_esdt_issue_callback(Some(9));
    assert_eq!(pool.undelegated_token_id, Some(9));
}

#[test]
fn storage_setters_and_clearers() {
    let mut pool = StakePool::init();
    pool.push_validators(1);
    pool.push_validators(2);
    assert_eq!(pool.get_validators_count(), 2);

    pool.set_service_fee(75);
    assert_eq!(pool.service_fee, 75);
    pool.set_delta_stake(-40);
    assert_eq!(pool.delta_stake, -40);
    pool.set_total_staked(900);
    assert_eq!(pool.total_staked, 900);

    pool.set_validator_stake_amount(1, 500);
    pool.set_validator_stake_amount(2, 700);
    pool.set_validator_stake_amount(1, 600);
    assert_eq!(pool.validator_stake_amount.get(1), Some(600));
    assert_eq!(pool.validator_stake_amount.len(), 2);
    pool.clear_validator_stake_amounts();
    assert_eq!(pool.validator_stake_amount.len(), 0);

    pool.set_mapping_index(2).expect("position refused");
    assert_eq!(pool.mapping_index, 2);
    assert_eq!(pool.set_mapping_index(0).unwrap_err(), StakeError::CursorOutOfRange);
    assert_eq!(pool.set_mapping_index(3).unwrap_err(), StakeError::CursorOutOfRange);
    pool.set_rewards_mapping_index(2).expect("position refused");
    assert_eq!(pool.rewards_mapping_index, 2);

    pool.clear_validators();
    assert_eq!(pool.get_validators_count(), 0);
    // The cursors were clamped back with the registry.
    assert_eq!(pool.mapping_index, 1);
    assert_eq!(pool.rewards_mapping_index, 1);
}

#[test]
fn rewards_history_clearers() {
    let mut pool = StakePool::init();
    pool.push_validators(1);
    pool.get_rewards_admin(5).expect("step refused");
    pool.get_rewards_callback(5, Some(100));
    assert!(pool.rewards_info_started.contains(5));
    assert!(pool.rewards_info_finished.contains(5));
    assert_eq!(pool.rewards_amounts.get(5), Some(100));

    pool.clear_rewards_amounts();
    assert_eq!(pool.rewards_amounts.get(5), None);
    pool.clear_rewards_finished();
    assert!(!pool.rewards_info_finished.contains(5));
    pool.clear_rewards_started();
    assert!(!pool.rewards_info_started.contains(5));
}

#[test]
fn amount_records_report_in_insertion_order() {
    let mut pool = StakePool::init();
    pool.push_validators(1);

    for (epoch, value) in [(5u64, 50u128), (6, 60), (7, 70)] {
        pool.get_rewards_admin(epoch).expect("step refused");
        pool.get_rewards_callback(epoch, Some(value));
    }
    let rewards = pool.get_rewards_amounts();
    assert_eq!(rewards.len(), 3);
    assert_eq!(rewards[0].epoch, 5);
    assert_eq!(rewards[0].amount, 50);
    assert_eq!(rewards[2].epoch, 7);
    assert_eq!(rewards[2].amount, 70);

    let stakes = pool.get_stake_amounts();
    assert_eq!(stakes.len(), 0);
}

#[test]
fn delegate_admin_cycles_through_every_validator() {
    let mut pool = StakePool::init();
    pool.push_validators(10);
    pool.push_validators(20);
    pool.push_validators(30);

    let (validator, amount) = pool.delegate_admin(500).expect("refused");
    assert_eq!((validator, amount), (10, 500));
    assert_eq!(pool.mapping_index, 2);
    let (validator, _) = pool.delegate_admin(500).expect("refused");
    assert_eq!(validator, 20);
    assert_eq!(pool.mapping_index, 3);
    // The last validator is reached; only then does the cursor wrap.
    let (validator, _) = pool.delegate_admin(500).expect("refused");
    assert_eq!(validator, 30);
    assert_eq!(pool.mapping_index, 1);
    let (validator, _) = pool.delegate_admin(500).expect("refused");
    assert_eq!(validator, 10);
}
