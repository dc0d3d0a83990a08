//! The rebalancing heuristic: extremum selection, idempotence on a zero
//! delta, and how resolutions fold back into the books.

use liquid_staking::contract::RebalanceAction;
use liquid_staking::contract::StakeContract;
use liquid_staking::storage::StakePool;
use liquid_staking::storage::StorageModule;

fn pool_with_stakes(stakes: &[(u64, u128)]) -> StakePool {
    let mut pool = StakePool::init();
    for &(validator, amount) in stakes {
        pool.push_validators(validator);
        pool.set_validator_stake_amount(validator, amount);
    }
    pool
}

#[test]
fn zero_delta_issues_nothing() {
    let mut pool = pool_with_stakes(&[(1, 10), (2, 30), (3, 20)]);
    pool.delta_stake = 0;
    assert_eq!(pool.daily_delegation(), None);
}

#[test]
fn positive_delta_delegates_to_minimum() {
    // Validators {A: 10, B: 30, C: 20} with delta +15: delegate 15 to A.
    let mut pool = pool_with_stakes(&[(100, 10), (200, 30), (300, 20)]);
    pool.delta_stake = 15;
    assert_eq!(
        pool.daily_delegation(),
        Some(RebalanceAction::Delegate { validator: 100, amount: 15 })
    );
}

#[test]
fn negative_delta_undelegates_from_maximum() {
    // Validators {A: 10, B: 30, C: 20} with delta -15: undelegate 15 from B.
    let mut pool = pool_with_stakes(&[(100, 10), (200, 30), (300, 20)]);
    pool.delta_stake = -15;
    assert_eq!(
        pool.daily_delegation(),
        Some(RebalanceAction::Undelegate { validator: 200, amount: 15 })
    );
}

#[test]
fn ties_pick_the_first_entry() {
    let mut pool = pool_with_stakes(&[(7, 20), (8, 5), (9, 5), (10, 20)]);
    pool.delta_stake = 3;
    assert_eq!(pool.daily_delegation(), Some(RebalanceAction::Delegate { validator: 8, amount: 3 }));
    pool.delta_stake = -3;
    assert_eq!(
        pool.daily_delegation(),
        Some(RebalanceAction::Undelegate { validator: 7, amount: 3 })
    );
}

#[test]
fn empty_stake_record_issues_nothing() {
    let mut pool = StakePool::init();
    pool.delta_stake = 42;
    assert_eq!(pool.daily_delegation(), None);
}

#[test]
fn successful_resolution_resets_delta() {
    let mut pool = pool_with_stakes(&[(1, 10), (2, 30)]);
    pool.delta_stake = 15;
    let action = pool.daily_delegation().expect("no action issued");
    assert_eq!(action, RebalanceAction::Delegate { validator: 1, amount: 15 });

    pool.delegation_callback(0, 1, Some(15));
    assert_eq!(pool.delta_stake, 0);
    assert_eq!(pool.daily_delegation(), None);
}

#[test]
fn failed_resolution_drops_the_validator() {
    let mut pool = pool_with_stakes(&[(1, 10), (2, 30), (3, 20)]);
    pool.delta_stake = 15;

    // The first pass picks validator 1; its call fails.
    pool.delegation_callback(0, 1, None);
    assert_eq!(pool.validator_stake_amount.get(1), None);
    assert_eq!(pool.delta_stake, 15);

    // The next pass picks a different extremum.
    assert_eq!(
        pool.daily_delegation(),
        Some(RebalanceAction::Delegate { validator: 3, amount: 15 })
    );
}
