//! The pool's persistent state, its mathematical model, and the owner's
//! storage endpoints.

use vstd::prelude::*;

use crate::amounts::AmountMap;
use crate::amounts::EpochSet;
use crate::amounts::unique_keys;
use crate::amounts::updated;
use crate::StakeError;

verus! {

/// One epoch's recorded stake figure.
#[derive(Clone, Copy, Debug, PartialEq, Eq, Structural)]
pub struct StakeAmount {
    pub epoch: u64,
    pub amount: u128,
}

/// One epoch's recorded rewards figure.
#[derive(Clone, Copy, Debug, PartialEq, Eq, Structural)]
pub struct RewardsAmount {
    pub epoch: u64,
    pub amount: u128,
}

/// The fixed-point scale of the exchange rate: rates carry eighteen decimals.
pub const EXCHANGE_RATE_SCALE: u128 = 1000000000000000000;

/// The highest position a cursor may take over a registry of `n` validators:
/// positions are 1-based, and an empty registry still pins every cursor at 1.
pub open spec fn cursor_bound(n: int) -> int {
    if n < 1 {
        1
    } else {
        n
    }
}

/// The mathematical model of the whole pool.
///
/// Amount lists are sequences of `(key, amount)` entries in insertion order
/// (see [`crate::amounts`]); phase markers are sets of epoch numbers; every
/// scalar is an unbounded integer, bounded again by [`PoolState::wf`].
#[verifier::ext_equal]
pub struct PoolState {
    /// The registry: validator identities in registration order.
    pub validators: Seq<u64>,
    /// Each validator's last observed stake, in registration-of-entry order.
    pub validator_stake: Seq<(u64, u128)>,
    /// Accumulated queried stake, by epoch.
    pub stake_amounts: Seq<(u64, u128)>,
    /// Accumulated queried rewards, by epoch.
    pub rewards_amounts: Seq<(u64, u128)>,
    /// Epochs whose stake query cycle has started.
    pub stake_info_started: Set<u64>,
    /// Epochs whose stake query cycle has finished.
    pub stake_info_finished: Set<u64>,
    /// Epochs whose rewards query cycle has started.
    pub rewards_info_started: Set<u64>,
    /// Epochs whose rewards query cycle has finished.
    pub rewards_info_finished: Set<u64>,
    /// Epochs whose withdraw cycle has started.
    pub withdraw_started: Set<u64>,
    /// Epochs whose withdraw cycle has finished.
    pub withdraw_finished: Set<u64>,
    /// Epochs whose redelegation cycle has started.
    pub redelegate_started: Set<u64>,
    /// Epochs whose redelegation cycle has finished.
    pub redelegate_finished: Set<u64>,
    /// Epochs whose exchange rate has been updated.
    pub exchange_rate_update_finished: Set<u64>,
    /// The stake query cursor, 1-based.
    pub mapping_index: int,
    /// The rewards query cursor, 1-based.
    pub rewards_mapping_index: int,
    /// The withdraw cursor, 1-based.
    pub withdraw_mapping_index: int,
    /// The redelegation cursor, 1-based.
    pub redelegate_mapping_index: int,
    /// Outstanding claim tokens.
    pub total_token_supply: int,
    /// The owner's record of funds already delegated.
    pub total_staked: int,
    /// Net deposits (positive) or withdrawals (negative) not yet rebalanced.
    pub delta_stake: int,
    /// The claim token redemption rate, scaled by the fixed-point multiplier.
    pub exchange_rate: int,
    /// The fixed-point scale the exchange rate is quoted in.
    pub exchange_rate_multiplier: int,
    /// The pool's accrued cut of harvested rewards, in the base asset.
    pub protocol_revenue: int,
    /// The pool's fee on rewards, in parts per thousand.
    pub service_fee: int,
    /// The claim token's identity, once issued.
    pub staked_egld_id: Option<u64>,
    /// The withdrawal receipt token's identity, once issued.
    pub undelegated_token_id: Option<u64>,
}

impl PoolState {
    /// Structural well-formedness: cursors stay 1-based and within the
    /// registry, amount lists keep distinct keys, and every scalar fits the
    /// machine word that carries it.
    pub open spec fn wf(self) -> bool {
        &&& 1 <= self.mapping_index <= cursor_bound(self.validators.len() as int)
        &&& 1 <= self.rewards_mapping_index <= cursor_bound(self.validators.len() as int)
        &&& 1 <= self.withdraw_mapping_index <= cursor_bound(self.validators.len() as int)
        &&& 1 <= self.redelegate_mapping_index <= cursor_bound(self.validators.len() as int)
        &&& self.validators.len() <= usize::MAX
        &&& unique_keys(self.validator_stake)
        &&& unique_keys(self.stake_amounts)
        &&& unique_keys(self.rewards_amounts)
        &&& 0 <= self.total_token_supply <= u128::MAX
        &&& 0 <= self.total_staked <= u128::MAX
        &&& i128::MIN <= self.delta_stake <= i128::MAX
        &&& 0 <= self.exchange_rate <= u128::MAX
        &&& 1 <= self.exchange_rate_multiplier <= u128::MAX
        &&& 0 <= self.protocol_revenue <= u128::MAX
        &&& 0 <= self.service_fee <= u128::MAX
    }

    /// The state a freshly deployed pool starts in: empty registry and
    /// history, all cursors at 1, a unit exchange rate at the fixed-point
    /// scale, and no tokens issued.
    pub open spec fn init() -> PoolState {
        PoolState {
            validators: Seq::empty(),
            validator_stake: Seq::empty(),
            stake_amounts: Seq::empty(),
            rewards_amounts: Seq::empty(),
            stake_info_started: Set::empty(),
            stake_info_finished: Set::empty(),
            rewards_info_started: Set::empty(),
            rewards_info_finished: Set::empty(),
            withdraw_started: Set::empty(),
            withdraw_finished: Set::empty(),
            redelegate_started: Set::empty(),
            redelegate_finished: Set::empty(),
            exchange_rate_update_finished: Set::empty(),
            mapping_index: 1,
            rewards_mapping_index: 1,
            withdraw_mapping_index: 1,
            redelegate_mapping_index: 1,
            total_token_supply: 0,
            total_staked: 0,
            delta_stake: 0,
            exchange_rate: 1,
            exchange_rate_multiplier: EXCHANGE_RATE_SCALE as int,
            protocol_revenue: 0,
            service_fee: 0,
            staked_egld_id: None,
            undelegated_token_id: None,
        }
    }
}

/// The pool's persistent state, one field per storage slot.
pub struct StakePool {
    pub validators: Vec<u64>,
    pub validator_stake_amount: AmountMap,
    pub stake_amounts: AmountMap,
    pub rewards_amounts: AmountMap,
    pub stake_info_started: EpochSet,
    pub stake_info_finished: EpochSet,
    pub rewards_info_started: EpochSet,
    pub rewards_info_finished: EpochSet,
    pub withdraw_started: EpochSet,
    pub withdraw_finished: EpochSet,
    pub redelegate_started: EpochSet,
    pub redelegate_finished: EpochSet,
    pub exchange_rate_update_finished: EpochSet,
    pub mapping_index: usize,
    pub rewards_mapping_index: usize,
    pub withdraw_mapping_index: usize,
    pub redelegate_mapping_index: usize,
    pub total_token_supply: u128,
    pub total_staked: u128,
    pub delta_stake: i128,
    pub exchange_rate: u128,
    pub exchange_rate_multiplier: u128,
    pub protocol_revenue: u128,
    pub service_fee: u128,
    pub staked_egld_id: Option<u64>,
    pub undelegated_token_id: Option<u64>,
}

/// Access to the pool's stored state: its model, and the owner's storage
/// endpoints.
pub trait StorageModule: Sized {
    /// The mathematical model of the stored state.
    spec fn pool(&self) -> PoolState;

    /// How many validators the registry holds.
    fn get_validators_count(&self) -> (r: usize)
        ensures
            r == self.pool().validators.len(),
    ;

    /// Records `amount` as `validator`'s last observed stake.
    fn set_validator_stake_amount(&mut self, validator: u64, amount: u128)
        requires
            old(self).pool().wf(),
        ensures
            final(self).pool() == (PoolState {
                validator_stake: updated(old(self).pool().validator_stake, validator, amount),
                ..old(self).pool()
            }),
            final(self).pool().wf(),
    ;

    /// Sets the pool's fee on rewards, in parts per thousand.
    fn set_service_fee(&mut self, amount: u128)
        requires
            old(self).pool().wf(),
        ensures
            final(self).pool() == (PoolState { service_fee: amount as int, ..old(self).pool() }),
            final(self).pool().wf(),
    ;

    /// Moves the stake query cursor; positions outside `1 ..= registry size`
    /// are rejected, and an empty registry admits only position 1.
    fn set_mapping_index(&mut self, index: usize) -> (r: Result<(), StakeError>)
        requires
            old(self).pool().wf(),
        ensures
            match r {
                Ok(()) => {
                    &&& 1 <= index <= cursor_bound(old(self).pool().validators.len() as int)
                    &&& final(self).pool() == (PoolState {
                        mapping_index: index as int,
                        ..old(self).pool()
                    })
                },
                Err(e) => {
                    &&& e == StakeError::CursorOutOfRange
                    &&& !(1 <= index <= cursor_bound(old(self).pool().validators.len() as int))
                    &&& final(self).pool() == old(self).pool()
                },
            },
            final(self).pool().wf(),
    ;

    /// Moves the rewards query cursor, with the same bounds check.
    fn set_rewards_mapping_index(&mut self, index: usize) -> (r: Result<(), StakeError>)
        requires
            old(self).pool().wf(),
        ensures
            match r {
                Ok(()) => {
                    &&& 1 <= index <= cursor_bound(old(self).pool().validators.len() as int)
                    &&& final(self).pool() == (PoolState {
                        rewards_mapping_index: index as int,
                        ..old(self).pool()
                    })
                },
                Err(e) => {
                    &&& e == StakeError::CursorOutOfRange
                    &&& !(1 <= index <= cursor_bound(old(self).pool().validators.len() as int))
                    &&& final(self).pool() == old(self).pool()
                },
            },
            final(self).pool().wf(),
    ;

    /// Sets the net unrebalanced delta directly.
    fn set_delta_stake(&mut self, amount: i128)
        requires
            old(self).pool().wf(),
        ensures
            final(self).pool() == (PoolState { delta_stake: amount as int, ..old(self).pool() }),
            final(self).pool().wf(),
    ;

    /// Sets the owner's record of already delegated funds.
    fn set_total_staked(&mut self, amount: u128)
        requires
            old(self).pool().wf(),
        ensures
            final(self).pool() == (PoolState { total_staked: amount as int, ..old(self).pool() }),
            final(self).pool().wf(),
    ;

    /// Forgets every epoch's accumulated rewards figure.
    fn clear_rewards_amounts(&mut self)
        requires
            old(self).pool().wf(),
        ensures
            final(self).pool() == (PoolState {
                rewards_amounts: Seq::empty(),
                ..old(self).pool()
            }),
            final(self).pool().wf(),
    ;

    /// Forgets which epochs finished their rewards query cycle.
    fn clear_rewards_finished(&mut self)
        requires
            old(self).pool().wf(),
        ensures
            final(self).pool() == (PoolState {
                rewards_info_finished: Set::empty(),
                ..old(self).pool()
            }),
            final(self).pool().wf(),
    ;

    /// Forgets which epochs started their rewards query cycle.
    fn clear_rewards_started(&mut self)
        requires
            old(self).pool().wf(),
        ensures
            final(self).pool() == (PoolState {
                rewards_info_started: Set::empty(),
                ..old(self).pool()
            }),
            final(self).pool().wf(),
    ;

    /// Forgets every validator's last observed stake.
    fn clear_validator_stake_amounts(&mut self)
        requires
            old(self).pool().wf(),
        ensures
            final(self).pool() == (PoolState {
                validator_stake: Seq::empty(),
                ..old(self).pool()
            }),
            final(self).pool().wf(),
    ;

    /// Empties the registry. The four cursors are clamped back to position 1,
    /// the only position a shrunken registry still admits.
    fn clear_validators(&mut self)
        requires
            old(self).pool().wf(),
        ensures
            final(self).pool() == (PoolState {
                validators: Seq::empty(),
                mapping_index: 1,
                rewards_mapping_index: 1,
                withdraw_mapping_index: 1,
                redelegate_mapping_index: 1,
                ..old(self).pool()
            }),
            final(self).pool().wf(),
    ;
}

impl StorageModule for StakePool {
    open spec fn pool(&self) -> PoolState {
        PoolState {
            validators: self.validators@,
            validator_stake: self.validator_stake_amount@,
            stake_amounts: self.stake_amounts@,
            rewards_amounts: self.rewards_amounts@,
            stake_info_started: self.stake_info_started@,
            stake_info_finished: self.stake_info_finished@,
            rewards_info_started: self.rewards_info_started@,
            rewards_info_finished: self.rewards_info_finished@,
            withdraw_started: self.withdraw_started@,
            withdraw_finished: self.withdraw_finished@,
            redelegate_started: self.redelegate_started@,
            redelegate_finished: self.redelegate_finished@,
            exchange_rate_update_finished: self.exchange_rate_update_finished@,
            mapping_index: self.mapping_index as int,
            rewards_mapping_index: self.rewards_mapping_index as int,
            withdraw_mapping_index: self.withdraw_mapping_index as int,
            redelegate_mapping_index: self.redelegate_mapping_index as int,
            total_token_supply: self.total_token_supply as int,
            total_staked: self.total_staked as int,
            delta_stake: self.delta_stake as int,
            exchange_rate: self.exchange_rate as int,
            exchange_rate_multiplier: self.exchange_rate_multiplier as int,
            protocol_revenue: self.protocol_revenue as int,
            service_fee: self.service_fee as int,
            staked_egld_id: self.staked_egld_id,
            undelegated_token_id: self.undelegated_token_id,
        }
    }

    fn get_validators_count(&self) -> (r: usize) {
        self.validators.len()
    }

    fn set_validator_stake_amount(&mut self, validator: u64, amount: u128) {
        self.validator_stake_amount.insert(validator, amount);
    }

    fn set_service_fee(&mut self, amount: u128) {
        self.service_fee = amount;
    }

    fn set_mapping_index(&mut self, index: usize) -> (r: Result<(), StakeError>) {
        let bound = if self.validators.len() < 1 { 1 } else { self.validators.len() };
        if index < 1 || index > bound {
            return Err(StakeError::CursorOutOfRange);
        }
        self.mapping_index = index;
        Ok(())
    }

    fn set_rewards_mapping_index(&mut self, index: usize) -> (r: Result<(), StakeError>) {
        let bound = if self.validators.len() < 1 { 1 } else { self.validators.len() };
        if index < 1 || index > bound {
            return Err(StakeError::CursorOutOfRange);
        }
        self.rewards_mapping_index = index;
        Ok(())
    }

    fn set_delta_stake(&mut self, amount: i128) {
        self.delta_stake = amount;
    }

    fn set_total_staked(&mut self, amount: u128) {
        self.total_staked = amount;
    }

    fn clear_rewards_amounts(&mut self) {
        self.rewards_amounts.clear();
    }

    fn clear_rewards_finished(&mut self) {
        self.rewards_info_finished.clear();
    }

    fn clear_rewards_started(&mut self) {
        self.rewards_info_started.clear();
    }

    fn clear_validator_stake_amounts(&mut self) {
        self.validator_stake_amount.clear();
    }

    fn clear_validators(&mut self) {
        self.validators.clear();
        self.mapping_index = 1;
        self.rewards_mapping_index = 1;
        self.withdraw_mapping_index = 1;
        self.redelegate_mapping_index = 1;
    }
}

impl StakePool {
    /// Every epoch's accumulated stake figure, in insertion order.
    pub fn get_stake_amounts(&self) -> (r: Vec<StakeAmount>)
        ensures
            r@.len() == self.pool().stake_amounts.len(),
            forall|i: int| 0 <= i < r@.len() ==> r@[i] == (StakeAmount {
                epoch: self.pool().stake_amounts[i].0,
                amount: self.pool().stake_amounts[i].1,
            }),
    {
        let n = self.stake_amounts.len();
        let mut r: Vec<StakeAmount> = Vec::new();
        let mut i: usize = 0;
        while i < n
            invariant
                n == self.stake_amounts@.len(),
                i <= n,
                r@.len() == i,
                forall|j: int| 0 <= j < i ==> r@[j] == (StakeAmount {
                    epoch: self.stake_amounts@[j].0,
                    amount: self.stake_amounts@[j].1,
                }),
            decreases n - i,
        {
            let entry = self.stake_amounts.entry_at(i);
            r.push(StakeAmount { epoch: entry.0, amount: entry.1 });
            i += 1;
        }
        r
    }

    /// Every epoch's accumulated rewards figure, in insertion order.
    pub fn get_rewards_amounts(&self) -> (r: Vec<RewardsAmount>)
        ensures
            r@.len() == self.pool().rewards_amounts.len(),
            forall|i: int| 0 <= i < r@.len() ==> r@[i] == (RewardsAmount {
                epoch: self.pool().rewards_amounts[i].0,
                amount: self.pool().rewards_amounts[i].1,
            }),
    {
        let n = self.rewards_amounts.len();
        let mut r: Vec<RewardsAmount> = Vec::new();
        let mut i: usize = 0;
        while i < n
            invariant
                n == self.rewards_amounts@.len(),
                i <= n,
                r@.len() == i,
                forall|j: int| 0 <= j < i ==> r@[j] == (RewardsAmount {
                    epoch: self.rewards_amounts@[j].0,
                    amount: self.rewards_amounts@[j].1,
                }),
            decreases n - i,
        {
            let entry = self.rewards_amounts.entry_at(i);
            r.push(RewardsAmount { epoch: entry.0, amount: entry.1 });
            i += 1;
        }
        r
    }
}

} // verus!
