//! The pool's endpoints: deposits and withdrawals, the four phase-advance
//! operations with their callbacks, and the rebalancing heuristic.
//!
//! Every phase operation is one step of a suspend-and-resume protocol: the
//! advance operation commits its state changes and hands the host a
//! [`StepHandle`] naming the outbound call to perform; the call's outcome
//! comes back later through the phase's callback, which folds it into the
//! books. A failed call contributes zero but still counts toward the cycle,
//! so one unreachable validator can never stall a phase.

use vstd::prelude::*;

use crate::amounts::lookup_or_zero;
use crate::amounts::removed;
use crate::amounts::updated;
use crate::callbacks::CallbacksModule;
use crate::helpers::advance_position;
use crate::helpers::advance_wraps;
use crate::helpers::revenue_cut;
use crate::helpers::HelpersModule;
use crate::maintenance::MaintenanceModule;
use crate::storage::PoolState;
use crate::storage::StakePool;
use crate::storage::StorageModule;
use crate::tokens::TokenAttributes;
use crate::tokens::TokenModule;
use crate::StakeError;

verus! {

/// The context a phase step carries from its advance operation to its
/// callback: the epoch being reconciled, the validator the outbound call
/// addresses, and the cursor position after the advance (position 1 marks
/// the step that wrapped, i.e. the cycle's last).
#[derive(Clone, Copy, Debug, PartialEq, Eq, Structural)]
pub struct StepHandle {
    pub epoch: u64,
    pub validator: u64,
    pub position: usize,
}

/// The single outbound action a rebalancing pass decides on.
#[derive(Clone, Copy, Debug, PartialEq, Eq, Structural)]
pub enum RebalanceAction {
    /// Delegate `amount` of the base asset to `validator`.
    Delegate { validator: u64, amount: u128 },
    /// Undelegate `amount` of the base asset from `validator`.
    Undelegate { validator: u64, amount: u128 },
}

/// The value a resolved call contributed: its payload on success, zero on
/// failure.
pub open spec fn resolved_amount(result: Option<u128>) -> int {
    match result {
        Some(v) => v as int,
        None => 0,
    }
}

/// An epoch's accumulated rewards total once `result` is folded in.
pub open spec fn rewards_total_after(s: PoolState, epoch: u64, result: Option<u128>) -> int {
    lookup_or_zero(s.rewards_amounts, epoch) + resolved_amount(result)
}

/// An epoch's accumulated stake total once `result` is folded in.
pub open spec fn stake_total_after(s: PoolState, epoch: u64, result: Option<u128>) -> int {
    lookup_or_zero(s.stake_amounts, epoch) + resolved_amount(result)
}

// ---------------------------------------------------------------------------
// The four phases' advance transitions.
// ---------------------------------------------------------------------------

/// Whether a stake query step may be issued for `epoch`: the rewards query
/// and redelegation cycles must have finished first, the cycle may not
/// already have completed this epoch, and the registry may not be empty.
pub open spec fn stake_admin_allowed(s: PoolState, epoch: u64) -> bool {
    &&& s.rewards_info_finished.contains(epoch)
    &&& s.redelegate_finished.contains(epoch)
    &&& !(s.stake_info_started.contains(epoch) && s.mapping_index == 1)
    &&& s.validators.len() >= 1
}

/// The pool once `epoch`'s stake query cycle is under way: the first step
/// of an epoch marks the cycle started and resets its cursor to 1.
pub open spec fn stake_admin_started(s: PoolState, epoch: u64) -> PoolState {
    if s.stake_info_started.contains(epoch) {
        s
    } else {
        PoolState {
            mapping_index: 1,
            stake_info_started: s.stake_info_started.insert(epoch),
            ..s
        }
    }
}

/// The validator a stake query step for `epoch` addresses.
pub open spec fn stake_admin_validator(s: PoolState, epoch: u64) -> u64 {
    let s1 = stake_admin_started(s, epoch);
    s1.validators[s1.mapping_index - 1]
}

/// The pool after a stake query step for `epoch`: the cycle is under way
/// and its cursor advanced, marking the cycle finished on a wrap.
pub open spec fn stake_admin_state(s: PoolState, epoch: u64) -> PoolState {
    let s1 = stake_admin_started(s, epoch);
    let n = s1.validators.len() as int;
    PoolState {
        mapping_index: advance_position(s1.mapping_index, n),
        stake_info_finished: if advance_wraps(s1.mapping_index, n) {
            s1.stake_info_finished.insert(epoch)
        } else {
            s1.stake_info_finished
        },
        ..s1
    }
}

/// Whether a rewards query step may be issued for `epoch`: the cycle may
/// not already have completed this epoch, and the registry may not be
/// empty. This phase has no predecessor.
pub open spec fn rewards_admin_allowed(s: PoolState, epoch: u64) -> bool {
    &&& !(s.rewards_info_started.contains(epoch) && s.rewards_mapping_index == 1)
    &&& s.validators.len() >= 1
}

/// The pool once `epoch`'s rewards query cycle is under way.
pub open spec fn rewards_admin_started(s: PoolState, epoch: u64) -> PoolState {
    if s.rewards_info_started.contains(epoch) {
        s
    } else {
        PoolState {
            rewards_mapping_index: 1,
            rewards_info_started: s.rewards_info_started.insert(epoch),
            ..s
        }
    }
}

/// The validator a rewards query step for `epoch` addresses.
pub open spec fn rewards_admin_validator(s: PoolState, epoch: u64) -> u64 {
    let s1 = rewards_admin_started(s, epoch);
    s1.validators[s1.rewards_mapping_index - 1]
}

/// The pool after a rewards query step for `epoch`.
pub open spec fn rewards_admin_state(s: PoolState, epoch: u64) -> PoolState {
    let s1 = rewards_admin_started(s, epoch);
    let n = s1.validators.len() as int;
    PoolState {
        rewards_mapping_index: advance_position(s1.rewards_mapping_index, n),
        rewards_info_finished: if advance_wraps(s1.rewards_mapping_index, n) {
            s1.rewards_info_finished.insert(epoch)
        } else {
            s1.rewards_info_finished
        },
        ..s1
    }
}

/// Whether a withdraw step may be issued for `epoch`: the cycle may not
/// already have completed this epoch, and the registry may not be empty.
/// This phase has no predecessor.
pub open spec fn withdraw_admin_allowed(s: PoolState, epoch: u64) -> bool {
    &&& !(s.withdraw_started.contains(epoch) && s.withdraw_mapping_index == 1)
    &&& s.validators.len() >= 1
}

/// The pool once `epoch`'s withdraw cycle is under way.
pub open spec fn withdraw_admin_started(s: PoolState, epoch: u64) -> PoolState {
    if s.withdraw_started.contains(epoch) {
        s
    } else {
        PoolState {
            withdraw_mapping_index: 1,
            withdraw_started: s.withdraw_started.insert(epoch),
            ..s
        }
    }
}

/// The validator a withdraw step for `epoch` addresses.
pub open spec fn withdraw_admin_validator(s: PoolState, epoch: u64) -> u64 {
    let s1 = withdraw_admin_started(s, epoch);
    s1.validators[s1.withdraw_mapping_index - 1]
}

/// The pool after a withdraw step for `epoch`: the cycle is under way and
/// its cursor advanced, marking the cycle finished on a wrap (the wrapping
/// step's callback marks it finished once more).
pub open spec fn withdraw_admin_state(s: PoolState, epoch: u64) -> PoolState {
    let s1 = withdraw_admin_started(s, epoch);
    let n = s1.validators.len() as int;
    PoolState {
        withdraw_mapping_index: advance_position(s1.withdraw_mapping_index, n),
        withdraw_finished: if advance_wraps(s1.withdraw_mapping_index, n) {
            s1.withdraw_finished.insert(epoch)
        } else {
            s1.withdraw_finished
        },
        ..s1
    }
}

/// Whether a redelegation step may be issued for `epoch`: the rewards query
/// cycle must have finished first, the cycle may not already have completed
/// this epoch, and the registry may not be empty.
pub open spec fn redelegate_admin_allowed(s: PoolState, epoch: u64) -> bool {
    &&& s.rewards_info_finished.contains(epoch)
    &&& !(s.redelegate_started.contains(epoch) && s.redelegate_mapping_index == 1)
    &&& s.validators.len() >= 1
}

/// The pool once `epoch`'s redelegation cycle is under way.
pub open spec fn redelegate_admin_started(s: PoolState, epoch: u64) -> PoolState {
    if s.redelegate_started.contains(epoch) {
        s
    } else {
        PoolState {
            redelegate_mapping_index: 1,
            redelegate_started: s.redelegate_started.insert(epoch),
            ..s
        }
    }
}

/// The validator a redelegation step for `epoch` addresses.
pub open spec fn redelegate_admin_validator(s: PoolState, epoch: u64) -> u64 {
    let s1 = redelegate_admin_started(s, epoch);
    s1.validators[s1.redelegate_mapping_index - 1]
}

/// The pool after a redelegation step for `epoch`: the cycle is under way
/// and its cursor advanced, marking the cycle finished on a wrap (the
/// wrapping step's callback marks it finished once more).
pub open spec fn redelegate_admin_state(s: PoolState, epoch: u64) -> PoolState {
    let s1 = redelegate_admin_started(s, epoch);
    let n = s1.validators.len() as int;
    PoolState {
        redelegate_mapping_index: advance_position(s1.redelegate_mapping_index, n),
        redelegate_finished: if advance_wraps(s1.redelegate_mapping_index, n) {
            s1.redelegate_finished.insert(epoch)
        } else {
            s1.redelegate_finished
        },
        ..s1
    }
}

// ---------------------------------------------------------------------------
// The callbacks' transitions.
// ---------------------------------------------------------------------------

/// The pool after a stake query step for `epoch` at `validator` resolves:
/// the contribution (zero on failure) is added to the epoch's accumulated
/// stake — recording the epoch even when nothing was added — and a
/// successful observation becomes the validator's last known stake.
pub open spec fn stake_resolved_state(
    s: PoolState,
    epoch: u64,
    validator: u64,
    result: Option<u128>,
) -> PoolState {
    let total = stake_total_after(s, epoch, result) as u128;
    match result {
        Some(value) => PoolState {
            stake_amounts: updated(s.stake_amounts, epoch, total),
            validator_stake: updated(s.validator_stake, validator, value),
            ..s
        },
        None => PoolState { stake_amounts: updated(s.stake_amounts, epoch, total), ..s },
    }
}

/// The pool after a rewards query step for `epoch` resolves: the
/// contribution (zero on failure) is added to the epoch's accumulated
/// rewards, and — on the cycle's last step, the one whose epoch is already
/// marked finished — the pool's fee on the full total is accrued as
/// protocol revenue.
pub open spec fn rewards_resolved_state(s: PoolState, epoch: u64, result: Option<u128>) -> PoolState {
    let total = rewards_total_after(s, epoch, result) as u128;
    let s1 = PoolState { rewards_amounts: updated(s.rewards_amounts, epoch, total), ..s };
    PoolState {
        protocol_revenue: if s1.rewards_info_finished.contains(epoch) {
            s1.protocol_revenue + revenue_cut(s1, epoch)
        } else {
            s1.protocol_revenue
        },
        ..s1
    }
}

// ---------------------------------------------------------------------------
// Deposits, withdrawals and the rebalancer.
// ---------------------------------------------------------------------------

/// How many claim tokens a deposit of `value` mints: the value at the
/// current rate, rounded toward zero.
pub open spec fn minted_for_stake(s: PoolState, value: u128) -> int {
    s.exchange_rate * value / s.exchange_rate_multiplier
}

/// How much of the base asset burning `payment` claim tokens releases:
/// the payment converted back through the rate, rounded toward zero.
pub open spec fn released_for_unstake(s: PoolState, payment: u128) -> int {
    payment as int / s.exchange_rate * s.exchange_rate_multiplier
}

/// The magnitude of a net delta.
pub open spec fn delta_magnitude(delta: int) -> int {
    if delta >= 0 {
        delta
    } else {
        -delta
    }
}

/// Position `i` holds the first entry with the smallest recorded stake.
pub open spec fn is_min_pos(s: Seq<(u64, u128)>, i: int) -> bool {
    &&& 0 <= i < s.len()
    &&& forall|j: int| 0 <= j < s.len() ==> s[i].1 <= #[trigger] s[j].1
    &&& forall|j: int| 0 <= j < i ==> #[trigger] s[j].1 > s[i].1
}

/// Position `i` holds the first entry with the largest recorded stake.
pub open spec fn is_max_pos(s: Seq<(u64, u128)>, i: int) -> bool {
    &&& 0 <= i < s.len()
    &&& forall|j: int| 0 <= j < s.len() ==> s[i].1 >= #[trigger] s[j].1
    &&& forall|j: int| 0 <= j < i ==> #[trigger] s[j].1 < s[i].1
}

/// The pool's command surface.
///
/// The host performs each outbound call a method hands back (a
/// [`StepHandle`], a [`RebalanceAction`], a minted amount) and reports the
/// asynchronous outcomes through the callbacks.
pub trait StakeContract:
    StorageModule + CallbacksModule + TokenModule + HelpersModule + MaintenanceModule
{
    /// A freshly deployed pool: empty registry and history, every cursor at
    /// position 1, and a unit exchange rate at the fixed-point scale.
    fn init() -> (r: Self)
        ensures
            r.pool() == PoolState::init(),
            r.pool().wf(),
    ;

    /// A deposit of `value` of the base asset: mints claim tokens at the
    /// current rate, adds them to the supply and adds the deposit to the
    /// net delta awaiting delegation. Returns how many claim tokens the
    /// host must now mint and send to the depositor. A deposit of zero is
    /// rejected unchanged.
    fn stake(&mut self, value: u128) -> (r: Result<u128, StakeError>)
        requires
            old(self).pool().wf(),
            value > 0 ==> {
                &&& old(self).pool().exchange_rate * value <= u128::MAX
                &&& old(self).pool().total_token_supply + minted_for_stake(old(self).pool(), value)
                    <= u128::MAX
                &&& value <= i128::MAX
                &&& old(self).pool().delta_stake + value <= i128::MAX
            },
        ensures
            match r {
                Ok(minted) => {
                    &&& value > 0
                    &&& minted == minted_for_stake(old(self).pool(), value)
                    &&& final(self).pool() == (PoolState {
                        total_token_supply: old(self).pool().total_token_supply + minted,
                        delta_stake: old(self).pool().delta_stake + value,
                        ..old(self).pool()
                    })
                },
                Err(e) => {
                    &&& e == StakeError::StakeValueMustBePositive
                    &&& value == 0
                    &&& final(self).pool() == old(self).pool()
                },
            },
            final(self).pool().wf(),
    ;

    /// A withdrawal: burns `payment` claim tokens (the host received them
    /// and burns them), removes them from the supply, subtracts the payment
    /// from the net delta, and returns how much of the base asset the
    /// withdrawal receipt must be created over, together with the receipt's
    /// attributes. A payment in any token but the claim token, or of zero,
    /// is rejected unchanged.
    fn unstake(&mut self, token: u64, payment: u128, current_epoch: u64) -> (r: Result<
        (u128, TokenAttributes),
        StakeError,
    >)
        requires
            old(self).pool().wf(),
            (old(self).pool().staked_egld_id == Some(token) && payment > 0) ==> {
                &&& payment <= old(self).pool().total_token_supply
                &&& payment <= i128::MAX
                &&& i128::MIN <= old(self).pool().delta_stake - payment
                &&& old(self).pool().exchange_rate > 0
                &&& released_for_unstake(old(self).pool(), payment) <= u128::MAX
            },
        ensures
            match r {
                Ok((released, attributes)) => {
                    &&& old(self).pool().staked_egld_id == Some(token)
                    &&& payment > 0
                    &&& released == released_for_unstake(old(self).pool(), payment)
                    &&& attributes == (TokenAttributes { epoch: current_epoch })
                    &&& final(self).pool() == (PoolState {
                        total_token_supply: old(self).pool().total_token_supply - payment,
                        delta_stake: old(self).pool().delta_stake - payment,
                        ..old(self).pool()
                    })
                },
                Err(e) => {
                    &&& final(self).pool() == old(self).pool()
                    &&& match e {
                        StakeError::InvalidToken => old(self).pool().staked_egld_id != Some(token),
                        StakeError::ZeroAmount => {
                            &&& old(self).pool().staked_egld_id == Some(token)
                            &&& payment == 0
                        },
                        _ => false,
                    }
                },
            },
            final(self).pool().wf(),
    ;

    /// A claim against a withdrawal receipt: pays the receipt's amount out
    /// once at least one full epoch has passed since the receipt was
    /// created, and otherwise pays nothing yet. Returns what the host must
    /// send. A payment in any token but the receipt token, or of zero, is
    /// rejected.
    fn claim(
        &self,
        token: u64,
        payment: u128,
        attributes: TokenAttributes,
        current_epoch: u64,
    ) -> (r: Result<Option<u128>, StakeError>)
        ensures
            match r {
                Ok(payout) => {
                    &&& self.pool().undelegated_token_id == Some(token)
                    &&& payment > 0
                    &&& payout == if attributes.epoch < current_epoch {
                        Some(payment)
                    } else {
                        None::<u128>
                    }
                },
                Err(e) => match e {
                    StakeError::InvalidToken => self.pool().undelegated_token_id != Some(token),
                    StakeError::ZeroAmount => {
                        &&& self.pool().undelegated_token_id == Some(token)
                        &&& payment == 0
                    },
                    _ => false,
                },
            },
    ;

    /// Appends a validator to the registry.
    fn push_validators(&mut self, address: u64)
        requires
            old(self).pool().wf(),
            old(self).pool().validators.len() < usize::MAX,
        ensures
            final(self).pool() == (PoolState {
                validators: old(self).pool().validators.push(address),
                ..old(self).pool()
            }),
            final(self).pool().wf(),
    ;

    /// Issues one step of `current_epoch`'s stake query cycle: checks the
    /// phase order (rewards query and redelegation must have finished
    /// first) and the once-per-epoch guard, marks the cycle started on its
    /// first step, advances the cursor — marking the cycle finished on the
    /// wrapping step — and hands back the validator whose active stake the
    /// host must now query. The outcome reports back through
    /// `get_stake_callback`. A rejected step changes nothing.
    fn get_stake_admin(&mut self, current_epoch: u64) -> (r: Result<StepHandle, StakeError>)
        requires
            old(self).pool().wf(),
        ensures
            match r {
                Ok(h) => {
                    &&& stake_admin_allowed(old(self).pool(), current_epoch)
                    &&& final(self).pool() == stake_admin_state(old(self).pool(), current_epoch)
                    &&& h.epoch == current_epoch
                    &&& h.validator == stake_admin_validator(old(self).pool(), current_epoch)
                    &&& h.position == stake_admin_state(old(self).pool(), current_epoch).mapping_index
                },
                Err(e) => {
                    &&& final(self).pool() == old(self).pool()
                    &&& match e {
                        StakeError::MustFetchRewardsFirst => !old(
                            self,
                        ).pool().rewards_info_finished.contains(current_epoch),
                        StakeError::MustRedelegateFirst => {
                            &&& old(self).pool().rewards_info_finished.contains(current_epoch)
                            &&& !old(self).pool().redelegate_finished.contains(current_epoch)
                        },
                        StakeError::AlreadyGotStakeThisEpoch => {
                            &&& old(self).pool().rewards_info_finished.contains(current_epoch)
                            &&& old(self).pool().redelegate_finished.contains(current_epoch)
                            &&& old(self).pool().stake_info_started.contains(current_epoch)
                            &&& old(self).pool().mapping_index == 1
                        },
                        StakeError::EmptyRegistry => {
                            &&& old(self).pool().rewards_info_finished.contains(current_epoch)
                            &&& old(self).pool().redelegate_finished.contains(current_epoch)
                            &&& !(old(self).pool().stake_info_started.contains(current_epoch)
                                && old(self).pool().mapping_index == 1)
                            &&& old(self).pool().validators.len() == 0
                        },
                        _ => false,
                    }
                },
            },
            final(self).pool().wf(),
    ;

    /// Resolves a stake query step: a successful result adds the queried
    /// stake to the epoch's accumulated total and becomes the validator's
    /// last known stake; a failure contributes zero. Either way the epoch's
    /// running total is (re)recorded, so the step counts.
    fn get_stake_callback(
        &mut self,
        current_epoch: u64,
        validator: u64,
        result: Option<u128>,
    )
        requires
            old(self).pool().wf(),
            stake_total_after(old(self).pool(), current_epoch, result) <= u128::MAX,
        ensures
            final(self).pool() == stake_resolved_state(
                old(self).pool(),
                current_epoch,
                validator,
                result,
            ),
            final(self).pool().wf(),
    ;

    /// Issues one step of `current_epoch`'s rewards query cycle: checks the
    /// once-per-epoch guard, marks the cycle started on its first step,
    /// advances the cursor — marking the cycle finished on the wrapping
    /// step — and hands back the validator whose claimable rewards the host
    /// must now query. The outcome reports back through
    /// `get_rewards_callback`. A rejected step changes nothing.
    fn get_rewards_admin(&mut self, current_epoch: u64) -> (r: Result<StepHandle, StakeError>)
        requires
            old(self).pool().wf(),
        ensures
            match r {
                Ok(h) => {
                    &&& rewards_admin_allowed(old(self).pool(), current_epoch)
                    &&& final(self).pool() == rewards_admin_state(old(self).pool(), current_epoch)
                    &&& h.epoch == current_epoch
                    &&& h.validator == rewards_admin_validator(old(self).pool(), current_epoch)
                    &&& h.position == rewards_admin_state(
                        old(self).pool(),
                        current_epoch,
                    ).rewards_mapping_index
                },
                Err(e) => {
                    &&& final(self).pool() == old(self).pool()
                    &&& match e {
                        StakeError::AlreadyGotRewardsThisEpoch => {
                            &&& old(self).pool().rewards_info_started.contains(current_epoch)
                            &&& old(self).pool().rewards_mapping_index == 1
                        },
                        StakeError::EmptyRegistry => {
                            &&& !(old(self).pool().rewards_info_started.contains(current_epoch)
                                && old(self).pool().rewards_mapping_index == 1)
                            &&& old(self).pool().validators.len() == 0
                        },
                        _ => false,
                    }
                },
            },
            final(self).pool().wf(),
    ;

    /// Resolves a rewards query step: the contribution (zero on failure) is
    /// added to the epoch's accumulated rewards, and the step that lands
    /// after the cycle finished — its last — accrues the pool's fee on the
    /// epoch's full total as protocol revenue.
    fn get_rewards_callback(&mut self, current_epoch: u64, result: Option<u128>)
        requires
            old(self).pool().wf(),
            rewards_total_after(old(self).pool(), current_epoch, result) <= u128::MAX,
            old(self).pool().rewards_info_finished.contains(current_epoch) ==> {
                &&& rewards_total_after(old(self).pool(), current_epoch, result)
                    * old(self).pool().service_fee <= u128::MAX
                &&& old(self).pool().protocol_revenue + rewards_total_after(
                    old(self).pool(),
                    current_epoch,
                    result,
                ) * old(self).pool().service_fee / 1000 <= u128::MAX
            },
        ensures
            final(self).pool() == rewards_resolved_state(old(self).pool(), current_epoch, result),
            final(self).pool().wf(),
    ;

    /// Resolves a direct delegation or undelegation: success means the
    /// outstanding imbalance was placed, so the net delta resets to zero;
    /// failure drops the validator's last known stake, so the next
    /// rebalancing pass picks a different extremum.
    fn delegation_callback(&mut self, current_epoch: u64, address: u64, result: Option<u128>)
        requires
            old(self).pool().wf(),
        ensures
            final(self).pool() == (match result {
                Some(_) => PoolState { delta_stake: 0, ..old(self).pool() },
                None => PoolState {
                    validator_stake: removed(old(self).pool().validator_stake, address),
                    ..old(self).pool()
                },
            }),
            final(self).pool().wf(),
    ;

    /// Hands out a delegation of `amount` to the validator under the stake
    /// query cursor and advances that cursor, wrapping back to position 1
    /// only after the registry's last validator. The host performs the
    /// delegate call. An empty registry is rejected unchanged.
    fn delegate_admin(&mut self, amount: u128) -> (r: Result<(u64, u128), StakeError>)
        requires
            old(self).pool().wf(),
        ensures
            match r {
                Ok((validator, handed)) => {
                    &&& old(self).pool().validators.len() >= 1
                    &&& validator == old(self).pool().validators[old(self).pool().mapping_index - 1]
                    &&& handed == amount
                    &&& final(self).pool() == (PoolState {
                        mapping_index: advance_position(
                            old(self).pool().mapping_index,
                            old(self).pool().validators.len() as int,
                        ),
                        ..old(self).pool()
                    })
                },
                Err(e) => {
                    &&& e == StakeError::EmptyRegistry
                    &&& old(self).pool().validators.len() == 0
                    &&& final(self).pool() == old(self).pool()
                },
            },
            final(self).pool().wf(),
    ;

    /// Issues one step of `current_epoch`'s redelegation cycle: checks that
    /// the rewards query finished first and the once-per-epoch guard, marks
    /// the cycle started on its first step, advances the cursor, and hands
    /// back the validator the host must now ask to redelegate its rewards,
    /// marking the cycle finished on the wrapping step (whose callback
    /// marks it finished once more). A rejected step changes nothing.
    #[allow(non_snake_case)]
    fn redelegateAdmin(&mut self, current_epoch: u64) -> (r: Result<StepHandle, StakeError>)
        requires
            old(self).pool().wf(),
        ensures
            match r {
                Ok(h) => {
                    &&& redelegate_admin_allowed(old(self).pool(), current_epoch)
                    &&& final(self).pool() == redelegate_admin_state(
                        old(self).pool(),
                        current_epoch,
                    )
                    &&& h.epoch == current_epoch
                    &&& h.validator == redelegate_admin_validator(old(self).pool(), current_epoch)
                    &&& h.position == redelegate_admin_state(
                        old(self).pool(),
                        current_epoch,
                    ).redelegate_mapping_index
                },
                Err(e) => {
                    &&& final(self).pool() == old(self).pool()
                    &&& match e {
                        StakeError::MustGetRewardsFirst => !old(
                            self,
                        ).pool().rewards_info_finished.contains(current_epoch),
                        StakeError::AlreadyRedelegated => {
                            &&& old(self).pool().rewards_info_finished.contains(current_epoch)
                            &&& old(self).pool().redelegate_started.contains(current_epoch)
                            &&& old(self).pool().redelegate_mapping_index == 1
                        },
                        StakeError::EmptyRegistry => {
                            &&& old(self).pool().rewards_info_finished.contains(current_epoch)
                            &&& !(old(self).pool().redelegate_started.contains(current_epoch)
                                && old(self).pool().redelegate_mapping_index == 1)
                            &&& old(self).pool().validators.len() == 0
                        },
                        _ => false,
                    }
                },
            },
            final(self).pool().wf(),
    ;

    /// Resolves a redelegation step. Its position marks the cycle's last
    /// step — the one that wrapped back to position 1 — and that step,
    /// however it resolved, finishes the cycle for the epoch.
    fn redelegate_callback(&mut self, current_epoch: u64, mapping_index: usize, result: Option<u128>)
        requires
            old(self).pool().wf(),
        ensures
            final(self).pool() == (PoolState {
                redelegate_finished: if mapping_index == 1 {
                    old(self).pool().redelegate_finished.insert(current_epoch)
                } else {
                    old(self).pool().redelegate_finished
                },
                ..old(self).pool()
            }),
            final(self).pool().wf(),
    ;

    /// Issues one step of `current_epoch`'s withdraw cycle: checks the
    /// once-per-epoch guard, marks the cycle started on its first step,
    /// advances the cursor, and hands back the validator the host must now
    /// ask to pay out matured withdrawals, marking the cycle finished on
    /// the wrapping step (whose callback marks it finished once more). A
    /// rejected step changes nothing.
    fn withdraw_admin(&mut self, current_epoch: u64) -> (r: Result<StepHandle, StakeError>)
        requires
            old(self).pool().wf(),
        ensures
            match r {
                Ok(h) => {
                    &&& withdraw_admin_allowed(old(self).pool(), current_epoch)
                    &&& final(self).pool() == withdraw_admin_state(old(self).pool(), current_epoch)
                    &&& h.epoch == current_epoch
                    &&& h.validator == withdraw_admin_validator(old(self).pool(), current_epoch)
                    &&& h.position == withdraw_admin_state(
                        old(self).pool(),
                        current_epoch,
                    ).withdraw_mapping_index
                },
                Err(e) => {
                    &&& final(self).pool() == old(self).pool()
                    &&& match e {
                        StakeError::AlreadyGotWithdrawThisEpoch => {
                            &&& old(self).pool().withdraw_started.contains(current_epoch)
                            &&& old(self).pool().withdraw_mapping_index == 1
                        },
                        StakeError::EmptyRegistry => {
                            &&& !(old(self).pool().withdraw_started.contains(current_epoch)
                                && old(self).pool().withdraw_mapping_index == 1)
                            &&& old(self).pool().validators.len() == 0
                        },
                        _ => false,
                    }
                },
            },
            final(self).pool().wf(),
    ;

    /// Resolves a withdraw step. Its position marks the cycle's last step —
    /// the one that wrapped back to position 1 — and that step, however it
    /// resolved, finishes the cycle for the epoch.
    fn withdraw_callback(&mut self, current_epoch: u64, mapping_index: usize, result: Option<u128>)
        requires
            old(self).pool().wf(),
        ensures
            final(self).pool() == (PoolState {
                withdraw_finished: if mapping_index == 1 {
                    old(self).pool().withdraw_finished.insert(current_epoch)
                } else {
                    old(self).pool().withdraw_finished
                },
                ..old(self).pool()
            }),
            final(self).pool().wf(),
    ;

    /// One rebalancing pass over the net delta: a positive delta is
    /// delegated to the validator with the smallest last known stake, a
    /// negative one undelegated from the validator with the largest (first
    /// entry on ties, in both cases), and a zero delta — or an empty stake
    /// record — decides nothing. The pass itself changes no state; the
    /// host performs the returned action and reports its outcome through
    /// `delegation_callback`.
    fn daily_delegation(&self) -> (r: Option<RebalanceAction>)
        ensures
            ({
                let s = self.pool().validator_stake;
                let d = self.pool().delta_stake;
                match r {
                    None => d == 0 || s.len() == 0,
                    Some(action) => match action {
                        RebalanceAction::Delegate { validator, amount } => {
                            &&& d > 0
                            &&& s.len() > 0
                            &&& amount == d
                            &&& exists|i: int| #[trigger] is_min_pos(s, i) && validator == s[i].0
                        },
                        RebalanceAction::Undelegate { validator, amount } => {
                            &&& d < 0
                            &&& s.len() > 0
                            &&& amount == delta_magnitude(d)
                            &&& exists|i: int| #[trigger] is_max_pos(s, i) && validator == s[i].0
                        },
                    },
                }
            }),
    ;
}

/// A phase may not start out of order: issuing a stake query step requires
/// the rewards query and redelegation cycles finished for the epoch, and
/// issuing a redelegation step requires the rewards query cycle finished —
/// by the endpoints' contracts, a step attempted earlier is rejected with
/// the pool unchanged.
pub proof fn lemma_phase_order_required(s: PoolState, epoch: u64)
    ensures
        stake_admin_allowed(s, epoch) ==> s.rewards_info_finished.contains(epoch)
            && s.redelegate_finished.contains(epoch),
        redelegate_admin_allowed(s, epoch) ==> s.rewards_info_finished.contains(epoch),
{
}

/// The tracker's discipline, as a state predicate: a finished cycle was
/// started, an epoch's redelegation cycle only ever starts after its
/// rewards query cycle finished, and its stake query cycle only after both
/// rewards query and redelegation finished.
pub open spec fn phase_order_holds(s: PoolState) -> bool {
    &&& forall|e: u64|
        #[trigger] s.stake_info_finished.contains(e) ==> s.stake_info_started.contains(e)
    &&& forall|e: u64|
        #[trigger] s.rewards_info_finished.contains(e) ==> s.rewards_info_started.contains(e)
    &&& forall|e: u64|
        #[trigger] s.withdraw_finished.contains(e) ==> s.withdraw_started.contains(e)
    &&& forall|e: u64|
        #[trigger] s.redelegate_finished.contains(e) ==> s.redelegate_started.contains(e)
    &&& forall|e: u64|
        #[trigger] s.redelegate_started.contains(e) ==> s.rewards_info_finished.contains(e)
    &&& forall|e: u64|
        #[trigger] s.stake_info_started.contains(e) ==> s.rewards_info_finished.contains(e)
            && s.redelegate_finished.contains(e)
}

/// Every allowed phase step keeps the tracker's discipline, and so does
/// folding in a resolved result: a pool driven through these transitions
/// alone never reaches a state whose markers contradict the phase order.
/// (The redelegation and withdraw resolutions only re-mark the finish of
/// the wrapping step their handle names, which the matching advance
/// already marked.)
pub proof fn lemma_phase_order_preserved(s: PoolState, epoch: u64)
    requires
        phase_order_holds(s),
    ensures
        stake_admin_allowed(s, epoch) ==> phase_order_holds(stake_admin_state(s, epoch)),
        rewards_admin_allowed(s, epoch) ==> phase_order_holds(rewards_admin_state(s, epoch)),
        withdraw_admin_allowed(s, epoch) ==> phase_order_holds(withdraw_admin_state(s, epoch)),
        redelegate_admin_allowed(s, epoch) ==> phase_order_holds(redelegate_admin_state(s, epoch)),
        forall|validator: u64, result: Option<u128>|
            phase_order_holds(#[trigger] stake_resolved_state(s, epoch, validator, result)),
        forall|result: Option<u128>|
            phase_order_holds(#[trigger] rewards_resolved_state(s, epoch, result)),
{
    if stake_admin_allowed(s, epoch) {
        let t = stake_admin_state(s, epoch);
        assert forall|e: u64| #[trigger] t.stake_info_started.contains(e)
            implies t.rewards_info_finished.contains(e) && t.redelegate_finished.contains(e) by {
            if e != epoch {
                assert(s.stake_info_started.contains(e));
            }
        }
        assert forall|e: u64| #[trigger] t.stake_info_finished.contains(e)
            implies t.stake_info_started.contains(e) by {
            if e != epoch {
                assert(s.stake_info_finished.contains(e));
            }
        }
    }
    if rewards_admin_allowed(s, epoch) {
        let t = rewards_admin_state(s, epoch);
        assert forall|e: u64| #[trigger] t.rewards_info_finished.contains(e)
            implies t.rewards_info_started.contains(e) by {
            if e != epoch {
                assert(s.rewards_info_finished.contains(e));
            }
        }
    }
    if withdraw_admin_allowed(s, epoch) {
        let t = withdraw_admin_state(s, epoch);
        assert forall|e: u64| #[trigger] t.withdraw_finished.contains(e)
            implies t.withdraw_started.contains(e) by {
            if e != epoch {
                assert(s.withdraw_finished.contains(e));
            }
        }
    }
    if redelegate_admin_allowed(s, epoch) {
        let t = redelegate_admin_state(s, epoch);
        assert forall|e: u64| #[trigger] t.redelegate_started.contains(e)
            implies t.rewards_info_finished.contains(e) by {
            if e != epoch {
                assert(s.redelegate_started.contains(e));
            }
        }
        assert forall|e: u64| #[trigger] t.redelegate_finished.contains(e)
            implies t.redelegate_started.contains(e) by {
            if e != epoch {
                assert(s.redelegate_finished.contains(e));
            }
        }
    }
}

/// The pool after `k` advances of `epoch`'s rewards query cycle.
pub open spec fn rewards_steps(s: PoolState, epoch: u64, k: nat) -> PoolState
    decreases k,
{
    if k == 0 {
        s
    } else {
        rewards_admin_state(rewards_steps(s, epoch, (k - 1) as nat), epoch)
    }
}

/// A phase's cycle completes after exactly as many advances as the registry
/// holds, shown on the rewards query cycle (the phase with no
/// predecessor): over `n` validators, a fresh epoch admits its `k`-th
/// advance for every `k <= n`, stands at cursor position `k` afterwards for
/// `k < n`, is finished exactly after the `n`-th advance, and refuses an
/// `(n+1)`-th. How each step's outbound call resolved plays no part: the
/// callbacks' contracts leave cursor and cycle markers unchanged. The other
/// three phases advance their cursors through the same
/// [`advance_position`]/[`advance_wraps`] arithmetic.
pub proof fn lemma_rewards_cycle_completes(s: PoolState, epoch: u64, k: nat)
    requires
        s.wf(),
        !s.rewards_info_started.contains(epoch),
        !s.rewards_info_finished.contains(epoch),
        1 <= s.validators.len(),
        k <= s.validators.len(),
    ensures
        ({
            let t = rewards_steps(s, epoch, k);
            let n = s.validators.len() as int;
            &&& t.validators == s.validators
            &&& k >= 1 ==> t.rewards_info_started.contains(epoch)
                && t.rewards_mapping_index == crate::helpers::position_after(n, k)
            &&& (t.rewards_info_finished.contains(epoch) <==> k == n)
            &&& 1 <= k < n ==> rewards_admin_allowed(t, epoch)
            &&& k == n ==> !rewards_admin_allowed(t, epoch)
        }),
    decreases k,
{
    let n = s.validators.len() as int;
    if k >= 1 {
        lemma_rewards_cycle_completes(s, epoch, (k - 1) as nat);
        crate::helpers::lemma_cycle_length(n, k);
        let prev = rewards_steps(s, epoch, (k - 1) as nat);
        let s1 = rewards_admin_started(prev, epoch);
        assert(s1.rewards_mapping_index == crate::helpers::position_after(n, (k - 1) as nat));
    }
}

impl StakeContract for StakePool {
    fn init() -> (r: Self) {
        let r = StakePool {
            validators: Vec::new(),
            validator_stake_amount: crate::amounts::AmountMap::new(),
            stake_amounts: crate::amounts::AmountMap::new(),
            rewards_amounts: crate::amounts::AmountMap::new(),
            stake_info_started: crate::amounts::EpochSet::new(),
            stake_info_finished: crate::amounts::EpochSet::new(),
            rewards_info_started: crate::amounts::EpochSet::new(),
            rewards_info_finished: crate::amounts::EpochSet::new(),
            withdraw_started: crate::amounts::EpochSet::new(),
            withdraw_finished: crate::amounts::EpochSet::new(),
            redelegate_started: crate::amounts::EpochSet::new(),
            redelegate_finished: crate::amounts::EpochSet::new(),
            exchange_rate_update_finished: crate::amounts::EpochSet::new(),
            mapping_index: 1,
            rewards_mapping_index: 1,
            withdraw_mapping_index: 1,
            redelegate_mapping_index: 1,
            total_token_supply: 0,
            total_staked: 0,
            delta_stake: 0,
            exchange_rate: 1,
            exchange_rate_multiplier: crate::storage::EXCHANGE_RATE_SCALE,
            protocol_revenue: 0,
            service_fee: 0,
            staked_egld_id: None,
            undelegated_token_id: None,
        };
        proof {
            assert(r.pool() =~= PoolState::init());
        }
        r
    }

    fn stake(&mut self, value: u128) -> (r: Result<u128, StakeError>) {
        if value == 0 {
            return Err(StakeError::StakeValueMustBePositive);
        }

        let exchange_rate = self.exchange_rate;
        let exchange_rate_multiplier = self.exchange_rate_multiplier;
        let st_egld_amount = exchange_rate * value / exchange_rate_multiplier;

        let current_total_supply = self.total_token_supply;
        let current_delta_stake = self.delta_stake;

        self.total_token_supply = current_total_supply + st_egld_amount;
        self.delta_stake = current_delta_stake + value as i128;
        Ok(st_egld_amount)
    }

    fn unstake(&mut self, token: u64, payment: u128, current_epoch: u64) -> (r: Result<
        (u128, TokenAttributes),
        StakeError,
    >) {
        let st_egld_id = match self.staked_egld_id {
            Some(id) => id,
            None => {
                return Err(StakeError::InvalidToken);
            },
        };
        if token != st_egld_id {
            return Err(StakeError::InvalidToken);
        }
        if payment == 0 {
            return Err(StakeError::ZeroAmount);
        }

        let current_total_supply = self.total_token_supply;
        let current_delta_stake = self.delta_stake;

        self.total_token_supply = current_total_supply - payment;
        self.delta_stake = current_delta_stake - payment as i128;

        let exchange_rate = self.exchange_rate;
        let exchange_rate_multiplier = self.exchange_rate_multiplier;

        let attr = TokenAttributes { epoch: current_epoch };
        Ok((payment / exchange_rate * exchange_rate_multiplier, attr))
    }

    fn claim(
        &self,
        token: u64,
        payment: u128,
        attributes: TokenAttributes,
        current_epoch: u64,
    ) -> (r: Result<Option<u128>, StakeError>) {
        let undelegated_token = match self.undelegated_token_id {
            Some(id) => id,
            None => {
                return Err(StakeError::InvalidToken);
            },
        };
        if token != undelegated_token {
            return Err(StakeError::InvalidToken);
        }
        if payment == 0 {
            return Err(StakeError::ZeroAmount);
        }

        if attributes.epoch < current_epoch {
            Ok(Some(payment))
        } else {
            Ok(None)
        }
    }

    fn push_validators(&mut self, address: u64) {
        self.validators.push(address);
    }

    fn get_stake_admin(&mut self, current_epoch: u64) -> (r: Result<StepHandle, StakeError>) {
        let rewards_fetched = self.rewards_info_finished.contains(current_epoch);
        if !rewards_fetched {
            return Err(StakeError::MustFetchRewardsFirst);
        }
        let redelegate_done = self.redelegate_finished.contains(current_epoch);
        if !redelegate_done {
            return Err(StakeError::MustRedelegateFirst);
        }

        let epoch_exists = self.stake_info_started.contains(current_epoch);
        if epoch_exists && self.mapping_index == 1 {
            return Err(StakeError::AlreadyGotStakeThisEpoch);
        }
        if self.validators.len() == 0 {
            return Err(StakeError::EmptyRegistry);
        }

        if !epoch_exists {
            self.mapping_index = 1;
            self.stake_info_started.insert(current_epoch);
        }
        proof {
            assert(self.pool() == stake_admin_started(old(self).pool(), current_epoch));
        }

        let mapping_index = self.mapping_index;
        let wanted_address = self.validators[mapping_index - 1];

        self.increment_index(current_epoch);
        proof {
            assert(self.pool() =~= stake_admin_state(old(self).pool(), current_epoch));
        }

        Ok(StepHandle {
            epoch: current_epoch,
            validator: wanted_address,
            position: self.mapping_index,
        })
    }

    fn get_stake_callback(
        &mut self,
        current_epoch: u64,
        validator: u64,
        result: Option<u128>,
    ) {
        let old_value = self.stake_amounts.get(current_epoch);
        let prev = match old_value {
            Some(n) => n,
            None => 0,
        };

        match result {
            Some(value) => {
                self.stake_amounts.insert(current_epoch, prev + value);
                self.validator_stake_amount.insert(validator, value);
            },
            None => {
                self.stake_amounts.insert(current_epoch, prev);
            },
        }
    }

    fn get_rewards_admin(&mut self, current_epoch: u64) -> (r: Result<StepHandle, StakeError>) {
        let epoch_exists = self.rewards_info_started.contains(current_epoch);
        if epoch_exists && self.rewards_mapping_index == 1 {
            return Err(StakeError::AlreadyGotRewardsThisEpoch);
        }
        if self.validators.len() == 0 {
            return Err(StakeError::EmptyRegistry);
        }

        if !epoch_exists {
            self.rewards_mapping_index = 1;
            self.rewards_info_started.insert(current_epoch);
        }
        proof {
            assert(self.pool() == rewards_admin_started(old(self).pool(), current_epoch));
        }

        let mapping_index = self.rewards_mapping_index;
        let wanted_address = self.validators[mapping_index - 1];

        self.increment_index_rewards(current_epoch);
        proof {
            assert(self.pool() =~= rewards_admin_state(old(self).pool(), current_epoch));
        }

        Ok(StepHandle {
            epoch: current_epoch,
            validator: wanted_address,
            position: self.rewards_mapping_index,
        })
    }

    fn get_rewards_callback(&mut self, current_epoch: u64, result: Option<u128>) {
        let old_value = self.rewards_amounts.get(current_epoch);
        let prev = match old_value {
            Some(n) => n,
            None => 0,
        };
        let added = match result {
            Some(value) => value,
            None => 0,
        };

        self.rewards_amounts.insert(current_epoch, prev + added);
        proof {
            crate::amounts::lemma_lookup_after_update(
                old(self).pool().rewards_amounts,
                current_epoch,
                (prev + added) as u128,
            );
        }
        self.update_protocol_revenue(current_epoch);
    }

    fn delegation_callback(&mut self, _current_epoch: u64, address: u64, result: Option<u128>) {
        match result {
            Some(_) => {
                self.delta_stake = 0;
            },
            None => {
                self.validator_stake_amount.remove(address);
            },
        }
    }

    fn delegate_admin(&mut self, amount: u128) -> (r: Result<(u64, u128), StakeError>) {
        if self.validators.len() == 0 {
            return Err(StakeError::EmptyRegistry);
        }

        let mapping_index = self.mapping_index;
        let wanted_address = self.validators[mapping_index - 1];

        if mapping_index >= self.validators.len() {
            self.mapping_index = 1;
        } else {
            self.mapping_index = mapping_index + 1;
        }

        Ok((wanted_address, amount))
    }

    #[allow(non_snake_case)]
    fn redelegateAdmin(&mut self, current_epoch: u64) -> (r: Result<StepHandle, StakeError>) {
        let is_rewards_info_finished = self.rewards_info_finished.contains(current_epoch);
        if !is_rewards_info_finished {
            return Err(StakeError::MustGetRewardsFirst);
        }

        let epoch_exists = self.redelegate_started.contains(current_epoch);
        if epoch_exists && self.redelegate_mapping_index == 1 {
            return Err(StakeError::AlreadyRedelegated);
        }
        if self.validators.len() == 0 {
            return Err(StakeError::EmptyRegistry);
        }

        if !epoch_exists {
            self.redelegate_mapping_index = 1;
            self.redelegate_started.insert(current_epoch);
        }
        proof {
            assert(self.pool() == redelegate_admin_started(old(self).pool(), current_epoch));
        }

        let mapping_index = self.redelegate_mapping_index;
        let wanted_address = self.validators[mapping_index - 1];

        self.increment_index_redelegate(current_epoch);
        proof {
            assert(self.pool() =~= redelegate_admin_state(old(self).pool(), current_epoch));
        }

        Ok(StepHandle {
            epoch: current_epoch,
            validator: wanted_address,
            position: self.redelegate_mapping_index,
        })
    }

    fn redelegate_callback(
        &mut self,
        current_epoch: u64,
        mapping_index: usize,
        _result: Option<u128>,
    ) {
        if mapping_index == 1 {
            self.redelegate_finished.insert(current_epoch);
        }
    }

    fn withdraw_admin(&mut self, current_epoch: u64) -> (r: Result<StepHandle, StakeError>) {
        let epoch_exists = self.withdraw_started.contains(current_epoch);
        if epoch_exists && self.withdraw_mapping_index == 1 {
            return Err(StakeError::AlreadyGotWithdrawThisEpoch);
        }
        if self.validators.len() == 0 {
            return Err(StakeError::EmptyRegistry);
        }

        if !epoch_exists {
            self.withdraw_mapping_index = 1;
            self.withdraw_started.insert(current_epoch);
        }
        proof {
            assert(self.pool() == withdraw_admin_started(old(self).pool(), current_epoch));
        }

        let mapping_index = self.withdraw_mapping_index;
        let wanted_address = self.validators[mapping_index - 1];

        self.increment_index_withdraw(current_epoch);
        proof {
            assert(self.pool() =~= withdraw_admin_state(old(self).pool(), current_epoch));
        }

        Ok(StepHandle {
            epoch: current_epoch,
            validator: wanted_address,
            position: self.withdraw_mapping_index,
        })
    }

    fn withdraw_callback(
        &mut self,
        current_epoch: u64,
        mapping_index: usize,
        _result: Option<u128>,
    ) {
        if mapping_index == 1 {
            self.withdraw_finished.insert(current_epoch);
        }
    }

    fn daily_delegation(&self) -> (r: Option<RebalanceAction>) {
        let n = self.validator_stake_amount.len();
        let delta_stake = self.delta_stake;

        if delta_stake == 0 || n == 0 {
            return None;
        }

        if delta_stake > 0 {
            // Find the smallest recorded stake.
            let mut smallest = self.validator_stake_amount.entry_at(0).1;
            proof {
                assert(self.pool().validator_stake[0].1 == smallest);
            }
            let mut i: usize = 1;
            while i < n
                invariant
                    n == self.pool().validator_stake.len(),
                    1 <= i <= n,
                    exists|j: int|
                        0 <= j < i && #[trigger] self.pool().validator_stake[j].1 == smallest,
                    forall|j: int|
                        0 <= j < i ==> #[trigger] self.pool().validator_stake[j].1 >= smallest,
                decreases n - i,
            {
                let value = self.validator_stake_amount.entry_at(i).1;
                if value < smallest {
                    smallest = value;
                }
                i += 1;
            }

            // Delegate the surplus to the first validator holding it.
            let mut k: usize = 0;
            while k < n
                invariant
                    n == self.pool().validator_stake.len(),
                    0 <= k <= n,
                    delta_stake == self.pool().delta_stake,
                    delta_stake > 0,
                    exists|j: int|
                        0 <= j < n && #[trigger] self.pool().validator_stake[j].1 == smallest,
                    forall|j: int|
                        0 <= j < n ==> #[trigger] self.pool().validator_stake[j].1 >= smallest,
                    forall|j: int|
                        0 <= j < k ==> #[trigger] self.pool().validator_stake[j].1 != smallest,
                decreases n - k,
            {
                let entry = self.validator_stake_amount.entry_at(k);
                if entry.1 == smallest {
                    proof {
                        assert(is_min_pos(self.pool().validator_stake, k as int));
                    }
                    return Some(RebalanceAction::Delegate {
                        validator: entry.0,
                        amount: delta_stake as u128,
                    });
                }
                k += 1;
            }
            proof {
                assert(false);
            }
            None
        } else {
            // Find the largest recorded stake.
            let mut biggest = self.validator_stake_amount.entry_at(0).1;
            proof {
                assert(self.pool().validator_stake[0].1 == biggest);
            }
            let mut i: usize = 1;
            while i < n
                invariant
                    n == self.pool().validator_stake.len(),
                    1 <= i <= n,
                    exists|j: int|
                        0 <= j < i && #[trigger] self.pool().validator_stake[j].1 == biggest,
                    forall|j: int|
                        0 <= j < i ==> #[trigger] self.pool().validator_stake[j].1 <= biggest,
                decreases n - i,
            {
                let value = self.validator_stake_amount.entry_at(i).1;
                if value > biggest {
                    biggest = value;
                }
                i += 1;
            }

            let magnitude: u128 = if delta_stake == i128::MIN {
                170141183460469231731687303715884105728u128
            } else {
                (-delta_stake) as u128
            };

            // Undelegate the shortfall from the first validator holding the
            // largest stake.
            let mut k: usize = 0;
            while k < n
                invariant
                    n == self.pool().validator_stake.len(),
                    0 <= k <= n,
                    delta_stake == self.pool().delta_stake,
                    delta_stake < 0,
                    magnitude == delta_magnitude(self.pool().delta_stake),
                    exists|j: int|
                        0 <= j < n && #[trigger] self.pool().validator_stake[j].1 == biggest,
                    forall|j: int|
                        0 <= j < n ==> #[trigger] self.pool().validator_stake[j].1 <= biggest,
                    forall|j: int|
                        0 <= j < k ==> #[trigger] self.pool().validator_stake[j].1 != biggest,
                decreases n - k,
            {
                let entry = self.validator_stake_amount.entry_at(k);
                if entry.1 == biggest {
                    proof {
                        assert(is_max_pos(self.pool().validator_stake, k as int));
                    }
                    return Some(RebalanceAction::Undelegate {
                        validator: entry.0,
                        amount: magnitude,
                    });
                }
                k += 1;
            }
            proof {
                assert(false);
            }
            None
        }
    }
}

} // verus!
