//! The round-robin cursor protocol: one advance per triggering call, a wrap
//! back to position 1 after the last validator, and the finish marker each
//! wrap leaves behind; together with the rewards-fee accrual they trigger.

use vstd::prelude::*;

use crate::amounts::lookup_or_zero;
use crate::storage::PoolState;
use crate::storage::StakePool;
use crate::storage::StorageModule;

verus! {

/// Whether a cursor at `position` wraps when advanced over a registry of
/// `n` validators: it does exactly when no position beyond it is left.
pub open spec fn advance_wraps(position: int, n: int) -> bool {
    position >= n
}

/// The cursor position after one advance over a registry of `n` validators.
pub open spec fn advance_position(position: int, n: int) -> int {
    if advance_wraps(position, n) {
        1
    } else {
        position + 1
    }
}

/// The cursor position after `k` advances from position 1 over a registry of
/// `n` validators.
pub open spec fn position_after(n: int, k: nat) -> int
    decreases k,
{
    if k == 0 {
        1
    } else {
        advance_position(position_after(n, (k - 1) as nat), n)
    }
}

/// A cursor started at position 1 over `n >= 1` validators visits position
/// `k` on its `k`-th advance and wraps on that advance exactly when `k == n`:
/// a phase's cycle completes after precisely as many advances as the registry
/// held when the phase started — and after no fewer, however each step's
/// outbound call resolved, since resolution never moves a cursor.
pub proof fn lemma_cycle_length(n: int, k: nat)
    requires
        1 <= n,
        1 <= k <= n,
    ensures
        position_after(n, (k - 1) as nat) == k,
        advance_wraps(position_after(n, (k - 1) as nat), n) <==> k == n,
    decreases k,
{
    if k > 1 {
        lemma_cycle_length(n, (k - 1) as nat);
    }
}

/// The share of an epoch's accumulated rewards owed to the pool: its service
/// fee is quoted in parts per thousand.
pub open spec fn revenue_cut(s: PoolState, epoch: u64) -> int {
    lookup_or_zero(s.rewards_amounts, epoch) * s.service_fee / 1000
}

/// The per-phase cursor steps, and the revenue accrual the rewards cycle
/// triggers when it completes.
pub trait HelpersModule: StorageModule {
    /// Advances the stake query cursor; on a wrap, marks the epoch's stake
    /// query cycle finished.
    fn increment_index(&mut self, current_epoch: u64)
        requires
            old(self).pool().wf(),
        ensures
            final(self).pool() == (PoolState {
                mapping_index: advance_position(
                    old(self).pool().mapping_index,
                    old(self).pool().validators.len() as int,
                ),
                stake_info_finished: if advance_wraps(
                    old(self).pool().mapping_index,
                    old(self).pool().validators.len() as int,
                ) {
                    old(self).pool().stake_info_finished.insert(current_epoch)
                } else {
                    old(self).pool().stake_info_finished
                },
                ..old(self).pool()
            }),
            final(self).pool().wf(),
    ;

    /// Advances the rewards query cursor; on a wrap, marks the epoch's
    /// rewards query cycle finished.
    fn increment_index_rewards(&mut self, current_epoch: u64)
        requires
            old(self).pool().wf(),
        ensures
            final(self).pool() == (PoolState {
                rewards_mapping_index: advance_position(
                    old(self).pool().rewards_mapping_index,
                    old(self).pool().validators.len() as int,
                ),
                rewards_info_finished: if advance_wraps(
                    old(self).pool().rewards_mapping_index,
                    old(self).pool().validators.len() as int,
                ) {
                    old(self).pool().rewards_info_finished.insert(current_epoch)
                } else {
                    old(self).pool().rewards_info_finished
                },
                ..old(self).pool()
            }),
            final(self).pool().wf(),
    ;

    /// Advances the withdraw cursor; on a wrap, marks the epoch's withdraw
    /// cycle finished.
    fn increment_index_withdraw(&mut self, current_epoch: u64)
        requires
            old(self).pool().wf(),
        ensures
            final(self).pool() == (PoolState {
                withdraw_mapping_index: advance_position(
                    old(self).pool().withdraw_mapping_index,
                    old(self).pool().validators.len() as int,
                ),
                withdraw_finished: if advance_wraps(
                    old(self).pool().withdraw_mapping_index,
                    old(self).pool().validators.len() as int,
                ) {
                    old(self).pool().withdraw_finished.insert(current_epoch)
                } else {
                    old(self).pool().withdraw_finished
                },
                ..old(self).pool()
            }),
            final(self).pool().wf(),
    ;

    /// Advances the redelegation cursor; on a wrap, marks the epoch's
    /// redelegation cycle finished.
    fn increment_index_redelegate(&mut self, current_epoch: u64)
        requires
            old(self).pool().wf(),
        ensures
            final(self).pool() == (PoolState {
                redelegate_mapping_index: advance_position(
                    old(self).pool().redelegate_mapping_index,
                    old(self).pool().validators.len() as int,
                ),
                redelegate_finished: if advance_wraps(
                    old(self).pool().redelegate_mapping_index,
                    old(self).pool().validators.len() as int,
                ) {
                    old(self).pool().redelegate_finished.insert(current_epoch)
                } else {
                    old(self).pool().redelegate_finished
                },
                ..old(self).pool()
            }),
            final(self).pool().wf(),
    ;

    /// Once `epoch`'s rewards query cycle has finished, accrues the pool's
    /// cut of that epoch's accumulated rewards; before that, does nothing.
    fn update_protocol_revenue(&mut self, epoch: u64)
        requires
            old(self).pool().wf(),
            old(self).pool().rewards_info_finished.contains(epoch) ==> {
                &&& lookup_or_zero(old(self).pool().rewards_amounts, epoch)
                    * old(self).pool().service_fee <= u128::MAX
                &&& old(self).pool().protocol_revenue + revenue_cut(old(self).pool(), epoch)
                    <= u128::MAX
            },
        ensures
            final(self).pool() == (PoolState {
                protocol_revenue: if old(self).pool().rewards_info_finished.contains(epoch) {
                    old(self).pool().protocol_revenue + revenue_cut(old(self).pool(), epoch)
                } else {
                    old(self).pool().protocol_revenue
                },
                ..old(self).pool()
            }),
            final(self).pool().wf(),
    ;
}

impl HelpersModule for StakePool {
    fn increment_index(&mut self, current_epoch: u64) {
        let mapping_index = self.mapping_index;
        if mapping_index >= self.validators.len() {
            self.mapping_index = 1;
            self.stake_info_finished.insert(current_epoch);
        } else {
            self.mapping_index = mapping_index + 1;
        }
    }

    fn increment_index_rewards(&mut self, current_epoch: u64) {
        let mapping_index = self.rewards_mapping_index;
        if mapping_index >= self.validators.len() {
            self.rewards_mapping_index = 1;
            self.rewards_info_finished.insert(current_epoch);
        } else {
            self.rewards_mapping_index = mapping_index + 1;
        }
    }

    fn increment_index_withdraw(&mut self, current_epoch: u64) {
        let mapping_index = self.withdraw_mapping_index;
        if mapping_index >= self.validators.len() {
            self.withdraw_mapping_index = 1;
            self.withdraw_finished.insert(current_epoch);
        } else {
            self.withdraw_mapping_index = mapping_index + 1;
        }
    }

    fn increment_index_redelegate(&mut self, current_epoch: u64) {
        let mapping_index = self.redelegate_mapping_index;
        if mapping_index >= self.validators.len() {
            self.redelegate_mapping_index = 1;
            self.redelegate_finished.insert(current_epoch);
        } else {
            self.redelegate_mapping_index = mapping_index + 1;
        }
    }

    fn update_protocol_revenue(&mut self, epoch: u64) {
        if self.rewards_info_finished.contains(epoch) {
            let rewards_value = self.rewards_amounts.get(epoch);
            let protocol_fee = self.service_fee;
            let value = match rewards_value {
                Some(n) => n,
                None => 0,
            };
            self.protocol_revenue = self.protocol_revenue + value * protocol_fee / 1000;
        }
    }
}

} // verus!
