//! The exchange-rate engine: the once-per-epoch rate update, and the
//! distribution of the pool's accrued revenue.

use vstd::prelude::*;

use crate::amounts::lookup_or_zero;
use crate::storage::PoolState;
use crate::storage::StakePool;
use crate::storage::StorageModule;
use crate::StakeError;

verus! {

/// The claim token redemption rate: a pure function of the outstanding
/// supply, the accumulated stake total and the fixed-point scale,
/// `supply * multiplier / max(stake_total, 1)`, rounded toward zero. A
/// stake total of zero is replaced by 1 so that the rate stays defined
/// (if very large) rather than blocking the epoch's update forever.
pub open spec fn compute_exchange_rate(supply: int, stake_total: int, multiplier: int) -> int {
    supply * multiplier / (if stake_total > 0 {
        stake_total
    } else {
        1
    })
}

/// Whether `epoch`'s exchange rate may be updated: never twice, and only
/// once the stake query, rewards query and withdraw cycles have all
/// finished for that epoch.
pub open spec fn update_rate_allowed(s: PoolState, epoch: u64) -> bool {
    &&& !s.exchange_rate_update_finished.contains(epoch)
    &&& s.stake_info_finished.contains(epoch)
    &&& s.rewards_info_finished.contains(epoch)
    &&& s.withdraw_finished.contains(epoch)
}

/// The pool after `epoch`'s exchange rate update: the rate is recomputed
/// from the epoch's accumulated stake and the update is marked done.
pub open spec fn rate_updated_state(s: PoolState, epoch: u64) -> PoolState {
    PoolState {
        exchange_rate: compute_exchange_rate(
            s.total_token_supply,
            lookup_or_zero(s.stake_amounts, epoch) as int,
            s.exchange_rate_multiplier,
        ),
        exchange_rate_update_finished: s.exchange_rate_update_finished.insert(epoch),
        ..s
    }
}

/// The stake total that divides `epoch`'s rate computation: the epoch's
/// accumulated figure, with zero (or nothing accumulated) replaced by 1.
pub open spec fn rate_divisor(s: PoolState, epoch: u64) -> int {
    let stake = lookup_or_zero(s.stake_amounts, epoch) as int;
    if stake > 0 {
        stake
    } else {
        1
    }
}

/// Whether the machine word can carry `epoch`'s new exchange rate: the rate
/// itself must fit, and so must the one partial product the computation
/// forms — the supply's remainder against the divisor, times the scale. The
/// computation splits the supply against the divisor first, so the full
/// product `supply * scale` never has to fit.
pub open spec fn rate_fits(s: PoolState, epoch: u64) -> bool {
    let d = rate_divisor(s, epoch);
    &&& (s.total_token_supply % d) * s.exchange_rate_multiplier <= u128::MAX
    &&& compute_exchange_rate(
        s.total_token_supply,
        lookup_or_zero(s.stake_amounts, epoch) as int,
        s.exchange_rate_multiplier,
    ) <= u128::MAX
}

/// What distributing the accrued revenue mints: the revenue converted into
/// claim tokens at the current rate, rounded toward zero.
pub open spec fn minted_revenue(s: PoolState) -> int {
    s.protocol_revenue * s.exchange_rate / s.exchange_rate_multiplier
}

/// An epoch's exchange rate moves at most once: after an update for `epoch`
/// goes through, a second attempt for the same epoch is no longer allowed —
/// and by [`MaintenanceModule::update_exchange_rate`]'s contract a
/// disallowed attempt is rejected with the pool unchanged.
pub proof fn lemma_rate_update_once(s: PoolState, epoch: u64)
    ensures
        !update_rate_allowed(rate_updated_state(s, epoch), epoch),
{
    assert(rate_updated_state(s, epoch).exchange_rate_update_finished.contains(epoch));
}

/// The pool's periodic maintenance: rate updates and revenue distribution.
pub trait MaintenanceModule: StorageModule {
    /// Converts the accrued protocol revenue into claim tokens at the
    /// current exchange rate and resets the accrual; returns the amount the
    /// host must now mint for the owner, already added to the recorded
    /// supply so the books never disagree with the tokens outstanding.
    fn distribute_protocol_revenue(&mut self) -> (r: u128)
        requires
            old(self).pool().wf(),
            old(self).pool().protocol_revenue * old(self).pool().exchange_rate <= u128::MAX,
            old(self).pool().total_token_supply + minted_revenue(old(self).pool()) <= u128::MAX,
        ensures
            r == minted_revenue(old(self).pool()),
            final(self).pool() == (PoolState {
                total_token_supply: old(self).pool().total_token_supply
                    + minted_revenue(old(self).pool()),
                protocol_revenue: 0,
                ..old(self).pool()
            }),
            final(self).pool().wf(),
    ;

    /// Updates `current_epoch`'s exchange rate, at most once per epoch and
    /// only after the stake query, rewards query and withdraw cycles have
    /// all finished for it; a rejected attempt changes nothing.
    fn update_exchange_rate(&mut self, current_epoch: u64) -> (r: Result<(), StakeError>)
        requires
            old(self).pool().wf(),
            update_rate_allowed(old(self).pool(), current_epoch) ==> rate_fits(
                old(self).pool(),
                current_epoch,
            ),
        ensures
            match r {
                Ok(()) => {
                    &&& update_rate_allowed(old(self).pool(), current_epoch)
                    &&& final(self).pool() == rate_updated_state(old(self).pool(), current_epoch)
                },
                Err(e) => {
                    &&& final(self).pool() == old(self).pool()
                    &&& match e {
                        StakeError::RateAlreadyUpdated => old(
                            self,
                        ).pool().exchange_rate_update_finished.contains(current_epoch),
                        StakeError::OperationsNotFinished => {
                            &&& !old(self).pool().exchange_rate_update_finished.contains(
                                current_epoch,
                            )
                            &&& !(old(self).pool().stake_info_finished.contains(current_epoch)
                                && old(self).pool().rewards_info_finished.contains(current_epoch)
                                && old(self).pool().withdraw_finished.contains(current_epoch))
                        },
                        _ => false,
                    }
                },
            },
            final(self).pool().wf(),
    ;
}

impl MaintenanceModule for StakePool {
    fn distribute_protocol_revenue(&mut self) -> (r: u128) {
        let protocol_revenue = self.protocol_revenue;
        let exchange_rate = self.exchange_rate;
        let exchange_rate_multiplier = self.exchange_rate_multiplier;

        let amount_to_send = protocol_revenue * exchange_rate / exchange_rate_multiplier;
        let current_total_supply = self.total_token_supply;

        self.total_token_supply = current_total_supply + amount_to_send;
        self.protocol_revenue = 0;
        amount_to_send
    }

    fn update_exchange_rate(&mut self, current_epoch: u64) -> (r: Result<(), StakeError>) {
        let already_updated = self.exchange_rate_update_finished.contains(current_epoch);
        if already_updated {
            return Err(StakeError::RateAlreadyUpdated);
        }

        let stake_info_finished = self.stake_info_finished.contains(current_epoch);
        let rewards_info_finished = self.rewards_info_finished.contains(current_epoch);
        let withdraw_finished = self.withdraw_finished.contains(current_epoch);

        if !(stake_info_finished && rewards_info_finished && withdraw_finished) {
            return Err(StakeError::OperationsNotFinished);
        }

        let stake_value = self.stake_amounts.get(current_epoch);
        let total_token_supply = self.total_token_supply;
        let exchange_rate_multiplier = self.exchange_rate_multiplier;

        let divisor = match stake_value {
            Some(n) => if n > 0 {
                n
            } else {
                1
            },
            None => 1,
        };

        // supply * scale / divisor, split so that only the remainder's
        // product must fit the machine word: with s == d*q + r this is
        // q * scale + (r * scale) / d exactly, integer division throughout.
        let quotient = total_token_supply / divisor;
        let remainder = total_token_supply % divisor;
        proof {
            let s = total_token_supply as int;
            let d = divisor as int;
            let m = exchange_rate_multiplier as int;
            let q = s / d;
            let rem = s % d;
            vstd::arithmetic::div_mod::lemma_fundamental_div_mod(s, d);
            assert(rem * m + (q * m) * d == s * m) by (nonlinear_arith)
                requires
                    s == d * q + rem,
            ;
            vstd::arithmetic::div_mod::lemma_hoist_over_denominator(rem * m, q * m, d as nat);
            assert(q * m + (rem * m) / d == s * m / d);
            vstd::arithmetic::div_mod::lemma_div_pos_is_pos(rem * m, d);
        }
        self.exchange_rate = quotient * exchange_rate_multiplier
            + remainder * exchange_rate_multiplier / divisor;

        self.exchange_rate_update_finished.insert(current_epoch);
        Ok(())
    }
}

} // verus!
