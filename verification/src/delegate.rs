//! The outbound interface to a validator's delegation contract.
//!
//! The pool never performs these calls itself: the host implements this
//! trait over its transport and invokes it with the validator and amounts
//! the phase operations hand out. Each call resolves later, exactly once,
//! with success or failure, and its outcome re-enters the pool only through
//! the matching callback — so this crate states no contract here: nothing
//! the pool proves may depend on how a validator behaves.

use vstd::prelude::*;

verus! {

/// One validator's delegation endpoints, as the host's transport offers
/// them. Every method names the validator the call is addressed to.
pub trait Delegate {
    /// Delegates `amount` of the base asset to `validator`.
    fn delegate(&mut self, validator: u64, amount: u128);

    /// Undelegates `amount` of the base asset from `validator`.
    fn un_delegate(&mut self, validator: u64, amount: u128);

    /// Asks `validator` to redelegate the rewards it holds for the pool.
    fn re_delegate_rewards(&mut self, validator: u64);

    /// Queries the pool's active stake at `validator`.
    fn get_user_active_stake(&mut self, validator: u64);

    /// Queries the pool's claimable rewards at `validator`.
    fn get_claimable_rewards(&mut self, validator: u64);

    /// Asks `validator` to pay out funds whose unbonding has elapsed.
    fn withdraw(&mut self, validator: u64);
}

} // verus!
