//! Accounting and reconciliation core of a liquid-staking pool.
//!
//! Users deposit a base asset and receive a proportional claim token. The
//! pool delegates its funds to a rotating set of validators, harvests their
//! yield once per accounting period ("epoch"), and adjusts the claim token's
//! redemption rate from the accumulated figures. This crate holds the
//! epoch-phased reconciliation state machine, the fixed-point exchange-rate
//! engine and the rebalancing heuristic, each with a verified contract.
//! Token transport (minting, sending, the asynchronous calls to validators)
//! is left to the surrounding host, which drives the state machine through
//! the phase-advance operations and feeds every call's outcome back through
//! the matching callback.

use vstd::prelude::*;

pub mod amounts;
pub mod callbacks;
pub mod contract;
pub mod delegate;
pub mod helpers;
pub mod maintenance;
pub mod storage;
pub mod tokens;

verus! {

/// Why an operation was rejected. Every rejection leaves the pool unchanged.
#[derive(Clone, Copy, Debug, PartialEq, Eq, Structural)]
pub enum StakeError {
    /// A deposit of zero was offered.
    StakeValueMustBePositive,
    /// The payment's token is not the one this operation expects.
    InvalidToken,
    /// A payment of zero was offered.
    ZeroAmount,
    /// The rewards query cycle has not finished for this epoch yet.
    MustFetchRewardsFirst,
    /// The rewards query cycle has not finished yet, so redelegation may
    /// not start.
    MustGetRewardsFirst,
    /// The redelegation cycle has not finished for this epoch yet.
    MustRedelegateFirst,
    /// The stake query cycle already ran for this epoch.
    AlreadyGotStakeThisEpoch,
    /// The rewards query cycle already ran for this epoch.
    AlreadyGotRewardsThisEpoch,
    /// The withdraw cycle already ran for this epoch.
    AlreadyGotWithdrawThisEpoch,
    /// The redelegation cycle already ran for this epoch.
    AlreadyRedelegated,
    /// The exchange rate was already updated for this epoch.
    RateAlreadyUpdated,
    /// A phase still has to finish before the exchange rate may move.
    OperationsNotFinished,
    /// The claim token exists already.
    TokenAlreadyIssued,
    /// The claim token does not exist yet.
    TokenNotIssued,
    /// The validator registry is empty.
    EmptyRegistry,
    /// A cursor position outside `1 ..= registry size` was offered.
    CursorOutOfRange,
}

impl StakeError {
    /// The human-readable reason, as the pool reports it to operators.
    pub fn message(&self) -> &'static str {
        match self {
            StakeError::StakeValueMustBePositive => "Stake value must be bigger than 0",
            StakeError::InvalidToken => "Invalid token sent",
            StakeError::ZeroAmount => "Cannot receive 0 amount",
            StakeError::MustFetchRewardsFirst => "must fetch rewards first",
            StakeError::MustGetRewardsFirst => "must get rewards first",
            StakeError::MustRedelegateFirst => "must redelegate rewards first",
            StakeError::AlreadyGotStakeThisEpoch => "already got stake amount this epoch",
            StakeError::AlreadyGotRewardsThisEpoch => "already got rewards amount this epoch",
            StakeError::AlreadyGotWithdrawThisEpoch => "already got withdraw amount this epoch",
            StakeError::AlreadyRedelegated => "already redelegated",
            StakeError::RateAlreadyUpdated => "Exchange rate already updated for this epoch",
            StakeError::OperationsNotFinished => {
                "All operations must be finished before updating exchange rate"
            },
            StakeError::TokenAlreadyIssued => "token was already issued",
            StakeError::TokenNotIssued => "Must issue token first",
            StakeError::EmptyRegistry => "no validators registered",
            StakeError::CursorOutOfRange => "cursor position out of range",
        }
    }
}

} // verus!
