//! The pool's two tokens: the guards around their one-time issuance, the
//! attributes a withdrawal receipt carries, and the issuance callbacks.
//!
//! Issuing a token, minting and sending are transport: the host performs
//! them. This module holds what the pool decides — whether an issuance may
//! run at all — and what it records once the call resolves.

use vstd::prelude::*;

use crate::storage::PoolState;
use crate::storage::StakePool;
use crate::storage::StorageModule;
use crate::StakeError;

verus! {

/// What a withdrawal receipt records: the epoch it was created in, from
/// which the claimable epoch is counted.
#[derive(Clone, Copy, Debug, PartialEq, Eq, Structural)]
pub struct TokenAttributes {
    pub epoch: u64,
}

/// The guards around token issuance, and what its callbacks record.
pub trait TokenModule: StorageModule {
    /// Whether the claim token may be issued: only while none exists. On
    /// `Ok` the host performs the issuance call, whose resolution reaches
    /// the pool through `CallbacksModule::esdt_issue_callback`.
    fn issue_staked_egld(&self) -> (r: Result<(), StakeError>)
        ensures
            match r {
                Ok(()) => self.pool().staked_egld_id.is_none(),
                Err(e) => {
                    &&& e == StakeError::TokenAlreadyIssued
                    &&& self.pool().staked_egld_id.is_some()
                },
            },
    ;

    /// Whether the claim token's mint and burn roles may be claimed: only
    /// once the token exists. On `Ok` the host performs the role call.
    fn set_local_roles(&self) -> (r: Result<(), StakeError>)
        ensures
            match r {
                Ok(()) => self.pool().staked_egld_id.is_some(),
                Err(e) => {
                    &&& e == StakeError::TokenNotIssued
                    &&& self.pool().staked_egld_id.is_none()
                },
            },
    ;

    /// Resolves the withdrawal-receipt token issuance call: on success the
    /// token's identity is recorded; on failure nothing is recorded, and the
    /// host returns the issuance cost to the owner.
    fn meta_esdt_issue_callback(&mut self, result: Option<u64>)
        requires
            old(self).pool().wf(),
        ensures
            final(self).pool() == (PoolState {
                undelegated_token_id: if result.is_some() {
                    result
                } else {
                    old(self).pool().undelegated_token_id
                },
                ..old(self).pool()
            }),
            final(self).pool().wf(),
    ;
}

impl TokenModule for StakePool {
    fn issue_staked_egld(&self) -> (r: Result<(), StakeError>) {
        match self.staked_egld_id {
            Some(_) => Err(StakeError::TokenAlreadyIssued),
            None => Ok(()),
        }
    }

    fn set_local_roles(&self) -> (r: Result<(), StakeError>) {
        match self.staked_egld_id {
            Some(_) => Ok(()),
            None => Err(StakeError::TokenNotIssued),
        }
    }

    fn meta_esdt_issue_callback(&mut self, result: Option<u64>) {
        match result {
            Some(token_identifier) => {
                self.undelegated_token_id = Some(token_identifier);
            },
            None => {},
        }
    }
}

} // verus!
