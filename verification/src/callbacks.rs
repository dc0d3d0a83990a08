//! Resolution of the claim-token issuance call.

use vstd::prelude::*;

use crate::storage::PoolState;
use crate::storage::StakePool;
use crate::storage::StorageModule;

verus! {

/// The callback side of token issuance.
pub trait CallbacksModule: StorageModule {
    /// Resolves the claim-token issuance call: on success (`result` carries
    /// the new token's identity) that identity is recorded; on failure
    /// nothing is recorded, and the host returns the issuance cost to the
    /// owner.
    fn esdt_issue_callback(&mut self, result: Option<u64>)
        requires
            old(self).pool().wf(),
        ensures
            final(self).pool() == (PoolState {
                staked_egld_id: if result.is_some() {
                    result
                } else {
                    old(self).pool().staked_egld_id
                },
                ..old(self).pool()
            }),
            final(self).pool().wf(),
    ;
}

impl CallbacksModule for StakePool {
    fn esdt_issue_callback(&mut self, result: Option<u64>) {
        match result {
            Some(token_identifier) => {
                self.staked_egld_id = Some(token_identifier);
            },
            None => {},
        }
    }
}

} // verus!
