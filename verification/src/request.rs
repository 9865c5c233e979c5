//! The immutable description of one watch-and-exit request.

use vstd::prelude::*;

verus! {

/// An opaque on-chain account identifier, held as its 32 raw bytes.
#[derive(Clone, Copy, Debug, PartialEq, Eq)]
pub struct AccountId {
    pub bytes: [u8; 32],
}

/// Everything one watch needs: the pool and asset pair the exit action will
/// use, the account whose balance is watched, and the baseline metric in
/// lamports. Immutable once created.
#[derive(Clone, Copy, Debug, PartialEq, Eq)]
pub struct SellRequest {
    /// The AMM pool the exit action trades against.
    pub amm_pool: AccountId,
    /// The asset sold by the exit action.
    pub input_mint: AccountId,
    /// The asset bought by the exit action.
    pub output_mint: AccountId,
    /// The vault account whose lamport balance is watched.
    pub sol_vault: AccountId,
    /// The baseline metric: the pooled amount, in lamports, at buy time.
    pub sol_pooled_when_bought: u64,
}

} // verus!
