use vstd::prelude::*;

use crate::pubkey::Pubkey;

verus! {

/// A movement of `amount` units of the currency `mint`, from the account held by
/// `source` to the account held by `destination`, signed by `authority`.
///
/// Operations only describe the transfer; the custodian that carries it out may
/// still refuse it (for lack of funds), in which case the whole operation is
/// abandoned.
#[derive(Clone, Copy, Debug, PartialEq, Eq)]
pub struct TokenTransfer {
    pub mint: Pubkey,
    pub source: Pubkey,
    pub destination: Pubkey,
    pub authority: Pubkey,
    pub amount: u64,
}

/// Creation of `amount` new units of the share asset `mint` for `destination`,
/// signed by `authority`.
#[derive(Clone, Copy, Debug, PartialEq, Eq)]
pub struct ShareMint {
    pub mint: Pubkey,
    pub destination: Pubkey,
    pub authority: Pubkey,
    pub amount: u64,
}

} // verus!
