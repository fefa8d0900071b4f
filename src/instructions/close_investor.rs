use vstd::prelude::*;

use crate::errors::CustomError;
use crate::pubkey::Pubkey;
use crate::state::Investor;

verus! {

/// The record that closing a registry entry removes.
#[derive(Clone, Copy, Debug)]
pub struct CloseInvestor {
    /// The signer, who receives what the record held.
    pub signer: Pubkey,
    pub investor: Investor,
}

/// Allows the closing of a registry record by its own principal only.
///
/// Open investments of the investor do not block the closing; they keep their
/// records.
pub fn handler(ctx: &CloseInvestor) -> (r: Result<(), CustomError>)
    ensures
        r is Ok <==> ctx.signer == ctx.investor.investor_pubkey,
        r matches Err(e) ==> e == CustomError::InvalidAuthority,
{
    if ctx.signer.same_as(&ctx.investor.investor_pubkey) {
        Ok(())
    } else {
        Err(CustomError::InvalidAuthority)
    }
}

} // verus!
