use vstd::prelude::*;

use crate::errors::CustomError;
use crate::guard::is_admin;
use crate::pubkey::Pubkey;
use crate::state::Fundraiser;

verus! {

/// The records that renaming the share asset reads.
#[derive(Clone, Copy, Debug)]
pub struct UpdateReitMint {
    /// The signer, who must administer the fundraiser.
    pub admin: Pubkey,
    pub fundraiser: Fundraiser,
    /// The share asset whose name record is to change.
    pub reit_mint: Pubkey,
}

/// The first rule that refuses the update, if any.
pub open spec fn update_reit_mint_error(ctx: UpdateReitMint) -> Option<CustomError> {
    if ctx.admin != ctx.fundraiser.admin {
        Some(CustomError::InvalidAuthority)
    } else if ctx.reit_mint != ctx.fundraiser.reit_mint {
        Some(CustomError::InvalidMint)
    } else {
        None
    }
}

/// Allows the caller to rewrite the name record of the fundraiser's own share
/// asset, for its administrator only. No record changes.
pub fn handler(ctx: &UpdateReitMint) -> (r: Result<(), CustomError>)
    ensures
        r is Err <==> update_reit_mint_error(*ctx) is Some,
        r matches Err(e) ==> update_reit_mint_error(*ctx) == Some(e),
{
    if !is_admin(&ctx.fundraiser, &ctx.admin) {
        return Err(CustomError::InvalidAuthority);
    }
    if !ctx.reit_mint.same_as(&ctx.fundraiser.reit_mint) {
        return Err(CustomError::InvalidMint);
    }
    Ok(())
}

} // verus!
