use vstd::prelude::*;

use crate::errors::CustomError;
use crate::guard::is_admin;
use crate::pubkey::Pubkey;
use crate::state::Fundraiser;

verus! {

/// The records that binding a share asset with a name record reads and writes.
#[derive(Clone, Copy, Debug)]
pub struct CreateReitMint {
    /// The signer, who must administer the fundraiser.
    pub admin: Pubkey,
    pub fundraiser: Fundraiser,
    /// The newly created share asset.
    pub reit_mint: Pubkey,
}

/// Binds the share asset to the fundraiser; only its administrator may. The
/// asset's name record is written by the caller once this succeeds. On failure
/// nothing changes.
pub fn handler(ctx: &mut CreateReitMint) -> (r: Result<(), CustomError>)
    ensures
        r is Ok <==> old(ctx).admin == old(ctx).fundraiser.admin,
        r matches Err(e) ==> e == CustomError::InvalidAuthority && *final(ctx) == *old(ctx),
        r is Ok ==> *final(ctx) == (CreateReitMint {
            fundraiser: Fundraiser { reit_mint: old(ctx).reit_mint, ..old(ctx).fundraiser },
            ..*old(ctx)
        }),
{
    if !is_admin(&ctx.fundraiser, &ctx.admin) {
        return Err(CustomError::InvalidAuthority);
    }
    ctx.fundraiser.reit_mint = ctx.reit_mint;
    Ok(())
}

} // verus!
