use vstd::prelude::*;

use crate::errors::CustomError;
use crate::guard::is_admin;
use crate::pubkey::Pubkey;
use crate::state::Fundraiser;

verus! {

/// The records that binding a share asset reads and writes.
#[derive(Clone, Copy, Debug)]
pub struct CreateMint {
    /// The signer, who must administer the fundraiser.
    pub admin: Pubkey,
    pub fundraiser: Fundraiser,
    /// The newly created share asset.
    pub reit_mint: Pubkey,
}

/// Binds the share asset and the share price to the fundraiser; only its
/// administrator may. On failure nothing changes.
pub fn handler(ctx: &mut CreateMint, share_price: u64) -> (r: Result<(), CustomError>)
    ensures
        r is Ok <==> old(ctx).admin == old(ctx).fundraiser.admin,
        r matches Err(e) ==> e == CustomError::InvalidAuthority && *final(ctx) == *old(ctx),
        r is Ok ==> *final(ctx) == (CreateMint {
            fundraiser: Fundraiser {
                reit_mint: old(ctx).reit_mint,
                share_price,
                ..old(ctx).fundraiser
            },
            ..*old(ctx)
        }),
{
    if !is_admin(&ctx.fundraiser, &ctx.admin) {
        return Err(CustomError::InvalidAuthority);
    }
    ctx.fundraiser.reit_mint = ctx.reit_mint;
    ctx.fundraiser.share_price = share_price;
    Ok(())
}

} // verus!
