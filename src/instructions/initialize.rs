use vstd::prelude::*;

use crate::pubkey::Pubkey;
use crate::state::Fundraiser;

verus! {

/// The records that opening a campaign writes.
#[derive(Clone, Copy, Debug)]
pub struct InitializeFundraiser {
    /// The signer, who becomes the administrator.
    pub admin: Pubkey,
    /// The accepted currency.
    pub usdc_mint: Pubkey,
    /// The custody pool bound to the campaign.
    pub escrow_vault: Pubkey,
    /// The slot that receives the new fundraiser.
    pub fundraiser: Fundraiser,
}

/// Opens a campaign administered by the signer: counters zero, no share asset.
pub fn handler(ctx: &mut InitializeFundraiser)
    ensures
        final(ctx).fundraiser.is_initial(old(ctx).admin, old(ctx).usdc_mint, old(ctx).escrow_vault),
        final(ctx).admin == old(ctx).admin,
        final(ctx).usdc_mint == old(ctx).usdc_mint,
        final(ctx).escrow_vault == old(ctx).escrow_vault,
{
    ctx.fundraiser = Fundraiser::new(ctx.admin, ctx.usdc_mint, ctx.escrow_vault);
}

} // verus!
