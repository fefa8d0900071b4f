use vstd::prelude::*;

use crate::custody::TokenTransfer;
use crate::errors::CustomError;
use crate::guard::is_admin;
use crate::pubkey::Pubkey;
use crate::state::{Fundraiser, Investment, InvestmentStatus};

verus! {

/// The records and accounts that a release reads and writes.
#[derive(Clone, Copy, Debug)]
pub struct Release {
    /// The signer, who must administer the fundraiser.
    pub admin: Pubkey,
    /// Address of the fundraiser record.
    pub fundraiser_key: Pubkey,
    pub fundraiser: Fundraiser,
    pub investment: Investment,
    /// Currency of the supplied accounts.
    pub usdc_mint: Pubkey,
    /// The custody pool that the funds leave.
    pub escrow_vault: Pubkey,
}

/// The first rule that refuses the release, if any.
pub open spec fn release_error(ctx: Release) -> Option<CustomError> {
    if ctx.admin != ctx.fundraiser.admin {
        Some(CustomError::InvalidAuthority)
    } else if ctx.investment.fundraiser != ctx.fundraiser_key {
        Some(CustomError::InvalidFundraiserMismatch)
    } else if ctx.investment.status != InvestmentStatus::Pending {
        Some(CustomError::InvalidInvestmentStatus)
    } else if ctx.usdc_mint != ctx.fundraiser.usdc_mint {
        Some(CustomError::InvalidMint)
    } else if ctx.fundraiser.escrow_vault.is_unset_spec() {
        Some(CustomError::EscrowNotInitialized)
    } else if ctx.escrow_vault != ctx.fundraiser.escrow_vault {
        Some(CustomError::InvalidAuthority)
    } else if ctx.fundraiser.released_amount + ctx.investment.usdc_amount > u64::MAX {
        Some(CustomError::ArithmeticOverflow)
    } else {
        None
    }
}

/// The records after an accepted release.
pub open spec fn release_effect(ctx: Release) -> Release {
    Release {
        fundraiser: Fundraiser {
            released_amount: (ctx.fundraiser.released_amount + ctx.investment.usdc_amount) as u64,
            ..ctx.fundraiser
        },
        investment: Investment { status: InvestmentStatus::Released, ..ctx.investment },
        ..ctx
    }
}

/// The deposit leaves the custody pool for the administrator, under the
/// fundraiser's own authority.
pub open spec fn release_transfer(ctx: Release) -> TokenTransfer {
    TokenTransfer {
        mint: ctx.fundraiser.usdc_mint,
        source: ctx.fundraiser.escrow_vault,
        destination: ctx.admin,
        authority: ctx.fundraiser_key,
        amount: ctx.investment.usdc_amount,
    }
}

/// Moves a Pending investment to Released and counts its deposit as released.
///
/// On success the caller must carry out the returned transfer. On failure
/// nothing changes.
pub fn handler(ctx: &mut Release) -> (r: Result<TokenTransfer, CustomError>)
    ensures
        r is Err <==> release_error(*old(ctx)) is Some,
        r matches Err(e) ==> release_error(*old(ctx)) == Some(e) && *final(ctx) == *old(ctx),
        r matches Ok(t) ==> *final(ctx) == release_effect(*old(ctx)) && t == release_transfer(
            *old(ctx),
        ),
{
    if !is_admin(&ctx.fundraiser, &ctx.admin) {
        return Err(CustomError::InvalidAuthority);
    }
    if !ctx.investment.fundraiser.same_as(&ctx.fundraiser_key) {
        return Err(CustomError::InvalidFundraiserMismatch);
    }
    if ctx.investment.status != InvestmentStatus::Pending {
        return Err(CustomError::InvalidInvestmentStatus);
    }
    if !ctx.usdc_mint.same_as(&ctx.fundraiser.usdc_mint) {
        return Err(CustomError::InvalidMint);
    }
    if ctx.fundraiser.escrow_vault.is_unset() {
        return Err(CustomError::EscrowNotInitialized);
    }
    if !ctx.escrow_vault.same_as(&ctx.fundraiser.escrow_vault) {
        return Err(CustomError::InvalidAuthority);
    }
    let released_amount = match ctx.fundraiser.released_amount.checked_add(
        ctx.investment.usdc_amount,
    ) {
        Some(n) => n,
        None => return Err(CustomError::ArithmeticOverflow),
    };
    ctx.investment.status = InvestmentStatus::Released;
    ctx.fundraiser.released_amount = released_amount;
    Ok(
        TokenTransfer {
            mint: ctx.fundraiser.usdc_mint,
            source: ctx.fundraiser.escrow_vault,
            destination: ctx.admin,
            authority: ctx.fundraiser_key,
            amount: ctx.investment.usdc_amount,
        },
    )
}

} // verus!
