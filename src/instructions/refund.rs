use vstd::prelude::*;

use crate::custody::TokenTransfer;
use crate::errors::CustomError;
use crate::guard::{is_admin, is_owner};
use crate::pubkey::Pubkey;
use crate::state::{Fundraiser, Investment, InvestmentStatus};

verus! {

/// The records and accounts that a refund reads and writes.
#[derive(Clone, Copy, Debug)]
pub struct Refund {
    /// The signer, who must administer the fundraiser and pays the refund.
    pub admin: Pubkey,
    /// Address of the fundraiser record.
    pub fundraiser_key: Pubkey,
    pub fundraiser: Fundraiser,
    pub investment: Investment,
    /// The principal who receives the refund.
    pub investor: Pubkey,
    /// Currency of the supplied accounts.
    pub usdc_mint: Pubkey,
}

/// The first rule that refuses the refund, if any.
pub open spec fn refund_error(ctx: Refund) -> Option<CustomError> {
    if ctx.admin != ctx.fundraiser.admin {
        Some(CustomError::InvalidAuthority)
    } else if ctx.investment.fundraiser != ctx.fundraiser_key {
        Some(CustomError::InvalidFundraiserMismatch)
    } else if ctx.investment.status != InvestmentStatus::Released {
        Some(CustomError::InvalidInvestmentStatus)
    } else if ctx.investor != ctx.investment.investor {
        Some(CustomError::InvalidAuthority)
    } else if ctx.usdc_mint != ctx.fundraiser.usdc_mint {
        Some(CustomError::InvalidMint)
    } else {
        None
    }
}

/// The refund: the deposit goes back from the administrator to the investor.
pub open spec fn refund_transfer(ctx: Refund) -> TokenTransfer {
    TokenTransfer {
        mint: ctx.fundraiser.usdc_mint,
        source: ctx.admin,
        destination: ctx.investment.investor,
        authority: ctx.admin,
        amount: ctx.investment.usdc_amount,
    }
}

/// Reverses a release: Released to Refunded, paying the deposit back to the
/// investor of record. The fundraiser's totals keep their history.
///
/// On success the caller must carry out the returned transfer. On failure
/// nothing changes.
pub fn handler(ctx: &mut Refund) -> (r: Result<TokenTransfer, CustomError>)
    ensures
        r is Err <==> refund_error(*old(ctx)) is Some,
        r matches Err(e) ==> refund_error(*old(ctx)) == Some(e) && *final(ctx) == *old(ctx),
        r matches Ok(t) ==> *final(ctx) == (Refund {
            investment: Investment { status: InvestmentStatus::Refunded, ..old(ctx).investment },
            ..*old(ctx)
        }) && t == refund_transfer(*old(ctx)),
{
    if !is_admin(&ctx.fundraiser, &ctx.admin) {
        return Err(CustomError::InvalidAuthority);
    }
    if !ctx.investment.fundraiser.same_as(&ctx.fundraiser_key) {
        return Err(CustomError::InvalidFundraiserMismatch);
    }
    if ctx.investment.status != InvestmentStatus::Released {
        return Err(CustomError::InvalidInvestmentStatus);
    }
    if !is_owner(&ctx.investment, &ctx.investor) {
        return Err(CustomError::InvalidAuthority);
    }
    if !ctx.usdc_mint.same_as(&ctx.fundraiser.usdc_mint) {
        return Err(CustomError::InvalidMint);
    }
    ctx.investment.status = InvestmentStatus::Refunded;
    Ok(
        TokenTransfer {
            mint: ctx.fundraiser.usdc_mint,
            source: ctx.admin,
            destination: ctx.investment.investor,
            authority: ctx.admin,
            amount: ctx.investment.usdc_amount,
        },
    )
}

} // verus!
