use vstd::prelude::*;

use crate::custody::ShareMint;
use crate::errors::CustomError;
use crate::guard::{is_admin, is_owner};
use crate::pubkey::Pubkey;
use crate::state::{Fundraiser, Investment, InvestmentStatus};

verus! {

/// The records and accounts that a share issue reads and writes.
#[derive(Clone, Copy, Debug)]
pub struct IssueShare {
    /// The signer, who must administer the fundraiser.
    pub admin: Pubkey,
    /// Address of the fundraiser record.
    pub fundraiser_key: Pubkey,
    pub fundraiser: Fundraiser,
    pub investment: Investment,
    /// The principal whose account receives the shares.
    pub investor_wallet: Pubkey,
    /// The share asset to create units of.
    pub reit_mint: Pubkey,
}

/// The first rule that refuses the issue, if any.
pub open spec fn issue_share_error(ctx: IssueShare, investor_pubkey: Pubkey, share_price: u64) -> Option<
    CustomError,
> {
    if ctx.admin != ctx.fundraiser.admin {
        Some(CustomError::InvalidAuthority)
    } else if ctx.investment.fundraiser != ctx.fundraiser_key {
        Some(CustomError::InvalidFundraiserMismatch)
    } else if ctx.investment.status != InvestmentStatus::Wired {
        Some(CustomError::InvalidInvestmentStatus)
    } else if ctx.investor_wallet != investor_pubkey {
        Some(CustomError::InvalidAuthority)
    } else if investor_pubkey != ctx.investment.investor {
        Some(CustomError::InvalidAuthority)
    } else if ctx.fundraiser.reit_mint.is_unset_spec() || ctx.reit_mint != ctx.fundraiser.reit_mint {
        Some(CustomError::InvalidMint)
    } else if share_price == 0 {
        Some(CustomError::InvalidAmount)
    } else {
        None
    }
}

/// Whole shares bought by a deposit; the remainder below one share is dropped.
pub open spec fn shares_for(usdc_amount: u64, share_price: u64) -> u64
    recommends
        share_price > 0,
{
    (usdc_amount / share_price) as u64
}

/// Allocates `usdc_amount / share_price` whole shares to a Wired investment and
/// moves it to ShareIssued.
///
/// On success the caller must create the returned units for the investor. On
/// failure nothing changes.
pub fn handler(ctx: &mut IssueShare, investor_pubkey: Pubkey, share_price: u64) -> (r: Result<
    ShareMint,
    CustomError,
>)
    ensures
        r is Err <==> issue_share_error(*old(ctx), investor_pubkey, share_price) is Some,
        r matches Err(e) ==> issue_share_error(*old(ctx), investor_pubkey, share_price) == Some(e)
            && *final(ctx) == *old(ctx),
        r matches Ok(m) ==> {
            let shares = shares_for(old(ctx).investment.usdc_amount, share_price);
            &&& *final(ctx) == (IssueShare {
                investment: Investment {
                    reit_amount: shares,
                    status: InvestmentStatus::ShareIssued,
                    ..old(ctx).investment
                },
                ..*old(ctx)
            })
            &&& m == (ShareMint {
                mint: old(ctx).fundraiser.reit_mint,
                destination: old(ctx).investment.investor,
                authority: old(ctx).admin,
                amount: shares,
            })
        },
{
    if !is_admin(&ctx.fundraiser, &ctx.admin) {
        return Err(CustomError::InvalidAuthority);
    }
    if !ctx.investment.fundraiser.same_as(&ctx.fundraiser_key) {
        return Err(CustomError::InvalidFundraiserMismatch);
    }
    if ctx.investment.status != InvestmentStatus::Wired {
        return Err(CustomError::InvalidInvestmentStatus);
    }
    if !ctx.investor_wallet.same_as(&investor_pubkey) {
        return Err(CustomError::InvalidAuthority);
    }
    if !is_owner(&ctx.investment, &investor_pubkey) {
        return Err(CustomError::InvalidAuthority);
    }
    if ctx.fundraiser.reit_mint.is_unset() || !ctx.reit_mint.same_as(&ctx.fundraiser.reit_mint) {
        return Err(CustomError::InvalidMint);
    }
    if share_price == 0 {
        return Err(CustomError::InvalidAmount);
    }
    let shares = ctx.investment.usdc_amount / share_price;
    ctx.investment.reit_amount = shares;
    ctx.investment.status = InvestmentStatus::ShareIssued;
    Ok(
        ShareMint {
            mint: ctx.fundraiser.reit_mint,
            destination: ctx.investment.investor,
            authority: ctx.admin,
            amount: shares,
        },
    )
}

} // verus!
