use vstd::prelude::*;

use crate::custody::TokenTransfer;
use crate::errors::CustomError;
use crate::guard::{is_admin, is_owner};
use crate::pubkey::Pubkey;
use crate::state::{Fundraiser, Investment, InvestmentStatus};

verus! {

/// The records and accounts that a dividend payment reads.
#[derive(Clone, Copy, Debug)]
pub struct IssueDividend {
    /// The signer, who must administer the fundraiser and pays the dividend.
    pub admin: Pubkey,
    /// Address of the investment record.
    pub investment_key: Pubkey,
    pub investment: Investment,
    /// The principal who receives the dividend.
    pub investor: Pubkey,
    /// Address of the fundraiser record.
    pub fundraiser_key: Pubkey,
    pub fundraiser: Fundraiser,
    /// Currency of the supplied accounts.
    pub usdc_mint: Pubkey,
}

/// Audit record of one dividend payment.
#[derive(Clone, Copy, Debug, PartialEq, Eq)]
pub struct DividendIssued {
    pub investment: Pubkey,
    pub investor: Pubkey,
    pub fundraiser: Pubkey,
    pub amount: u64,
    pub timestamp: i64,
}

/// The first rule that refuses the payment, if any.
pub open spec fn issue_dividend_error(ctx: IssueDividend) -> Option<CustomError> {
    if ctx.admin != ctx.fundraiser.admin {
        Some(CustomError::InvalidAuthority)
    } else if ctx.investment.fundraiser != ctx.fundraiser_key {
        Some(CustomError::InvalidFundraiserMismatch)
    } else if ctx.investment.status != InvestmentStatus::ShareIssued {
        Some(CustomError::InvalidInvestmentStatus)
    } else if ctx.investor != ctx.investment.investor {
        Some(CustomError::InvalidAuthority)
    } else if ctx.usdc_mint != ctx.fundraiser.usdc_mint {
        Some(CustomError::InvalidMint)
    } else {
        None
    }
}

/// Pays `amount` of the campaign currency from the administrator to the
/// investor of a ShareIssued investment, and returns the audit record stamped
/// with `timestamp`. No record changes.
pub fn handler(ctx: &IssueDividend, amount: u64, timestamp: i64) -> (r: Result<
    (TokenTransfer, DividendIssued),
    CustomError,
>)
    ensures
        r is Err <==> issue_dividend_error(*ctx) is Some,
        r matches Err(e) ==> issue_dividend_error(*ctx) == Some(e),
        r matches Ok((t, ev)) ==> t == (TokenTransfer {
            mint: ctx.fundraiser.usdc_mint,
            source: ctx.admin,
            destination: ctx.investment.investor,
            authority: ctx.admin,
            amount,
        }) && ev == (DividendIssued {
            investment: ctx.investment_key,
            investor: ctx.investment.investor,
            fundraiser: ctx.fundraiser_key,
            amount,
            timestamp,
        }),
{
    if !is_admin(&ctx.fundraiser, &ctx.admin) {
        return Err(CustomError::InvalidAuthority);
    }
    if !ctx.investment.fundraiser.same_as(&ctx.fundraiser_key) {
        return Err(CustomError::InvalidFundraiserMismatch);
    }
    if ctx.investment.status != InvestmentStatus::ShareIssued {
        return Err(CustomError::InvalidInvestmentStatus);
    }
    if !is_owner(&ctx.investment, &ctx.investor) {
        return Err(CustomError::InvalidAuthority);
    }
    if !ctx.usdc_mint.same_as(&ctx.fundraiser.usdc_mint) {
        return Err(CustomError::InvalidMint);
    }
    let transfer = TokenTransfer {
        mint: ctx.fundraiser.usdc_mint,
        source: ctx.admin,
        destination: ctx.investment.investor,
        authority: ctx.admin,
        amount,
    };
    let event = DividendIssued {
        investment: ctx.investment_key,
        investor: ctx.investment.investor,
        fundraiser: ctx.fundraiser_key,
        amount,
        timestamp,
    };
    Ok((transfer, event))
}

} // verus!
