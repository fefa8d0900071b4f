use vstd::prelude::*;

use crate::errors::CustomError;
use crate::guard::is_admin;
use crate::pubkey::Pubkey;
use crate::state::{Fundraiser, Investment, InvestmentStatus};

verus! {

/// The records that a wire confirmation reads and writes.
#[derive(Clone, Copy, Debug)]
pub struct Wire {
    /// The signer, who must administer the fundraiser.
    pub admin: Pubkey,
    /// Address of the fundraiser record.
    pub fundraiser_key: Pubkey,
    pub fundraiser: Fundraiser,
    pub investment: Investment,
}

/// The first rule that refuses the confirmation, if any.
pub open spec fn wire_error(ctx: Wire) -> Option<CustomError> {
    if ctx.admin != ctx.fundraiser.admin {
        Some(CustomError::InvalidAuthority)
    } else if ctx.investment.fundraiser != ctx.fundraiser_key {
        Some(CustomError::InvalidFundraiserMismatch)
    } else if ctx.investment.status != InvestmentStatus::Released {
        Some(CustomError::InvalidInvestmentStatus)
    } else {
        None
    }
}

/// Records that the released funds were converted off-chain: Released to
/// Wired, with no movement of funds. On failure nothing changes.
pub fn handler(ctx: &mut Wire) -> (r: Result<(), CustomError>)
    ensures
        r is Err <==> wire_error(*old(ctx)) is Some,
        r matches Err(e) ==> wire_error(*old(ctx)) == Some(e) && *final(ctx) == *old(ctx),
        r is Ok ==> *final(ctx) == (Wire {
            investment: Investment { status: InvestmentStatus::Wired, ..old(ctx).investment },
            ..*old(ctx)
        }),
{
    if !is_admin(&ctx.fundraiser, &ctx.admin) {
        return Err(CustomError::InvalidAuthority);
    }
    if !ctx.investment.fundraiser.same_as(&ctx.fundraiser_key) {
        return Err(CustomError::InvalidFundraiserMismatch);
    }
    if ctx.investment.status != InvestmentStatus::Released {
        return Err(CustomError::InvalidInvestmentStatus);
    }
    ctx.investment.status = InvestmentStatus::Wired;
    Ok(())
}

} // verus!
