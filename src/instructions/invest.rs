use vstd::prelude::*;

use crate::custody::TokenTransfer;
use crate::errors::CustomError;
use crate::pubkey::Pubkey;
use crate::state::{Fundraiser, Investment, InvestmentStatus, Investor};

verus! {

/// The records and accounts that a deposit reads and writes.
#[derive(Clone, Copy, Debug)]
pub struct Invest {
    /// The depositing principal, who signs.
    pub investor_signer: Pubkey,
    /// The signer's registry record; an unset key means it does not exist yet.
    pub investor: Investor,
    /// Address of the fundraiser record.
    pub fundraiser_key: Pubkey,
    pub fundraiser: Fundraiser,
    /// The slot that receives the new investment.
    pub investment: Investment,
    /// Currency of the supplied accounts.
    pub usdc_mint: Pubkey,
    /// The custody pool that the deposit is sent to.
    pub escrow_vault: Pubkey,
}

/// The signer's registry record, created on first use.
pub open spec fn investor_record(ctx: Invest) -> Investor {
    if ctx.investor.investor_pubkey.is_unset_spec() {
        Investor::initial(ctx.investor_signer)
    } else {
        ctx.investor
    }
}

/// The first rule that refuses a deposit of `amount`, if any.
pub open spec fn invest_error(ctx: Invest, amount: u64) -> Option<CustomError> {
    let investor = investor_record(ctx);
    if amount == 0 {
        Some(CustomError::InvalidAmount)
    } else if ctx.fundraiser.escrow_vault.is_unset_spec() {
        Some(CustomError::EscrowNotInitialized)
    } else if ctx.usdc_mint != ctx.fundraiser.usdc_mint {
        Some(CustomError::InvalidMint)
    } else if ctx.escrow_vault != ctx.fundraiser.escrow_vault {
        Some(CustomError::InvalidAuthority)
    } else if investor.investor_pubkey != ctx.investor_signer {
        Some(CustomError::InvalidAuthority)
    } else if investor.investment_counter == u64::MAX {
        Some(CustomError::InvestmentCounterOverflow)
    } else if ctx.fundraiser.investment_counter == u64::MAX {
        Some(CustomError::InvestmentCounterOverflow)
    } else if ctx.fundraiser.total_raised + amount > u64::MAX {
        Some(CustomError::ArithmeticOverflow)
    } else {
        None
    }
}

/// The records after an accepted deposit of `amount`.
pub open spec fn invest_effect(ctx: Invest, amount: u64) -> Invest {
    let investor = investor_record(ctx);
    Invest {
        investor: Investor {
            investor_pubkey: ctx.investor_signer,
            investment_counter: (investor.investment_counter + 1) as u64,
        },
        fundraiser: Fundraiser {
            total_raised: (ctx.fundraiser.total_raised + amount) as u64,
            investment_counter: (ctx.fundraiser.investment_counter + 1) as u64,
            ..ctx.fundraiser
        },
        investment: Investment {
            investor: ctx.investor_signer,
            fundraiser: ctx.fundraiser_key,
            usdc_amount: amount,
            reit_amount: 0,
            status: InvestmentStatus::Pending,
            sequence_index: investor.investment_counter,
        },
        ..ctx
    }
}

/// The deposit itself: from the investor to the custody pool.
pub open spec fn invest_transfer(ctx: Invest, amount: u64) -> TokenTransfer {
    TokenTransfer {
        mint: ctx.fundraiser.usdc_mint,
        source: ctx.investor_signer,
        destination: ctx.fundraiser.escrow_vault,
        authority: ctx.investor_signer,
        amount,
    }
}

/// Creates a Pending investment of `amount` for the signer, with the signer's
/// next sequence index, and counts it in the fundraiser's totals.
///
/// On success the caller must carry out the returned transfer; if the custodian
/// refuses it, the whole deposit is void. On failure nothing changes.
pub fn handler(ctx: &mut Invest, amount: u64) -> (r: Result<TokenTransfer, CustomError>)
    ensures
        r is Err <==> invest_error(*old(ctx), amount) is Some,
        r matches Err(e) ==> invest_error(*old(ctx), amount) == Some(e) && *final(ctx) == *old(ctx),
        r matches Ok(t) ==> *final(ctx) == invest_effect(*old(ctx), amount) && t == invest_transfer(
            *old(ctx),
            amount,
        ),
{
    if amount == 0 {
        return Err(CustomError::InvalidAmount);
    }
    if ctx.fundraiser.escrow_vault.is_unset() {
        return Err(CustomError::EscrowNotInitialized);
    }
    if !ctx.usdc_mint.same_as(&ctx.fundraiser.usdc_mint) {
        return Err(CustomError::InvalidMint);
    }
    if !ctx.escrow_vault.same_as(&ctx.fundraiser.escrow_vault) {
        return Err(CustomError::InvalidAuthority);
    }
    let mut investor = if ctx.investor.investor_pubkey.is_unset() {
        Investor::new(ctx.investor_signer)
    } else {
        ctx.investor
    };
    if !investor.investor_pubkey.same_as(&ctx.investor_signer) {
        return Err(CustomError::InvalidAuthority);
    }
    let sequence_index = match investor.next_sequence() {
        Ok(i) => i,
        Err(e) => return Err(e),
    };
    let investment_counter = match ctx.fundraiser.investment_counter.checked_add(1) {
        Some(n) => n,
        None => return Err(CustomError::InvestmentCounterOverflow),
    };
    let total_raised = match ctx.fundraiser.total_raised.checked_add(amount) {
        Some(n) => n,
        None => return Err(CustomError::ArithmeticOverflow),
    };
    ctx.investor = investor;
    ctx.fundraiser.investment_counter = investment_counter;
    ctx.fundraiser.total_raised = total_raised;
    ctx.investment = Investment {
        investor: ctx.investor_signer,
        fundraiser: ctx.fundraiser_key,
        usdc_amount: amount,
        reit_amount: 0,
        status: InvestmentStatus::Pending,
        sequence_index,
    };
    Ok(
        TokenTransfer {
            mint: ctx.fundraiser.usdc_mint,
            source: ctx.investor_signer,
            destination: ctx.fundraiser.escrow_vault,
            authority: ctx.investor_signer,
            amount,
        },
    )
}

} // verus!
