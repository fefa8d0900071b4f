use vstd::prelude::*;

use crate::errors::CustomError;
use crate::pubkey::Pubkey;

verus! {

/// The display label of the currency that a new campaign accepts.
pub const ACCEPTED_CURRENCY: [u8; 3] = [67u8, 65u8, 68u8];

/// Lifecycle of one deposit.
///
/// `Pending -> Released -> {Wired -> ShareIssued, Refunded}`; `ShareSold` is
/// reserved and no operation here moves into it.
#[derive(Clone, Copy, Debug, PartialEq, Eq, Structural)]
pub enum InvestmentStatus {
    Pending,
    Released,
    Refunded,
    Wired,
    ShareIssued,
    ShareSold,
}

impl InvestmentStatus {
    /// The stored tag of each status.
    pub open spec fn code_spec(self) -> u8 {
        match self {
            InvestmentStatus::Pending => 0,
            InvestmentStatus::Released => 1,
            InvestmentStatus::Refunded => 2,
            InvestmentStatus::Wired => 3,
            InvestmentStatus::ShareIssued => 4,
            InvestmentStatus::ShareSold => 5,
        }
    }

    pub fn code(&self) -> (r: u8)
        ensures
            r == self.code_spec(),
    {
        match self {
            InvestmentStatus::Pending => 0,
            InvestmentStatus::Released => 1,
            InvestmentStatus::Refunded => 2,
            InvestmentStatus::Wired => 3,
            InvestmentStatus::ShareIssued => 4,
            InvestmentStatus::ShareSold => 5,
        }
    }

    /// Reads a stored tag back; an unknown tag is corrupt data and gives `None`.
    pub fn from_code(c: u8) -> (r: Option<InvestmentStatus>)
        ensures
            r.is_some() <==> c <= 5,
            r matches Some(s) ==> s.code_spec() == c,
    {
        match c {
            0 => Some(InvestmentStatus::Pending),
            1 => Some(InvestmentStatus::Released),
            2 => Some(InvestmentStatus::Refunded),
            3 => Some(InvestmentStatus::Wired),
            4 => Some(InvestmentStatus::ShareIssued),
            5 => Some(InvestmentStatus::ShareSold),
            _ => None,
        }
    }

    /// The deposit has left the custody pool (it was released at some point).
    pub open spec fn is_released_spec(self) -> bool {
        self != InvestmentStatus::Pending
    }
}

/// Aggregate state of one campaign.
#[derive(Clone, Copy, Debug, PartialEq, Eq)]
pub struct Fundraiser {
    /// The administrator, fixed at creation.
    pub admin: Pubkey,
    /// The accepted stable-value currency.
    pub usdc_mint: Pubkey,
    /// The issued share asset; unset until it is bound.
    pub reit_mint: Pubkey,
    /// The custody pool, fixed at creation.
    pub escrow_vault: Pubkey,
    /// Sum of the deposits of every investment ever created here.
    pub total_raised: u64,
    /// Sum of the deposits of every investment ever released here.
    pub released_amount: u64,
    /// Number of investments ever created here.
    pub investment_counter: u64,
    /// Currency units per whole share.
    pub share_price: u64,
    /// Advisory display label of the accepted currency.
    pub reit_accepted_currency: [u8; 3],
}

impl Fundraiser {
    /// A new campaign: counters zero, no share asset.
    pub open spec fn is_initial(self, admin: Pubkey, usdc_mint: Pubkey, escrow_vault: Pubkey) -> bool {
        &&& self.admin == admin
        &&& self.usdc_mint == usdc_mint
        &&& self.reit_mint.is_unset_spec()
        &&& self.escrow_vault == escrow_vault
        &&& self.total_raised == 0
        &&& self.released_amount == 0
        &&& self.investment_counter == 0
        &&& self.share_price == 0
        &&& self.reit_accepted_currency == ACCEPTED_CURRENCY
    }

    pub fn new(admin: Pubkey, usdc_mint: Pubkey, escrow_vault: Pubkey) -> (r: Fundraiser)
        ensures
            r.is_initial(admin, usdc_mint, escrow_vault),
    {
        Fundraiser {
            admin,
            usdc_mint,
            reit_mint: Pubkey::unset(),
            escrow_vault,
            total_raised: 0,
            released_amount: 0,
            investment_counter: 0,
            share_price: 0,
            reit_accepted_currency: ACCEPTED_CURRENCY,
        }
    }
}

/// Registry record of one depositing principal.
#[derive(Clone, Copy, Debug, PartialEq, Eq)]
pub struct Investor {
    pub investor_pubkey: Pubkey,
    /// Source of the sequence index of this investor's next investment.
    pub investment_counter: u64,
}

impl Investor {
    pub open spec fn initial(principal: Pubkey) -> Investor {
        Investor { investor_pubkey: principal, investment_counter: 0 }
    }

    pub fn new(principal: Pubkey) -> (r: Investor)
        ensures
            r == Investor::initial(principal),
    {
        Investor { investor_pubkey: principal, investment_counter: 0 }
    }

    /// Hands out the current counter and advances it by one.
    pub fn next_sequence(&mut self) -> (r: Result<u64, CustomError>)
        ensures
            old(self).investment_counter == u64::MAX <==> r is Err,
            r matches Err(e) ==> e == CustomError::InvestmentCounterOverflow && *final(self)
                == *old(self),
            r matches Ok(i) ==> i == old(self).investment_counter
                && final(self).investment_counter == old(self).investment_counter + 1
                && final(self).investor_pubkey == old(self).investor_pubkey,
    {
        match self.investment_counter.checked_add(1) {
            Some(n) => {
                let i = self.investment_counter;
                self.investment_counter = n;
                Ok(i)
            },
            None => Err(CustomError::InvestmentCounterOverflow),
        }
    }
}

/// Sequence counter scoped to one (investor, fundraiser) pair.
#[derive(Clone, Copy, Debug, PartialEq, Eq)]
pub struct InvestorFundraiser {
    pub investor: Pubkey,
    pub fundraiser: Pubkey,
    pub investment_counter: u64,
}

impl InvestorFundraiser {
    pub fn new(investor: Pubkey, fundraiser: Pubkey) -> (r: InvestorFundraiser)
        ensures
            r == (InvestorFundraiser { investor, fundraiser, investment_counter: 0 }),
    {
        InvestorFundraiser { investor, fundraiser, investment_counter: 0 }
    }

    /// Hands out the current counter and advances it by one.
    pub fn next_sequence(&mut self) -> (r: Result<u64, CustomError>)
        ensures
            old(self).investment_counter == u64::MAX <==> r is Err,
            r matches Err(e) ==> e == CustomError::InvestmentCounterOverflow && *final(self)
                == *old(self),
            r matches Ok(i) ==> i == old(self).investment_counter && *final(self) == (
            InvestorFundraiser { investment_counter: (i + 1) as u64, ..*old(self) }),
    {
        match self.investment_counter.checked_add(1) {
            Some(n) => {
                let i = self.investment_counter;
                self.investment_counter = n;
                Ok(i)
            },
            None => Err(CustomError::InvestmentCounterOverflow),
        }
    }
}

/// One deposit and its lifecycle.
#[derive(Clone, Copy, Debug, PartialEq, Eq)]
pub struct Investment {
    pub investor: Pubkey,
    pub fundraiser: Pubkey,
    pub usdc_amount: u64,
    /// Shares allocated; zero until the shares are issued.
    pub reit_amount: u64,
    pub status: InvestmentStatus,
    /// Counter value that, with `investor` and `fundraiser`, addresses the record.
    pub sequence_index: u64,
}

impl Investment {
    /// An empty record slot.
    pub fn empty() -> (r: Investment)
        ensures
            r.investor.is_unset_spec(),
            r.fundraiser.is_unset_spec(),
            r.usdc_amount == 0,
            r.reit_amount == 0,
            r.status == InvestmentStatus::Pending,
            r.sequence_index == 0,
    {
        Investment {
            investor: Pubkey::unset(),
            fundraiser: Pubkey::unset(),
            usdc_amount: 0,
            reit_amount: 0,
            status: InvestmentStatus::Pending,
            sequence_index: 0,
        }
    }
}

} // verus!
