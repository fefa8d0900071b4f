use vstd::prelude::*;

verus! {

/// Every way in which an operation of the campaign can fail.
#[derive(Clone, Copy, Debug, PartialEq, Eq, Structural)]
pub enum CustomError {
    /// The custodian refused a transfer larger than the available balance.
    InsufficientFunds,
    /// A deposit or transfer amount is zero where a positive one is required.
    InvalidAmount,
    /// The acting principal is not the required administrator or investor.
    InvalidAuthority,
    /// The fundraiser's custody pool was never bound.
    EscrowNotInitialized,
    /// A sequence counter would exceed its range.
    InvestmentCounterOverflow,
    /// A balance would exceed its range.
    ArithmeticOverflow,
    /// The investment is not in the status the operation requires.
    InvalidInvestmentStatus,
    /// The investment belongs to another fundraiser.
    InvalidFundraiserMismatch,
    /// A currency or asset identifier differs from the fundraiser's recorded one.
    InvalidMint,
}

pub open spec fn error_message(e: CustomError) -> Seq<char> {
    match e {
        CustomError::InsufficientFunds => "Insufficient funds"@,
        CustomError::InvalidAmount => "Invalid amount"@,
        CustomError::InvalidAuthority => "Invalid authority"@,
        CustomError::EscrowNotInitialized => "Escrow not initialized"@,
        CustomError::InvestmentCounterOverflow => "Investment counter overflow"@,
        CustomError::ArithmeticOverflow => "Arithmetic overflow"@,
        CustomError::InvalidInvestmentStatus => "Invalid investment status"@,
        CustomError::InvalidFundraiserMismatch => "Fundraiser does not match investment"@,
        CustomError::InvalidMint => "Invalid mint"@,
    }
}

impl CustomError {
    /// The human-readable message of the error.
    pub fn message(&self) -> (r: &'static str)
        ensures
            r@ == error_message(*self),
    {
        match self {
            CustomError::InsufficientFunds => "Insufficient funds",
            CustomError::InvalidAmount => "Invalid amount",
            CustomError::InvalidAuthority => "Invalid authority",
            CustomError::EscrowNotInitialized => "Escrow not initialized",
            CustomError::InvestmentCounterOverflow => "Investment counter overflow",
            CustomError::ArithmeticOverflow => "Arithmetic overflow",
            CustomError::InvalidInvestmentStatus => "Invalid investment status",
            CustomError::InvalidFundraiserMismatch => "Fundraiser does not match investment",
            CustomError::InvalidMint => "Invalid mint",
        }
    }
}

/// Failures of the record table: a rule of the campaign, or addressing.
#[derive(Clone, Copy, Debug, PartialEq, Eq, Structural)]
pub enum ProgramError {
    /// A rule of the campaign refused the operation.
    Custom(CustomError),
    /// A record already exists at the address that creation would use.
    AccountAlreadyInUse,
    /// No record exists at the given address.
    AccountNotFound,
}

} // verus!
