use canadianreitinvest::errors::CustomError;
use canadianreitinvest::pubkey::Pubkey;
use canadianreitinvest::state::{InvestmentStatus, Investor, InvestorFundraiser};

#[test]
fn status_codes_round_trip() {
    let all = [
        InvestmentStatus::Pending,
        InvestmentStatus::Released,
        InvestmentStatus::Refunded,
        InvestmentStatus::Wired,
        InvestmentStatus::ShareIssued,
        InvestmentStatus::ShareSold,
    ];
    for (n, s) in all.iter().enumerate() {
        assert_eq!(s.code(), n as u8);
        assert_eq!(InvestmentStatus::from_code(n as u8), Some(*s));
    }
    assert_eq!(InvestmentStatus::from_code(6), None);
    assert_eq!(InvestmentStatus::from_code(255), None);
}

#[test]
fn next_sequence_counts_and_stops_at_the_top() {
    let mut inv = Investor::new(Pubkey::new([2; 32]));
    assert_eq!(inv.next_sequence(), Ok(0));
    assert_eq!(inv.next_sequence(), Ok(1));
    assert_eq!(inv.investment_counter, 2);
    inv.investment_counter = u64::MAX;
    assert_eq!(inv.next_sequence(), Err(CustomError::InvestmentCounterOverflow));
    assert_eq!(inv.investment_counter, u64::MAX);

    let mut pair = InvestorFundraiser::new(Pubkey::new([2; 32]), Pubkey::new([5; 32]));
    assert_eq!(pair.next_sequence(), Ok(0));
    assert_eq!(pair.investment_counter, 1);
    pair.investment_counter = u64::MAX;
    assert_eq!(pair.next_sequence(), Err(CustomError::InvestmentCounterOverflow));
    assert_eq!(pair.investment_counter, u64::MAX);
}

#[test]
fn keys_compare_bytewise() {
    let mut b = [7u8; 32];
    let a = Pubkey::new(b);
    b[31] = 8;
    let c = Pubkey::new(b);
    assert!(a.same_as(&a));
    assert!(!a.same_as(&c));
    assert!(a != c);
    assert_eq!(a.to_bytes(), [7u8; 32]);
    assert!(Pubkey::unset().is_unset());
    let mut z = [0u8; 32];
    z[17] = 1;
    assert!(!Pubkey::new(z).is_unset());
}

#[test]
fn error_messages() {
    assert_eq!(CustomError::InvalidAmount.message(), "Invalid amount");
    assert_eq!(CustomError::InsufficientFunds.message(), "Insufficient funds");
    assert_eq!(CustomError::InvestmentCounterOverflow.message(), "Investment counter overflow");
    assert_eq!(CustomError::InvalidInvestmentStatus.message(), "Invalid investment status");
}
