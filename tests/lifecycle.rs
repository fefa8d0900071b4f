use canadianreitinvest::errors::{CustomError, ProgramError};
use canadianreitinvest::program::ProgramState;
use canadianreitinvest::pubkey::Pubkey;
use canadianreitinvest::state::InvestmentStatus;

fn key(b: u8) -> Pubkey {
    Pubkey::new([b; 32])
}

const ADMIN: u8 = 1;
const INVESTOR: u8 = 2;
const ESCROW: u8 = 3;
const USDC: u8 = 4;
const CAMPAIGN: u8 = 5;
const SHARES: u8 = 6;

/// A campaign with its share asset bound at a price of 100 currency units.
fn campaign() -> ProgramState {
    let mut st = ProgramState::new();
    st.initialize_fundraiser(key(CAMPAIGN), key(ADMIN), key(USDC), key(ESCROW)).unwrap();
    st.create_mint(key(ADMIN), key(CAMPAIGN), key(SHARES), 100_000_000).unwrap();
    st
}

fn campaign_with_deposit() -> ProgramState {
    let mut st = campaign();
    st.invest(key(INVESTOR), key(CAMPAIGN), 250_000_000).unwrap();
    st
}

#[test]
fn scenario_deposit_is_pending_and_counted() {
    let mut st = campaign();
    let (seq, transfer) = st.invest(key(INVESTOR), key(CAMPAIGN), 250_000_000).unwrap();
    assert_eq!(seq, 0);
    assert_eq!(transfer.source, key(INVESTOR));
    assert_eq!(transfer.destination, key(ESCROW));
    assert_eq!(transfer.authority, key(INVESTOR));
    assert_eq!(transfer.mint, key(USDC));
    assert_eq!(transfer.amount, 250_000_000);
    assert_eq!(st.fundraisers[0].data.total_raised, 250_000_000);
    assert_eq!(st.fundraisers[0].data.investment_counter, 1);
    assert_eq!(st.fundraisers[0].data.share_price, 100_000_000);
    assert_eq!(st.investments.len(), 1);
    assert_eq!(st.investments[0].status, InvestmentStatus::Pending);
    assert_eq!(st.investments[0].usdc_amount, 250_000_000);
    assert_eq!(st.investments[0].reit_amount, 0);
    assert_eq!(st.investors.len(), 1);
    assert_eq!(st.investors[0].investment_counter, 1);
}

#[test]
fn scenario_release_moves_funds_out_of_escrow() {
    let mut st = campaign_with_deposit();
    let transfer = st.release(key(ADMIN), key(INVESTOR), key(CAMPAIGN), 0).unwrap();
    assert_eq!(transfer.source, key(ESCROW));
    assert_eq!(transfer.destination, key(ADMIN));
    assert_eq!(transfer.authority, key(CAMPAIGN));
    assert_eq!(transfer.amount, 250_000_000);
    assert_eq!(st.fundraisers[0].data.released_amount, 250_000_000);
    assert_eq!(st.fundraisers[0].data.total_raised, 250_000_000);
    assert_eq!(st.investments[0].status, InvestmentStatus::Released);
}

#[test]
fn scenario_wire_then_issue_share_floors_the_allocation() {
    let mut st = campaign_with_deposit();
    st.release(key(ADMIN), key(INVESTOR), key(CAMPAIGN), 0).unwrap();
    st.wire(key(ADMIN), key(INVESTOR), key(CAMPAIGN), 0).unwrap();
    assert_eq!(st.investments[0].status, InvestmentStatus::Wired);
    let mint = st.issue_share(key(ADMIN), key(INVESTOR), key(CAMPAIGN), 0, 100_000_000).unwrap();
    assert_eq!(mint.amount, 2);
    assert_eq!(mint.destination, key(INVESTOR));
    assert_eq!(mint.mint, key(SHARES));
    assert_eq!(mint.authority, key(ADMIN));
    assert_eq!(st.investments[0].reit_amount, 2);
    assert_eq!(st.investments[0].status, InvestmentStatus::ShareIssued);
}

#[test]
fn scenario_refund_pays_back_once() {
    let mut st = campaign_with_deposit();
    st.release(key(ADMIN), key(INVESTOR), key(CAMPAIGN), 0).unwrap();
    let transfer = st.refund(key(ADMIN), key(INVESTOR), key(CAMPAIGN), 0).unwrap();
    assert_eq!(transfer.source, key(ADMIN));
    assert_eq!(transfer.destination, key(INVESTOR));
    assert_eq!(transfer.amount, 250_000_000);
    assert_eq!(st.investments[0].status, InvestmentStatus::Refunded);
    // history is kept
    assert_eq!(st.fundraisers[0].data.total_raised, 250_000_000);
    assert_eq!(st.fundraisers[0].data.released_amount, 250_000_000);
    let again = st.refund(key(ADMIN), key(INVESTOR), key(CAMPAIGN), 0);
    assert_eq!(again, Err(ProgramError::Custom(CustomError::InvalidInvestmentStatus)));
    assert_eq!(st.investments[0].status, InvestmentStatus::Refunded);
}

#[test]
fn scenario_zero_deposit_is_refused() {
    let mut st = campaign();
    let r = st.invest(key(INVESTOR), key(CAMPAIGN), 0);
    assert_eq!(r, Err(ProgramError::Custom(CustomError::InvalidAmount)));
    assert_eq!(st.investments.len(), 0);
    assert_eq!(st.investors.len(), 0);
    assert_eq!(st.fundraisers[0].data.investment_counter, 0);
    assert_eq!(st.fundraisers[0].data.total_raised, 0);
}

#[test]
fn released_never_exceeds_raised() {
    let mut st = campaign();
    st.invest(key(INVESTOR), key(CAMPAIGN), 10).unwrap();
    st.invest(key(INVESTOR), key(CAMPAIGN), 20).unwrap();
    st.invest(key(7), key(CAMPAIGN), 30).unwrap();
    for (who, seq) in [(INVESTOR, 0u64), (INVESTOR, 1), (7, 0)] {
        st.release(key(ADMIN), key(who), key(CAMPAIGN), seq).unwrap();
        let f = st.fundraisers[0].data;
        assert!(f.released_amount <= f.total_raised);
    }
    assert_eq!(st.fundraisers[0].data.released_amount, 60);
    assert_eq!(st.fundraisers[0].data.total_raised, 60);
}

#[test]
fn total_raised_is_sum_of_deposits_whatever_the_status() {
    let mut st = campaign();
    st.initialize_fundraiser(key(9), key(ADMIN), key(USDC), key(ESCROW)).unwrap();
    st.invest(key(INVESTOR), key(CAMPAIGN), 5).unwrap();
    st.invest(key(INVESTOR), key(9), 7).unwrap();
    st.invest(key(8), key(CAMPAIGN), 11).unwrap();
    st.release(key(ADMIN), key(INVESTOR), key(CAMPAIGN), 0).unwrap();
    st.refund(key(ADMIN), key(INVESTOR), key(CAMPAIGN), 0).unwrap();
    for e in st.fundraisers.iter() {
        let sum: u64 = st
            .investments
            .iter()
            .filter(|i| i.fundraiser == e.key)
            .map(|i| i.usdc_amount)
            .sum();
        assert_eq!(e.data.total_raised, sum);
    }
    assert_eq!(st.fundraisers[0].data.total_raised, 16);
    assert_eq!(st.fundraisers[1].data.total_raised, 7);
}

#[test]
fn sequence_indices_are_distinct_and_gap_free() {
    let mut st = campaign();
    let mut seen = Vec::new();
    for n in 0..5u64 {
        let (seq, _) = st.invest(key(INVESTOR), key(CAMPAIGN), 1 + n).unwrap();
        assert!(!seen.contains(&seq));
        seen.push(seq);
    }
    assert_eq!(seen, vec![0, 1, 2, 3, 4]);
    assert_eq!(st.investors[0].investment_counter, 5);
    for i in 0..st.investments.len() {
        for j in 0..st.investments.len() {
            if i != j {
                assert_ne!(st.investments[i].sequence_index, st.investments[j].sequence_index);
            }
        }
    }
}

#[test]
fn wrong_status_is_refused_without_change() {
    let mut st = campaign_with_deposit();
    let before = st.investments[0];
    assert_eq!(
        st.wire(key(ADMIN), key(INVESTOR), key(CAMPAIGN), 0),
        Err(ProgramError::Custom(CustomError::InvalidInvestmentStatus))
    );
    assert_eq!(
        st.refund(key(ADMIN), key(INVESTOR), key(CAMPAIGN), 0),
        Err(ProgramError::Custom(CustomError::InvalidInvestmentStatus))
    );
    assert_eq!(
        st.issue_share(key(ADMIN), key(INVESTOR), key(CAMPAIGN), 0, 100_000_000),
        Err(ProgramError::Custom(CustomError::InvalidInvestmentStatus))
    );
    assert_eq!(st.investments[0], before);
    st.release(key(ADMIN), key(INVESTOR), key(CAMPAIGN), 0).unwrap();
    assert_eq!(
        st.release(key(ADMIN), key(INVESTOR), key(CAMPAIGN), 0),
        Err(ProgramError::Custom(CustomError::InvalidInvestmentStatus))
    );
    assert_eq!(st.fundraisers[0].data.released_amount, 250_000_000);
}

#[test]
fn non_admin_is_refused_without_change() {
    let mut st = campaign_with_deposit();
    let intruder = key(INVESTOR);
    let fundraiser = st.fundraisers[0];
    let investment = st.investments[0];
    assert_eq!(
        st.release(intruder, key(INVESTOR), key(CAMPAIGN), 0),
        Err(ProgramError::Custom(CustomError::InvalidAuthority))
    );
    assert_eq!(
        st.wire(intruder, key(INVESTOR), key(CAMPAIGN), 0),
        Err(ProgramError::Custom(CustomError::InvalidAuthority))
    );
    assert_eq!(
        st.refund(intruder, key(INVESTOR), key(CAMPAIGN), 0),
        Err(ProgramError::Custom(CustomError::InvalidAuthority))
    );
    assert_eq!(
        st.issue_share(intruder, key(INVESTOR), key(CAMPAIGN), 0, 1),
        Err(ProgramError::Custom(CustomError::InvalidAuthority))
    );
    assert_eq!(
        st.create_mint(intruder, key(CAMPAIGN), key(99), 1),
        Err(ProgramError::Custom(CustomError::InvalidAuthority))
    );
    assert_eq!(st.fundraisers[0], fundraiser);
    assert_eq!(st.investments[0], investment);
}

#[test]
fn raised_total_overflow_is_refused_without_change() {
    let mut st = campaign();
    st.invest(key(INVESTOR), key(CAMPAIGN), u64::MAX).unwrap();
    let r = st.invest(key(INVESTOR), key(CAMPAIGN), 1);
    assert_eq!(r, Err(ProgramError::Custom(CustomError::ArithmeticOverflow)));
    assert_eq!(st.fundraisers[0].data.total_raised, u64::MAX);
    assert_eq!(st.investors[0].investment_counter, 1);
    assert_eq!(st.investments.len(), 1);
}

#[test]
fn missing_records_give_account_not_found() {
    let mut st = campaign();
    assert_eq!(st.invest(key(INVESTOR), key(77), 1), Err(ProgramError::AccountNotFound));
    assert_eq!(
        st.release(key(ADMIN), key(INVESTOR), key(CAMPAIGN), 0),
        Err(ProgramError::AccountNotFound)
    );
    assert_eq!(st.close_investor(key(INVESTOR)), Err(ProgramError::AccountNotFound));
    assert_eq!(st.create_mint(key(ADMIN), key(77), key(SHARES), 1), Err(ProgramError::AccountNotFound));
}

#[test]
fn duplicate_records_are_refused() {
    let mut st = campaign();
    assert_eq!(
        st.initialize_fundraiser(key(CAMPAIGN), key(8), key(USDC), key(ESCROW)),
        Err(ProgramError::AccountAlreadyInUse)
    );
    st.initialize_investor(key(INVESTOR)).unwrap();
    assert_eq!(st.initialize_investor(key(INVESTOR)), Err(ProgramError::AccountAlreadyInUse));
    assert_eq!(st.investors.len(), 1);
    assert_eq!(st.fundraisers.len(), 1);
}

#[test]
fn reopened_investor_cannot_overwrite_an_investment() {
    let mut st = campaign_with_deposit();
    st.close_investor(key(INVESTOR)).unwrap();
    assert_eq!(st.investors.len(), 0);
    assert_eq!(st.investments.len(), 1);
    let r = st.invest(key(INVESTOR), key(CAMPAIGN), 5);
    assert_eq!(r, Err(ProgramError::AccountAlreadyInUse));
    assert_eq!(st.investments.len(), 1);
    assert_eq!(st.investments[0].usdc_amount, 250_000_000);
    assert_eq!(st.fundraisers[0].data.total_raised, 250_000_000);
}

#[test]
fn registered_investor_keeps_counter_across_fundraisers() {
    let mut st = campaign();
    st.initialize_fundraiser(key(9), key(ADMIN), key(USDC), key(ESCROW)).unwrap();
    st.initialize_investor(key(INVESTOR)).unwrap();
    assert_eq!(st.investors[0].investment_counter, 0);
    let (a, _) = st.invest(key(INVESTOR), key(CAMPAIGN), 1).unwrap();
    let (b, _) = st.invest(key(INVESTOR), key(9), 1).unwrap();
    assert_eq!((a, b), (0, 1));
    assert_eq!(st.fundraisers[0].data.investment_counter, 1);
    assert_eq!(st.fundraisers[1].data.investment_counter, 1);
}

#[test]
fn issue_share_without_share_asset_is_refused() {
    let mut st = ProgramState::new();
    st.initialize_fundraiser(key(CAMPAIGN), key(ADMIN), key(USDC), key(ESCROW)).unwrap();
    st.invest(key(INVESTOR), key(CAMPAIGN), 300).unwrap();
    st.release(key(ADMIN), key(INVESTOR), key(CAMPAIGN), 0).unwrap();
    st.wire(key(ADMIN), key(INVESTOR), key(CAMPAIGN), 0).unwrap();
    assert_eq!(
        st.issue_share(key(ADMIN), key(INVESTOR), key(CAMPAIGN), 0, 100),
        Err(ProgramError::Custom(CustomError::InvalidMint))
    );
    assert_eq!(st.investments[0].status, InvestmentStatus::Wired);
}

#[test]
fn new_fundraiser_starts_empty() {
    let mut st = ProgramState::new();
    st.initialize_fundraiser(key(CAMPAIGN), key(ADMIN), key(USDC), key(ESCROW)).unwrap();
    let f = st.fundraisers[0].data;
    assert_eq!(f.admin, key(ADMIN));
    assert_eq!(f.usdc_mint, key(USDC));
    assert_eq!(f.escrow_vault, key(ESCROW));
    assert!(f.reit_mint.is_unset());
    assert_eq!(f.total_raised, 0);
    assert_eq!(f.released_amount, 0);
    assert_eq!(f.investment_counter, 0);
    assert_eq!(&f.reit_accepted_currency, b"CAD");
}
