use canadianreitinvest::custody::TokenTransfer;
use canadianreitinvest::errors::CustomError;
use canadianreitinvest::guard::{is_admin, is_owner};
use canadianreitinvest::instructions::close_investor::{self, CloseInvestor};
use canadianreitinvest::instructions::create_mint::{self, CreateMint};
use canadianreitinvest::instructions::create_reit_mint::{self, CreateReitMint};
use canadianreitinvest::instructions::initialize::{self, InitializeFundraiser};
use canadianreitinvest::instructions::initialize_investor::{self, InitializeInvestor};
use canadianreitinvest::instructions::invest::{self, Invest};
use canadianreitinvest::instructions::issue_dividend::{self, DividendIssued, IssueDividend};
use canadianreitinvest::instructions::issue_share::{self, IssueShare};
use canadianreitinvest::instructions::refund::{self, Refund};
use canadianreitinvest::instructions::release::{self, Release};
use canadianreitinvest::instructions::update_reit_mint::{self, UpdateReitMint};
use canadianreitinvest::instructions::wire::{self, Wire};
use canadianreitinvest::pubkey::Pubkey;
use canadianreitinvest::state::{Fundraiser, Investment, InvestmentStatus, Investor};

fn key(b: u8) -> Pubkey {
    Pubkey::new([b; 32])
}

fn fundraiser() -> Fundraiser {
    let mut f = Fundraiser::new(key(1), key(4), key(3));
    f.reit_mint = key(6);
    f
}

fn investment(status: InvestmentStatus) -> Investment {
    Investment {
        investor: key(2),
        fundraiser: key(5),
        usdc_amount: 250_000_000,
        reit_amount: 0,
        status,
        sequence_index: 0,
    }
}

fn invest_ctx() -> Invest {
    Invest {
        investor_signer: key(2),
        investor: Investor::new(Pubkey::unset()),
        fundraiser_key: key(5),
        fundraiser: fundraiser(),
        investment: Investment::empty(),
        usdc_mint: key(4),
        escrow_vault: key(3),
    }
}

fn release_ctx() -> Release {
    Release {
        admin: key(1),
        fundraiser_key: key(5),
        fundraiser: fundraiser(),
        investment: investment(InvestmentStatus::Pending),
        usdc_mint: key(4),
        escrow_vault: key(3),
    }
}

fn dividend_ctx() -> IssueDividend {
    IssueDividend {
        admin: key(1),
        investment_key: key(9),
        investment: investment(InvestmentStatus::ShareIssued),
        investor: key(2),
        fundraiser_key: key(5),
        fundraiser: fundraiser(),
        usdc_mint: key(4),
    }
}

#[test]
fn invest_creates_investor_record_on_first_use() {
    let mut ctx = invest_ctx();
    let t = invest::handler(&mut ctx, 40).unwrap();
    assert_eq!(ctx.investor.investor_pubkey, key(2));
    assert_eq!(ctx.investor.investment_counter, 1);
    assert_eq!(ctx.investment.sequence_index, 0);
    assert_eq!(ctx.investment.investor, key(2));
    assert_eq!(ctx.investment.fundraiser, key(5));
    assert_eq!(ctx.investment.usdc_amount, 40);
    assert_eq!(ctx.fundraiser.total_raised, 40);
    assert_eq!(
        t,
        TokenTransfer { mint: key(4), source: key(2), destination: key(3), authority: key(2), amount: 40 }
    );
}

#[test]
fn invest_uses_existing_counter() {
    let mut ctx = invest_ctx();
    ctx.investor = Investor { investor_pubkey: key(2), investment_counter: 7 };
    invest::handler(&mut ctx, 1).unwrap();
    assert_eq!(ctx.investment.sequence_index, 7);
    assert_eq!(ctx.investor.investment_counter, 8);
}

#[test]
fn invest_rejects_each_rule() {
    let mut ctx = invest_ctx();
    ctx.fundraiser.escrow_vault = Pubkey::unset();
    let before = ctx;
    assert_eq!(invest::handler(&mut ctx, 1), Err(CustomError::EscrowNotInitialized));
    assert_eq!(ctx.fundraiser, before.fundraiser);

    let mut ctx = invest_ctx();
    ctx.usdc_mint = key(40);
    assert_eq!(invest::handler(&mut ctx, 1), Err(CustomError::InvalidMint));

    let mut ctx = invest_ctx();
    ctx.escrow_vault = key(30);
    assert_eq!(invest::handler(&mut ctx, 1), Err(CustomError::InvalidAuthority));

    let mut ctx = invest_ctx();
    ctx.investor = Investor::new(key(20));
    assert_eq!(invest::handler(&mut ctx, 1), Err(CustomError::InvalidAuthority));

    let mut ctx = invest_ctx();
    ctx.investor = Investor { investor_pubkey: key(2), investment_counter: u64::MAX };
    assert_eq!(invest::handler(&mut ctx, 1), Err(CustomError::InvestmentCounterOverflow));
    assert_eq!(ctx.investor.investment_counter, u64::MAX);
    assert_eq!(ctx.fundraiser.total_raised, 0);

    let mut ctx = invest_ctx();
    ctx.fundraiser.investment_counter = u64::MAX;
    assert_eq!(invest::handler(&mut ctx, 1), Err(CustomError::InvestmentCounterOverflow));

    let mut ctx = invest_ctx();
    ctx.fundraiser.total_raised = u64::MAX - 5;
    assert_eq!(invest::handler(&mut ctx, 6), Err(CustomError::ArithmeticOverflow));
    assert_eq!(ctx.fundraiser.total_raised, u64::MAX - 5);
    assert!(ctx.investor.investor_pubkey.is_unset());

    let mut ctx = invest_ctx();
    assert_eq!(invest::handler(&mut ctx, 0), Err(CustomError::InvalidAmount));
}

#[test]
fn release_counts_the_deposit() {
    let mut ctx = release_ctx();
    let t = release::handler(&mut ctx).unwrap();
    assert_eq!(ctx.investment.status, InvestmentStatus::Released);
    assert_eq!(ctx.fundraiser.released_amount, 250_000_000);
    assert_eq!(
        t,
        TokenTransfer {
            mint: key(4),
            source: key(3),
            destination: key(1),
            authority: key(5),
            amount: 250_000_000
        }
    );
}

#[test]
fn release_rejects_each_rule() {
    let mut ctx = release_ctx();
    ctx.admin = key(2);
    assert_eq!(release::handler(&mut ctx), Err(CustomError::InvalidAuthority));

    let mut ctx = release_ctx();
    ctx.fundraiser_key = key(50);
    assert_eq!(release::handler(&mut ctx), Err(CustomError::InvalidFundraiserMismatch));

    let mut ctx = release_ctx();
    ctx.usdc_mint = key(40);
    assert_eq!(release::handler(&mut ctx), Err(CustomError::InvalidMint));

    let mut ctx = release_ctx();
    ctx.fundraiser.escrow_vault = Pubkey::unset();
    assert_eq!(release::handler(&mut ctx), Err(CustomError::EscrowNotInitialized));

    let mut ctx = release_ctx();
    ctx.escrow_vault = key(30);
    assert_eq!(release::handler(&mut ctx), Err(CustomError::InvalidAuthority));

    let mut ctx = release_ctx();
    ctx.fundraiser.released_amount = u64::MAX;
    assert_eq!(release::handler(&mut ctx), Err(CustomError::ArithmeticOverflow));
    assert_eq!(ctx.investment.status, InvestmentStatus::Pending);
    assert_eq!(ctx.fundraiser.released_amount, u64::MAX);
}

#[test]
fn wire_moves_released_to_wired() {
    let mut ctx = Wire {
        admin: key(1),
        fundraiser_key: key(5),
        fundraiser: fundraiser(),
        investment: investment(InvestmentStatus::Released),
    };
    assert_eq!(wire::handler(&mut ctx), Ok(()));
    assert_eq!(ctx.investment.status, InvestmentStatus::Wired);
    assert_eq!(wire::handler(&mut ctx), Err(CustomError::InvalidInvestmentStatus));
    assert_eq!(ctx.investment.status, InvestmentStatus::Wired);
}

#[test]
fn issue_share_rejects_each_rule() {
    let ctx0 = IssueShare {
        admin: key(1),
        fundraiser_key: key(5),
        fundraiser: fundraiser(),
        investment: investment(InvestmentStatus::Wired),
        investor_wallet: key(2),
        reit_mint: key(6),
    };
    let mut ctx = ctx0;
    ctx.investor_wallet = key(20);
    assert_eq!(issue_share::handler(&mut ctx, key(2), 10), Err(CustomError::InvalidAuthority));
    let mut ctx = ctx0;
    ctx.investor_wallet = key(20);
    assert_eq!(issue_share::handler(&mut ctx, key(20), 10), Err(CustomError::InvalidAuthority));
    let mut ctx = ctx0;
    ctx.reit_mint = key(60);
    assert_eq!(issue_share::handler(&mut ctx, key(2), 10), Err(CustomError::InvalidMint));
    let mut ctx = ctx0;
    assert_eq!(issue_share::handler(&mut ctx, key(2), 0), Err(CustomError::InvalidAmount));
    assert_eq!(ctx.investment, ctx0.investment);
    assert_eq!(ctx.fundraiser, ctx0.fundraiser);
    let mut ctx = ctx0;
    let m = issue_share::handler(&mut ctx, key(2), 300_000_000).unwrap();
    assert_eq!(m.amount, 0);
    assert_eq!(ctx.investment.reit_amount, 0);
    assert_eq!(ctx.investment.status, InvestmentStatus::ShareIssued);
}

#[test]
fn refund_checks_destination() {
    let mut ctx = Refund {
        admin: key(1),
        fundraiser_key: key(5),
        fundraiser: fundraiser(),
        investment: investment(InvestmentStatus::Released),
        investor: key(20),
        usdc_mint: key(4),
    };
    assert_eq!(refund::handler(&mut ctx), Err(CustomError::InvalidAuthority));
    ctx.investor = key(2);
    ctx.usdc_mint = key(40);
    assert_eq!(refund::handler(&mut ctx), Err(CustomError::InvalidMint));
    assert_eq!(ctx.investment.status, InvestmentStatus::Released);
    ctx.usdc_mint = key(4);
    let t = refund::handler(&mut ctx).unwrap();
    assert_eq!(t.destination, key(2));
    assert_eq!(t.amount, 250_000_000);
    assert_eq!(ctx.investment.status, InvestmentStatus::Refunded);
}

#[test]
fn dividend_pays_investor_and_records_event() {
    let ctx = dividend_ctx();
    let (t, ev) = issue_dividend::handler(&ctx, 12_345, 1_700_000_000).unwrap();
    assert_eq!(
        t,
        TokenTransfer { mint: key(4), source: key(1), destination: key(2), authority: key(1), amount: 12_345 }
    );
    assert_eq!(
        ev,
        DividendIssued {
            investment: key(9),
            investor: key(2),
            fundraiser: key(5),
            amount: 12_345,
            timestamp: 1_700_000_000
        }
    );
}

#[test]
fn dividend_rejects_each_rule() {
    let mut ctx = dividend_ctx();
    ctx.admin = key(2);
    assert_eq!(issue_dividend::handler(&ctx, 1, 0), Err(CustomError::InvalidAuthority));
    let mut ctx = dividend_ctx();
    ctx.fundraiser_key = key(50);
    assert_eq!(issue_dividend::handler(&ctx, 1, 0), Err(CustomError::InvalidFundraiserMismatch));
    let mut ctx = dividend_ctx();
    ctx.investment.status = InvestmentStatus::Wired;
    assert_eq!(issue_dividend::handler(&ctx, 1, 0), Err(CustomError::InvalidInvestmentStatus));
    let mut ctx = dividend_ctx();
    ctx.investor = key(20);
    assert_eq!(issue_dividend::handler(&ctx, 1, 0), Err(CustomError::InvalidAuthority));
    let mut ctx = dividend_ctx();
    ctx.usdc_mint = key(40);
    assert_eq!(issue_dividend::handler(&ctx, 1, 0), Err(CustomError::InvalidMint));
}

#[test]
fn share_asset_binding_is_admin_only() {
    let mut ctx = CreateMint { admin: key(2), fundraiser: Fundraiser::new(key(1), key(4), key(3)), reit_mint: key(6) };
    assert_eq!(create_mint::handler(&mut ctx, 100), Err(CustomError::InvalidAuthority));
    assert!(ctx.fundraiser.reit_mint.is_unset());
    ctx.admin = key(1);
    assert_eq!(create_mint::handler(&mut ctx, 100), Ok(()));
    assert_eq!(ctx.fundraiser.reit_mint, key(6));
    assert_eq!(ctx.fundraiser.share_price, 100);

    let mut ctx = CreateReitMint { admin: key(2), fundraiser: Fundraiser::new(key(1), key(4), key(3)), reit_mint: key(6) };
    assert_eq!(create_reit_mint::handler(&mut ctx), Err(CustomError::InvalidAuthority));
    ctx.admin = key(1);
    assert_eq!(create_reit_mint::handler(&mut ctx), Ok(()));
    assert_eq!(ctx.fundraiser.reit_mint, key(6));

    let ctx = UpdateReitMint { admin: key(1), fundraiser: fundraiser(), reit_mint: key(6) };
    assert_eq!(update_reit_mint::handler(&ctx), Ok(()));
    let ctx = UpdateReitMint { admin: key(1), fundraiser: fundraiser(), reit_mint: key(7) };
    assert_eq!(update_reit_mint::handler(&ctx), Err(CustomError::InvalidMint));
    let ctx = UpdateReitMint { admin: key(2), fundraiser: fundraiser(), reit_mint: key(6) };
    assert_eq!(update_reit_mint::handler(&ctx), Err(CustomError::InvalidAuthority));
}

#[test]
fn setup_handlers_fill_records() {
    let mut ctx = InitializeFundraiser {
        admin: key(1),
        usdc_mint: key(4),
        escrow_vault: key(3),
        fundraiser: fundraiser(),
    };
    initialize::handler(&mut ctx);
    assert_eq!(ctx.fundraiser, Fundraiser::new(key(1), key(4), key(3)));
    assert!(ctx.fundraiser.reit_mint.is_unset());

    let mut ctx = InitializeInvestor { signer: key(2), investor: Investor { investor_pubkey: key(9), investment_counter: 4 } };
    initialize_investor::handler(&mut ctx);
    assert_eq!(ctx.investor, Investor { investor_pubkey: key(2), investment_counter: 0 });

    let ctx = CloseInvestor { signer: key(2), investor: Investor::new(key(2)) };
    assert_eq!(close_investor::handler(&ctx), Ok(()));
    let ctx = CloseInvestor { signer: key(3), investor: Investor::new(key(2)) };
    assert_eq!(close_investor::handler(&ctx), Err(CustomError::InvalidAuthority));
}

#[test]
fn guards_compare_principals() {
    let f = fundraiser();
    assert!(is_admin(&f, &key(1)));
    assert!(!is_admin(&f, &key(2)));
    let i = investment(InvestmentStatus::Pending);
    assert!(is_owner(&i, &key(2)));
    assert!(!is_owner(&i, &key(1)));
}
