use vstd::prelude::*;

pub mod close_investor;
pub mod create_mint;
pub mod create_reit_mint;
pub mod initialize;
pub mod initialize_investor;
pub mod invest;
pub mod issue_dividend;
pub mod issue_share;
pub mod refund;
pub mod release;
pub mod update_reit_mint;
pub mod wire;

verus! {

} // verus!
