use vstd::prelude::*;

use crate::errors::CustomError;
use crate::instructions::invest::{invest_error, investor_record, Invest};
use crate::instructions::issue_dividend::{issue_dividend_error, IssueDividend};
use crate::instructions::issue_share::{issue_share_error, IssueShare};
use crate::instructions::refund::{refund_error, Refund};
use crate::instructions::release::{release_error, Release};
use crate::instructions::update_reit_mint::{update_reit_mint_error, UpdateReitMint};
use crate::instructions::wire::{wire_error, Wire};
use crate::program::{deposit_step, same_address, ProgramState};
use crate::pubkey::Pubkey;
use crate::state::InvestmentStatus;
use crate::totals::{lemma_released_le_raised, raised};

verus! {

/// In a well-formed table every fundraiser has released no more than it has
/// raised.
pub proof fn lemma_released_within_raised(state: ProgramState)
    requires
        state.wf(),
    ensures
        forall|i: int|
            0 <= i < state.fundraisers@.len() ==> #[trigger] state.fundraisers@[i].data.released_amount
                <= state.fundraisers@[i].data.total_raised,
{
    assert forall|i: int| 0 <= i < state.fundraisers@.len() implies #[trigger] state.fundraisers@[i].data.released_amount
        <= state.fundraisers@[i].data.total_raised by {
        lemma_released_le_raised(state.investments@, state.fundraisers@[i].key);
    }
}

/// In a well-formed table a fundraiser's `total_raised` is the sum of the
/// deposits of every investment created under it, whatever their status.
pub proof fn lemma_total_raised_is_sum_of_deposits(state: ProgramState, k: Pubkey)
    requires
        state.wf(),
        state.has_fundraiser(k),
    ensures
        state.fundraiser_at(k).total_raised == raised(state.investments@, k),
{
    let i = state.fundraiser_index(k);
    assert(state.fundraisers@[i].key == k);
}

/// In a well-formed table no two investments of one investor under one
/// fundraiser share a sequence index.
pub proof fn lemma_sequence_indices_unique(state: ProgramState, i: int, j: int)
    requires
        state.wf(),
        0 <= i < state.investments@.len(),
        0 <= j < state.investments@.len(),
        i != j,
        state.investments@[i].investor == state.investments@[j].investor,
        state.investments@[i].fundraiser == state.investments@[j].fundraiser,
    ensures
        state.investments@[i].sequence_index != state.investments@[j].sequence_index,
{
    assert(!same_address(state.investments@[i], state.investments@[j]));
}

/// A run of accepted deposits of one investor receives consecutive sequence
/// indices, so no index repeats, and advances the investor's counter by exactly
/// the number of deposits.
pub proof fn lemma_deposits_take_distinct_indices(
    states: Seq<ProgramState>,
    indices: Seq<u64>,
    investor: Pubkey,
)
    requires
        states.len() == indices.len() + 1,
        forall|n: int|
            0 <= n < indices.len() ==> deposit_step(
                #[trigger] states[n],
                states[n + 1],
                investor,
                indices[n],
            ),
    ensures
        forall|a: int, b: int|
            0 <= a < b < indices.len() ==> #[trigger] indices[a] < #[trigger] indices[b],
        states.last().sequence_of(investor) == states[0].sequence_of(investor) + indices.len(),
{
    let c0 = states[0].sequence_of(investor) as int;
    assert forall|n: int| 0 <= n <= indices.len() implies #[trigger] states[n].sequence_of(investor)
        == c0 + n by {
        lemma_counter_after(states, indices, investor, n);
    }
    assert forall|a: int, b: int| 0 <= a < b < indices.len() implies #[trigger] indices[a]
        < #[trigger] indices[b] by {
        assert(deposit_step(states[a], states[a + 1], investor, indices[a]));
        assert(deposit_step(states[b], states[b + 1], investor, indices[b]));
        assert(states[a].sequence_of(investor) == c0 + a);
        assert(states[b].sequence_of(investor) == c0 + b);
    }
    assert(states.last() == states[indices.len() as int]);
}

proof fn lemma_counter_after(states: Seq<ProgramState>, indices: Seq<u64>, investor: Pubkey, n: int)
    requires
        states.len() == indices.len() + 1,
        0 <= n <= indices.len(),
        forall|m: int|
            0 <= m < indices.len() ==> deposit_step(
                #[trigger] states[m],
                states[m + 1],
                investor,
                indices[m],
            ),
    ensures
        states[n].sequence_of(investor) == states[0].sequence_of(investor) + n,
    decreases n,
{
    if n > 0 {
        lemma_counter_after(states, indices, investor, n - 1);
        assert(deposit_step(states[n - 1], states[n], investor, indices[n - 1]));
    }
}

/// When the administrator acts on an investment of the right fundraiser whose
/// status is not the one the operation requires, the operation is refused with
/// `InvalidInvestmentStatus` (and, by the operations' contracts, changes
/// nothing).
pub proof fn lemma_wrong_status_is_refused()
    ensures
        forall|c: Release|
            c.admin == c.fundraiser.admin && c.investment.fundraiser == c.fundraiser_key
                && c.investment.status != InvestmentStatus::Pending ==> #[trigger] release_error(c)
                == Some(CustomError::InvalidInvestmentStatus),
        forall|c: Wire|
            c.admin == c.fundraiser.admin && c.investment.fundraiser == c.fundraiser_key
                && c.investment.status != InvestmentStatus::Released ==> #[trigger] wire_error(c)
                == Some(CustomError::InvalidInvestmentStatus),
        forall|c: IssueShare, p: Pubkey, price: u64|
            c.admin == c.fundraiser.admin && c.investment.fundraiser == c.fundraiser_key
                && c.investment.status != InvestmentStatus::Wired ==> #[trigger] issue_share_error(
                c,
                p,
                price,
            ) == Some(CustomError::InvalidInvestmentStatus),
        forall|c: Refund|
            c.admin == c.fundraiser.admin && c.investment.fundraiser == c.fundraiser_key
                && c.investment.status != InvestmentStatus::Released ==> #[trigger] refund_error(c)
                == Some(CustomError::InvalidInvestmentStatus),
        forall|c: IssueDividend|
            c.admin == c.fundraiser.admin && c.investment.fundraiser == c.fundraiser_key
                && c.investment.status != InvestmentStatus::ShareIssued
                ==> #[trigger] issue_dividend_error(c) == Some(CustomError::InvalidInvestmentStatus),
{
}

/// Every administrator-gated operation invoked by anyone but the fundraiser's
/// administrator is refused with `InvalidAuthority` (and, by the operations'
/// contracts, changes nothing).
pub proof fn lemma_non_admin_is_refused()
    ensures
        forall|c: Release| c.admin != c.fundraiser.admin ==> #[trigger] release_error(c) == Some(
            CustomError::InvalidAuthority,
        ),
        forall|c: Wire| c.admin != c.fundraiser.admin ==> #[trigger] wire_error(c) == Some(
            CustomError::InvalidAuthority,
        ),
        forall|c: IssueShare, p: Pubkey, price: u64|
            c.admin != c.fundraiser.admin ==> #[trigger] issue_share_error(c, p, price) == Some(
                CustomError::InvalidAuthority,
            ),
        forall|c: Refund| c.admin != c.fundraiser.admin ==> #[trigger] refund_error(c) == Some(
            CustomError::InvalidAuthority,
        ),
        forall|c: IssueDividend|
            c.admin != c.fundraiser.admin ==> #[trigger] issue_dividend_error(c) == Some(
                CustomError::InvalidAuthority,
            ),
        forall|c: UpdateReitMint|
            c.admin != c.fundraiser.admin ==> #[trigger] update_reit_mint_error(c) == Some(
                CustomError::InvalidAuthority,
            ),
{
}

/// A deposit or a release that would carry a counter or a balance past its
/// largest value is refused with the matching overflow error once every earlier
/// rule has passed (and, by the operations' contracts, changes nothing).
pub proof fn lemma_overflow_is_refused()
    ensures
        forall|c: Invest, amount: u64|
            amount > 0 && !c.fundraiser.escrow_vault.is_unset_spec() && c.usdc_mint
                == c.fundraiser.usdc_mint && c.escrow_vault == c.fundraiser.escrow_vault
                && investor_record(c).investor_pubkey == c.investor_signer ==> {
                &&& investor_record(c).investment_counter == u64::MAX ==> #[trigger] invest_error(
                    c,
                    amount,
                ) == Some(CustomError::InvestmentCounterOverflow)
                &&& c.fundraiser.investment_counter == u64::MAX ==> invest_error(c, amount) == Some(
                    CustomError::InvestmentCounterOverflow,
                )
                &&& investor_record(c).investment_counter < u64::MAX
                    && c.fundraiser.investment_counter < u64::MAX && c.fundraiser.total_raised
                    + amount > u64::MAX ==> invest_error(c, amount) == Some(
                    CustomError::ArithmeticOverflow,
                )
            },
        forall|c: Release|
            c.admin == c.fundraiser.admin && c.investment.fundraiser == c.fundraiser_key
                && c.investment.status == InvestmentStatus::Pending && c.usdc_mint
                == c.fundraiser.usdc_mint && !c.fundraiser.escrow_vault.is_unset_spec()
                && c.escrow_vault == c.fundraiser.escrow_vault && c.fundraiser.released_amount
                + c.investment.usdc_amount > u64::MAX ==> #[trigger] release_error(c) == Some(
                CustomError::ArithmeticOverflow,
            ),
{
}

} // verus!
