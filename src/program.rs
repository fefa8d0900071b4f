use vstd::prelude::*;

use crate::custody::{ShareMint, TokenTransfer};
use crate::errors::{CustomError, ProgramError};
use crate::instructions::issue_share::{self, issue_share_error, shares_for, IssueShare};
use crate::instructions::refund::{self, refund_error, refund_transfer, Refund};
use crate::instructions::release::{self, release_effect, release_error, release_transfer, Release};
use crate::instructions::wire::{self, wire_error, Wire};
use crate::instructions::close_investor::{self, CloseInvestor};
use crate::instructions::create_mint::{self, CreateMint};
use crate::instructions::initialize::{self, InitializeFundraiser};
use crate::instructions::initialize_investor::{self, InitializeInvestor};
use crate::instructions::invest::{self, invest_effect, invest_error, invest_transfer, Invest};
use crate::pubkey::Pubkey;
use crate::state::{Fundraiser, Investment, InvestmentStatus, Investor};
use crate::totals::{
    created, deposit, lemma_total_gap, lemma_total_none, lemma_totals_push, lemma_totals_update,
    one, raised, released, released_under, share_of, under,
};

verus! {

/// A fundraiser record and the address it is stored under.
#[derive(Clone, Copy, Debug, PartialEq, Eq)]
pub struct FundraiserEntry {
    pub key: Pubkey,
    pub data: Fundraiser,
}

/// Two investment records claim the same address: same investor, same
/// fundraiser, same sequence index.
pub open spec fn same_address(a: Investment, b: Investment) -> bool {
    a.investor == b.investor && a.fundraiser == b.fundraiser && a.sequence_index == b.sequence_index
}

/// One accepted deposit of `investor`, taking sequence index `seq`, leads from
/// `pre` to `post`.
pub open spec fn deposit_step(pre: ProgramState, post: ProgramState, investor: Pubkey, seq: u64) -> bool {
    seq == pre.sequence_of(investor) && post.sequence_of(investor) == seq + 1
}

/// Every record of the campaign platform, looked up by address.
///
/// Investments are never removed; investor records may be closed.
pub struct ProgramState {
    pub fundraisers: Vec<FundraiserEntry>,
    pub investors: Vec<Investor>,
    pub investments: Vec<Investment>,
}

impl ProgramState {
    pub open spec fn fundraiser_keys_unique(self) -> bool {
        forall|i: int, j: int|
            0 <= i < self.fundraisers@.len() && 0 <= j < self.fundraisers@.len() && i != j
                ==> #[trigger] self.fundraisers@[i].key != #[trigger] self.fundraisers@[j].key
    }

    pub open spec fn investor_keys_unique(self) -> bool {
        forall|i: int, j: int|
            0 <= i < self.investors@.len() && 0 <= j < self.investors@.len() && i != j
                ==> #[trigger] self.investors@[i].investor_pubkey
                != #[trigger] self.investors@[j].investor_pubkey
    }

    /// No two investment records share an address.
    pub open spec fn addresses_unique(self) -> bool {
        forall|i: int, j: int|
            0 <= i < self.investments@.len() && 0 <= j < self.investments@.len() && i != j
                ==> !same_address(#[trigger] self.investments@[i], #[trigger] self.investments@[j])
    }

    pub open spec fn has_fundraiser(self, k: Pubkey) -> bool {
        exists|i: int| 0 <= i < self.fundraisers@.len() && #[trigger] self.fundraisers@[i].key == k
    }

    pub open spec fn fundraiser_index(self, k: Pubkey) -> int {
        choose|i: int| 0 <= i < self.fundraisers@.len() && #[trigger] self.fundraisers@[i].key == k
    }

    pub open spec fn has_investor(self, p: Pubkey) -> bool {
        exists|i: int|
            0 <= i < self.investors@.len() && #[trigger] self.investors@[i].investor_pubkey == p
    }

    pub open spec fn investor_index(self, p: Pubkey) -> int {
        choose|i: int|
            0 <= i < self.investors@.len() && #[trigger] self.investors@[i].investor_pubkey == p
    }

    /// The registry record of `p`, as a first deposit would create it if there
    /// is none.
    pub open spec fn investor_or_new(self, p: Pubkey) -> Investor {
        if self.has_investor(p) {
            self.investors@[self.investor_index(p)]
        } else {
            Investor::initial(p)
        }
    }

    /// The sequence index that the next deposit of `p` receives: the counter of
    /// its registry record, zero if it has none.
    pub open spec fn sequence_of(self, p: Pubkey) -> u64 {
        self.investor_or_new(p).investment_counter
    }

    pub open spec fn at_address(x: Investment, investor: Pubkey, k: Pubkey, seq: u64) -> bool {
        x.investor == investor && x.fundraiser == k && x.sequence_index == seq
    }

    pub open spec fn has_investment(self, investor: Pubkey, k: Pubkey, seq: u64) -> bool {
        exists|i: int|
            0 <= i < self.investments@.len() && Self::at_address(
                #[trigger] self.investments@[i],
                investor,
                k,
                seq,
            )
    }

    pub open spec fn investment_index(self, investor: Pubkey, k: Pubkey, seq: u64) -> int {
        choose|i: int|
            0 <= i < self.investments@.len() && Self::at_address(
                #[trigger] self.investments@[i],
                investor,
                k,
                seq,
            )
    }

    /// Every investment belongs to a fundraiser of the table.
    pub open spec fn owners_present(self) -> bool {
        forall|i: int|
            0 <= i < self.investments@.len() ==> self.has_fundraiser(
                #[trigger] self.investments@[i].fundraiser,
            )
    }

    /// Each fundraiser's aggregates agree with the investments created under it:
    /// `total_raised` is the sum of all their deposits, `released_amount` the sum
    /// of the released ones, `investment_counter` their number.
    pub open spec fn ledgers_agree(self) -> bool {
        forall|i: int|
            0 <= i < self.fundraisers@.len() ==> {
                let e = #[trigger] self.fundraisers@[i];
                &&& e.data.total_raised == raised(self.investments@, e.key)
                &&& e.data.released_amount == released(self.investments@, e.key)
                &&& e.data.investment_counter == created(self.investments@, e.key)
            }
    }

    pub open spec fn wf(self) -> bool {
        &&& self.fundraiser_keys_unique()
        &&& self.investor_keys_unique()
        &&& self.addresses_unique()
        &&& self.owners_present()
        &&& self.ledgers_agree()
    }

    /// An empty table.
    pub fn new() -> (r: ProgramState)
        ensures
            r.wf(),
            r.fundraisers@.len() == 0,
            r.investors@.len() == 0,
            r.investments@.len() == 0,
    {
        ProgramState { fundraisers: Vec::new(), investors: Vec::new(), investments: Vec::new() }
    }

    fn find_fundraiser(&self, k: &Pubkey) -> (r: Option<usize>)
        requires
            self.fundraiser_keys_unique(),
        ensures
            r is None <==> !self.has_fundraiser(*k),
            r matches Some(i) ==> i == self.fundraiser_index(*k) && self.fundraisers@[i as int].key
                == *k,
    {
        let mut i: usize = 0;
        while i < self.fundraisers.len()
            invariant
                i <= self.fundraisers@.len(),
                self.fundraiser_keys_unique(),
                forall|j: int| 0 <= j < i ==> #[trigger] self.fundraisers@[j].key != *k,
            decreases self.fundraisers@.len() - i,
        {
            if self.fundraisers[i].key.same_as(k) {
                proof {
                    assert(self.fundraisers@[i as int].key == *k);
                    assert(self.has_fundraiser(*k));
                    let c = self.fundraiser_index(*k);
                    assert(self.fundraisers@[c].key == *k);
                }
                return Some(i);
            }
            i = i + 1;
        }
        None
    }

    fn find_investor(&self, p: &Pubkey) -> (r: Option<usize>)
        requires
            self.investor_keys_unique(),
        ensures
            r is None <==> !self.has_investor(*p),
            r matches Some(i) ==> i == self.investor_index(*p)
                && self.investors@[i as int].investor_pubkey == *p,
    {
        let mut i: usize = 0;
        while i < self.investors.len()
            invariant
                i <= self.investors@.len(),
                self.investor_keys_unique(),
                forall|j: int| 0 <= j < i ==> #[trigger] self.investors@[j].investor_pubkey != *p,
            decreases self.investors@.len() - i,
        {
            if self.investors[i].investor_pubkey.same_as(p) {
                proof {
                    assert(self.investors@[i as int].investor_pubkey == *p);
                    assert(self.has_investor(*p));
                    let c = self.investor_index(*p);
                    assert(self.investors@[c].investor_pubkey == *p);
                }
                return Some(i);
            }
            i = i + 1;
        }
        None
    }

    fn find_investment(&self, investor: &Pubkey, k: &Pubkey, seq: u64) -> (r: Option<usize>)
        requires
            self.addresses_unique(),
        ensures
            r is None <==> !self.has_investment(*investor, *k, seq),
            r matches Some(i) ==> i == self.investment_index(*investor, *k, seq)
                && Self::at_address(self.investments@[i as int], *investor, *k, seq),
    {
        let mut i: usize = 0;
        while i < self.investments.len()
            invariant
                i <= self.investments@.len(),
                self.addresses_unique(),
                forall|j: int|
                    0 <= j < i ==> !Self::at_address(
                        #[trigger] self.investments@[j],
                        *investor,
                        *k,
                        seq,
                    ),
            decreases self.investments@.len() - i,
        {
            let x = self.investments[i];
            if x.investor.same_as(investor) && x.fundraiser.same_as(k) && x.sequence_index == seq {
                proof {
                    assert(Self::at_address(self.investments@[i as int], *investor, *k, seq));
                    assert(self.has_investment(*investor, *k, seq));
                    let c = self.investment_index(*investor, *k, seq);
                    assert(Self::at_address(self.investments@[c], *investor, *k, seq));
                    assert(same_address(self.investments@[c], self.investments@[i as int]));
                }
                return Some(i);
            }
            i = i + 1;
        }
        None
    }

    /// Opens a campaign at address `key`, administered by `admin`.
    ///
    /// Fails with `AccountAlreadyInUse`, changing nothing, if a fundraiser is
    /// already stored at `key`.
    pub fn initialize_fundraiser(
        &mut self,
        key: Pubkey,
        admin: Pubkey,
        usdc_mint: Pubkey,
        escrow_vault: Pubkey,
    ) -> (r: Result<(), ProgramError>)
        requires
            old(self).wf(),
        ensures
            final(self).wf(),
            r is Err <==> old(self).has_fundraiser(key),
            r matches Err(e) ==> e == ProgramError::AccountAlreadyInUse && *final(self) == *old(self),
            r is Ok ==> {
                &&& final(self).fundraisers@.len() == old(self).fundraisers@.len() + 1
                &&& final(self).fundraisers@.drop_last() == old(self).fundraisers@
                &&& final(self).fundraisers@.last().key == key
                &&& final(self).fundraisers@.last().data.is_initial(admin, usdc_mint, escrow_vault)
                &&& final(self).investors@ == old(self).investors@
                &&& final(self).investments@ == old(self).investments@
            },
    {
        if self.find_fundraiser(&key).is_some() {
            return Err(ProgramError::AccountAlreadyInUse);
        }
        let mut ctx = InitializeFundraiser {
            admin,
            usdc_mint,
            escrow_vault,
            fundraiser: Fundraiser::new(admin, usdc_mint, escrow_vault),
        };
        initialize::handler(&mut ctx);
        let entry = FundraiserEntry { key, data: ctx.fundraiser };
        proof {
            let s = self.investments@;
            assert forall|i: int| 0 <= i < s.len() implies !(#[trigger] under(key)(s[i])) by {
                assert(self.has_fundraiser(s[i].fundraiser));
            }
            assert forall|i: int| 0 <= i < s.len() implies !(#[trigger] released_under(key)(
                s[i],
            )) by {
                assert(self.has_fundraiser(s[i].fundraiser));
            }
            lemma_total_none(s, under(key), deposit());
            lemma_total_none(s, released_under(key), deposit());
            lemma_total_none(s, under(key), one());
        }
        self.fundraisers.push(entry);
        proof {
            let f = self.fundraisers@;
            assert(f.drop_last() =~= old(self).fundraisers@);
            assert forall|i: int| 0 <= i < self.investments@.len() implies self.has_fundraiser(
                #[trigger] self.investments@[i].fundraiser,
            ) by {
                let k = self.investments@[i].fundraiser;
                assert(old(self).has_fundraiser(k));
                let c = old(self).fundraiser_index(k);
                assert(f[c].key == k);
            }
        }
        Ok(())
    }

    /// Registers `signer` with a zero sequence counter.
    ///
    /// Fails with `AccountAlreadyInUse`, changing nothing, if `signer` is
    /// already registered.
    pub fn initialize_investor(&mut self, signer: Pubkey) -> (r: Result<(), ProgramError>)
        requires
            old(self).wf(),
        ensures
            final(self).wf(),
            r is Err <==> old(self).has_investor(signer),
            r matches Err(e) ==> e == ProgramError::AccountAlreadyInUse && *final(self) == *old(self),
            r is Ok ==> {
                &&& final(self).investors@ == old(self).investors@.push(Investor::initial(signer))
                &&& final(self).fundraisers@ == old(self).fundraisers@
                &&& final(self).investments@ == old(self).investments@
            },
    {
        if self.find_investor(&signer).is_some() {
            return Err(ProgramError::AccountAlreadyInUse);
        }
        let mut ctx = InitializeInvestor { signer, investor: Investor::new(signer) };
        initialize_investor::handler(&mut ctx);
        self.investors.push(ctx.investor);
        proof {
            let v = self.investors@;
            assert forall|i: int, j: int|
                0 <= i < v.len() && 0 <= j < v.len() && i != j implies #[trigger] v[i].investor_pubkey
                != #[trigger] v[j].investor_pubkey by {
                if i == v.len() - 1 {
                    assert(!(0 <= j < old(self).investors@.len() && old(self).investors@[j].investor_pubkey == signer));
                } else if j == v.len() - 1 {
                    assert(!(0 <= i < old(self).investors@.len() && old(self).investors@[i].investor_pubkey == signer));
                } else {
                    assert(old(self).investors@[i] == v[i] && old(self).investors@[j] == v[j]);
                }
            }
        }
        Ok(())
    }

    /// The deposit request of `signer` to the fundraiser stored at `k`, over the
    /// stored records.
    pub open spec fn invest_ctx(self, signer: Pubkey, k: Pubkey) -> Invest {
        let f = self.fundraisers@[self.fundraiser_index(k)].data;
        Invest {
            investor_signer: signer,
            investor: self.investor_or_new(signer),
            fundraiser_key: k,
            fundraiser: f,
            investment: Investment {
                investor: signer,
                fundraiser: k,
                usdc_amount: 0,
                reit_amount: 0,
                status: InvestmentStatus::Pending,
                sequence_index: 0,
            },
            usdc_mint: f.usdc_mint,
            escrow_vault: f.escrow_vault,
        }
    }

    /// `signer` deposits `amount` into the fundraiser stored at `k`: a new
    /// Pending investment under the signer's next sequence index, counted in the
    /// fundraiser's totals. The signer's registry record is created on first use.
    ///
    /// Returns the sequence index and the transfer that the caller must carry
    /// out. Fails, changing nothing, with `AccountNotFound` if no fundraiser is
    /// stored at `k`, with the first rule of the deposit that refuses it, or with
    /// `AccountAlreadyInUse` if an investment already holds the new address.
    pub fn invest(&mut self, signer: Pubkey, fundraiser_key: Pubkey, amount: u64) -> (r: Result<
        (u64, TokenTransfer),
        ProgramError,
    >)
        requires
            old(self).wf(),
        ensures
            final(self).wf(),
            r is Err ==> *final(self) == *old(self),
            r matches Ok((seq, _)) ==> !signer.is_unset_spec() ==> deposit_step(
                *old(self),
                *final(self),
                signer,
                seq,
            ),
            !old(self).has_fundraiser(fundraiser_key) ==> r == Err::<(u64, TokenTransfer), _>(
                ProgramError::AccountNotFound,
            ),
            old(self).has_fundraiser(fundraiser_key) ==> {
                let ctx = old(self).invest_ctx(signer, fundraiser_key);
                let after = invest_effect(ctx, amount);
                let seq = after.investment.sequence_index;
                &&& invest_error(ctx, amount) matches Some(e) ==> r == Err::<(u64, TokenTransfer), _>(
                    ProgramError::Custom(e),
                )
                &&& invest_error(ctx, amount) is None && old(self).has_investment(
                    signer,
                    fundraiser_key,
                    seq,
                ) ==> r == Err::<(u64, TokenTransfer), _>(ProgramError::AccountAlreadyInUse)
                &&& invest_error(ctx, amount) is None && !old(self).has_investment(
                    signer,
                    fundraiser_key,
                    seq,
                ) ==> {
                    &&& r == Ok::<_, ProgramError>((seq, invest_transfer(ctx, amount)))
                    &&& final(self).fundraisers@ == old(self).fundraisers@.update(
                        old(self).fundraiser_index(fundraiser_key),
                        FundraiserEntry { key: fundraiser_key, data: after.fundraiser },
                    )
                    &&& final(self).investors@ == if old(self).has_investor(signer) {
                        old(self).investors@.update(old(self).investor_index(signer), after.investor)
                    } else {
                        old(self).investors@.push(after.investor)
                    }
                    &&& final(self).investments@ == old(self).investments@.push(after.investment)
                }
            },
    {
        let fi = match self.find_fundraiser(&fundraiser_key) {
            Some(i) => i,
            None => return Err(ProgramError::AccountNotFound),
        };
        let entry = self.fundraisers[fi];
        let found = self.find_investor(&signer);
        let investor = match found {
            Some(i) => self.investors[i],
            None => Investor::new(signer),
        };
        let mut ctx = Invest {
            investor_signer: signer,
            investor,
            fundraiser_key,
            fundraiser: entry.data,
            investment: Investment {
                investor: signer,
                fundraiser: fundraiser_key,
                usdc_amount: 0,
                reit_amount: 0,
                status: InvestmentStatus::Pending,
                sequence_index: 0,
            },
            usdc_mint: entry.data.usdc_mint,
            escrow_vault: entry.data.escrow_vault,
        };
        assert(ctx == self.invest_ctx(signer, fundraiser_key));
        let transfer = match invest::handler(&mut ctx, amount) {
            Ok(t) => t,
            Err(e) => return Err(ProgramError::Custom(e)),
        };
        let seq = ctx.investment.sequence_index;
        if self.find_investment(&signer, &fundraiser_key, seq).is_some() {
            return Err(ProgramError::AccountAlreadyInUse);
        }
        let ghost s0 = self.investments@;
        let ghost f0 = self.fundraisers@;
        let ghost v0 = self.investors@;
        let x = ctx.investment;
        self.fundraisers.set(fi, FundraiserEntry { key: fundraiser_key, data: ctx.fundraiser });
        match found {
            Some(i) => self.investors.set(i, ctx.investor),
            None => self.investors.push(ctx.investor),
        }
        self.investments.push(x);
        proof {
            let s = self.investments@;
            let f = self.fundraisers@;
            let v = self.investors@;
            assert(s == s0.push(x));
            assert forall|i: int| 0 <= i < f.len() implies #[trigger] f[i].key == f0[i].key by {}
            assert forall|i: int| 0 <= i < s.len() implies self.has_fundraiser(
                #[trigger] s[i].fundraiser,
            ) by {
                let key = s[i].fundraiser;
                if i == s.len() - 1 {
                    assert(f[fi as int].key == key);
                } else {
                    assert(s[i] == s0[i]);
                    assert(old(self).has_fundraiser(key));
                    let c = old(self).fundraiser_index(key);
                    assert(f[c].key == key);
                }
            }
            assert forall|i: int, j: int|
                0 <= i < s.len() && 0 <= j < s.len() && i != j implies !same_address(
                #[trigger] s[i],
                #[trigger] s[j],
            ) by {
                if i == s.len() - 1 {
                    assert(!Self::at_address(s0[j], signer, fundraiser_key, seq));
                } else if j == s.len() - 1 {
                    assert(!Self::at_address(s0[i], signer, fundraiser_key, seq));
                } else {
                    assert(s[i] == s0[i] && s[j] == s0[j]);
                }
            }
            assert forall|i: int, j: int|
                0 <= i < v.len() && 0 <= j < v.len() && i != j implies #[trigger] v[i].investor_pubkey
                != #[trigger] v[j].investor_pubkey by {
                match found {
                    Some(n) => {
                        assert(v0[n as int].investor_pubkey == signer);
                        assert(v[i].investor_pubkey == v0[i].investor_pubkey);
                        assert(v[j].investor_pubkey == v0[j].investor_pubkey);
                    },
                    None => {
                        if i == v.len() - 1 {
                            assert(!(0 <= j < v0.len() && v0[j].investor_pubkey == signer));
                        } else if j == v.len() - 1 {
                            assert(!(0 <= i < v0.len() && v0[i].investor_pubkey == signer));
                        } else {
                            assert(v[i] == v0[i] && v[j] == v0[j]);
                        }
                    },
                }
            }
            assert forall|i: int| 0 <= i < f.len() implies {
                let e = #[trigger] f[i];
                &&& e.data.total_raised == raised(s, e.key)
                &&& e.data.released_amount == released(s, e.key)
                &&& e.data.investment_counter == created(s, e.key)
            } by {
                lemma_totals_push(s0, x, f[i].key);
                assert(f0[i].data.total_raised == raised(s0, f0[i].key));
                if i != fi {
                    assert(f0[i].key != fundraiser_key);
                }
            }
            if !signer.is_unset_spec() {
                let n: int = match found {
                    Some(i) => i as int,
                    None => v.len() - 1,
                };
                assert(v[n].investor_pubkey == signer);
                assert(self.has_investor(signer));
                let c = self.investor_index(signer);
                assert(v[c].investor_pubkey == signer);
                assert(c == n);
            }
        }
        Ok((seq, transfer))
    }

    /// Both the fundraiser at `k` and the investment at address
    /// (`investor`, `k`, `seq`) are stored.
    pub open spec fn located(self, investor: Pubkey, k: Pubkey, seq: u64) -> bool {
        self.has_fundraiser(k) && self.has_investment(investor, k, seq)
    }

    pub open spec fn fundraiser_at(self, k: Pubkey) -> Fundraiser {
        self.fundraisers@[self.fundraiser_index(k)].data
    }

    pub open spec fn investment_at(self, investor: Pubkey, k: Pubkey, seq: u64) -> Investment {
        self.investments@[self.investment_index(investor, k, seq)]
    }

    /// The table after investment `ii` becomes `x` and the aggregates of
    /// fundraiser `k` become `d`.
    pub open spec fn replaced(
        self,
        post: ProgramState,
        k: Pubkey,
        d: Fundraiser,
        ii: int,
        x: Investment,
    ) -> bool {
        &&& post.fundraisers@ == self.fundraisers@.update(
            self.fundraiser_index(k),
            FundraiserEntry { key: k, data: d },
        )
        &&& post.investors@ == self.investors@
        &&& post.investments@ == self.investments@.update(ii, x)
    }

    /// A change of one investment's status, with the released total of its
    /// fundraiser following it, keeps the table well formed.
    proof fn lemma_replace_keeps_wf(
        self,
        post: ProgramState,
        k: Pubkey,
        d: Fundraiser,
        ii: int,
        x: Investment,
    )
        requires
            self.wf(),
            self.has_fundraiser(k),
            0 <= ii < self.investments@.len(),
            self.investments@[ii].fundraiser == k,
            same_address(x, self.investments@[ii]),
            x.usdc_amount == self.investments@[ii].usdc_amount,
            d.total_raised == self.fundraiser_at(k).total_raised,
            d.investment_counter == self.fundraiser_at(k).investment_counter,
            d.released_amount == self.fundraiser_at(k).released_amount - share_of(
                self.investments@[ii],
                released_under(k),
                deposit(),
            ) + share_of(x, released_under(k), deposit()),
            self.replaced(post, k, d, ii, x),
        ensures
            post.wf(),
    {
        let s0 = self.investments@;
        let f0 = self.fundraisers@;
        let s = post.investments@;
        let f = post.fundraisers@;
        let fi = self.fundraiser_index(k);
        assert(f0[fi].key == k);
        assert forall|i: int| 0 <= i < f.len() implies #[trigger] f[i].key == f0[i].key by {}
        assert forall|i: int| 0 <= i < s.len() implies post.has_fundraiser(
            #[trigger] s[i].fundraiser,
        ) by {
            let key = s[i].fundraiser;
            assert(self.has_fundraiser(s0[i].fundraiser));
            let c = self.fundraiser_index(key);
            assert(f[c].key == key);
        }
        assert forall|i: int, j: int|
            0 <= i < s.len() && 0 <= j < s.len() && i != j implies !same_address(
            #[trigger] s[i],
            #[trigger] s[j],
        ) by {
            assert(!same_address(s0[i], s0[j]));
        }
        assert forall|i: int| 0 <= i < f.len() implies {
            let e = #[trigger] f[i];
            &&& e.data.total_raised == raised(s, e.key)
            &&& e.data.released_amount == released(s, e.key)
            &&& e.data.investment_counter == created(s, e.key)
        } by {
            lemma_totals_update(s0, ii, x, f[i].key);
            assert(f0[i].data.total_raised == raised(s0, f0[i].key));
            if i != fi {
                assert(f0[i].key != k);
            }
        }
    }

    /// Locates the fundraiser at `k` and the investment at (`investor`, `k`,
    /// `seq`).
    fn locate(&self, investor: &Pubkey, k: &Pubkey, seq: u64) -> (r: Option<(usize, usize)>)
        requires
            self.wf(),
        ensures
            r is Some <==> self.located(*investor, *k, seq),
            r matches Some((fi, ii)) ==> {
                &&& fi == self.fundraiser_index(*k)
                &&& ii == self.investment_index(*investor, *k, seq)
                &&& self.fundraisers@[fi as int].key == *k
                &&& Self::at_address(self.investments@[ii as int], *investor, *k, seq)
            },
    {
        let fi = match self.find_fundraiser(k) {
            Some(i) => i,
            None => return None,
        };
        let ii = match self.find_investment(investor, k, seq) {
            Some(i) => i,
            None => return None,
        };
        Some((fi, ii))
    }

    pub open spec fn release_ctx(self, admin: Pubkey, investor: Pubkey, k: Pubkey, seq: u64) -> Release {
        let f = self.fundraiser_at(k);
        Release {
            admin,
            fundraiser_key: k,
            fundraiser: f,
            investment: self.investment_at(investor, k, seq),
            usdc_mint: f.usdc_mint,
            escrow_vault: f.escrow_vault,
        }
    }

    /// `admin` releases the Pending investment at (`investor`, `k`, `seq`): it
    /// becomes Released and its deposit is counted as released.
    ///
    /// Returns the transfer out of the custody pool that the caller must carry
    /// out. Fails, changing nothing, with `AccountNotFound` if either record is
    /// missing, else with the first rule of the release that refuses it.
    pub fn release(&mut self, admin: Pubkey, investor: Pubkey, k: Pubkey, seq: u64) -> (r: Result<
        TokenTransfer,
        ProgramError,
    >)
        requires
            old(self).wf(),
        ensures
            final(self).wf(),
            r is Err ==> *final(self) == *old(self),
            !old(self).located(investor, k, seq) ==> r == Err::<TokenTransfer, _>(
                ProgramError::AccountNotFound,
            ),
            old(self).located(investor, k, seq) ==> {
                let ctx = old(self).release_ctx(admin, investor, k, seq);
                let after = release_effect(ctx);
                &&& release_error(ctx) matches Some(e) ==> r == Err::<TokenTransfer, _>(
                    ProgramError::Custom(e),
                )
                &&& release_error(ctx) != Some(CustomError::ArithmeticOverflow)
                &&& release_error(ctx) is None ==> r == Ok::<_, ProgramError>(release_transfer(ctx))
                    && old(self).replaced(
                    *final(self),
                    k,
                    after.fundraiser,
                    old(self).investment_index(investor, k, seq),
                    after.investment,
                )
            },
    {
        let (fi, ii) = match self.locate(&investor, &k, seq) {
            Some(p) => p,
            None => return Err(ProgramError::AccountNotFound),
        };
        let data = self.fundraisers[fi].data;
        let mut ctx = Release {
            admin,
            fundraiser_key: k,
            fundraiser: data,
            investment: self.investments[ii],
            usdc_mint: data.usdc_mint,
            escrow_vault: data.escrow_vault,
        };
        proof {
            let s = self.investments@;
            let e = self.fundraisers@[fi as int];
            assert(e.data.total_raised == raised(s, k));
            if s[ii as int].status == InvestmentStatus::Pending {
                lemma_total_gap(s, under(k), released_under(k), deposit(), ii as int);
            }
        }
        let transfer = match release::handler(&mut ctx) {
            Ok(t) => t,
            Err(e) => return Err(ProgramError::Custom(e)),
        };
        let ghost pre = *self;
        self.fundraisers.set(fi, FundraiserEntry { key: k, data: ctx.fundraiser });
        self.investments.set(ii, ctx.investment);
        proof {
            pre.lemma_replace_keeps_wf(*self, k, ctx.fundraiser, ii as int, ctx.investment);
        }
        Ok(transfer)
    }

    pub open spec fn wire_ctx(self, admin: Pubkey, investor: Pubkey, k: Pubkey, seq: u64) -> Wire {
        Wire {
            admin,
            fundraiser_key: k,
            fundraiser: self.fundraiser_at(k),
            investment: self.investment_at(investor, k, seq),
        }
    }

    /// `admin` confirms the off-chain conversion of the Released investment at
    /// (`investor`, `k`, `seq`): it becomes Wired.
    ///
    /// Fails, changing nothing, with `AccountNotFound` if either record is
    /// missing, else with the first rule of the confirmation that refuses it.
    pub fn wire(&mut self, admin: Pubkey, investor: Pubkey, k: Pubkey, seq: u64) -> (r: Result<
        (),
        ProgramError,
    >)
        requires
            old(self).wf(),
        ensures
            final(self).wf(),
            r is Err ==> *final(self) == *old(self),
            !old(self).located(investor, k, seq) ==> r == Err::<(), _>(ProgramError::AccountNotFound),
            old(self).located(investor, k, seq) ==> {
                let ctx = old(self).wire_ctx(admin, investor, k, seq);
                &&& wire_error(ctx) matches Some(e) ==> r == Err::<(), _>(ProgramError::Custom(e))
                &&& wire_error(ctx) is None ==> r is Ok && old(self).replaced(
                    *final(self),
                    k,
                    ctx.fundraiser,
                    old(self).investment_index(investor, k, seq),
                    Investment { status: InvestmentStatus::Wired, ..ctx.investment },
                )
            },
    {
        let (fi, ii) = match self.locate(&investor, &k, seq) {
            Some(p) => p,
            None => return Err(ProgramError::AccountNotFound),
        };
        let mut ctx = Wire {
            admin,
            fundraiser_key: k,
            fundraiser: self.fundraisers[fi].data,
            investment: self.investments[ii],
        };
        match wire::handler(&mut ctx) {
            Ok(()) => {},
            Err(e) => return Err(ProgramError::Custom(e)),
        }
        let ghost pre = *self;
        self.fundraisers.set(fi, FundraiserEntry { key: k, data: ctx.fundraiser });
        self.investments.set(ii, ctx.investment);
        proof {
            pre.lemma_replace_keeps_wf(*self, k, ctx.fundraiser, ii as int, ctx.investment);
        }
        Ok(())
    }

    pub open spec fn refund_ctx(self, admin: Pubkey, investor: Pubkey, k: Pubkey, seq: u64) -> Refund {
        let f = self.fundraiser_at(k);
        Refund {
            admin,
            fundraiser_key: k,
            fundraiser: f,
            investment: self.investment_at(investor, k, seq),
            investor,
            usdc_mint: f.usdc_mint,
        }
    }

    /// `admin` refunds the Released investment at (`investor`, `k`, `seq`): it
    /// becomes Refunded; the fundraiser's totals keep their history.
    ///
    /// Returns the transfer back to the investor that the caller must carry
    /// out. Fails, changing nothing, with `AccountNotFound` if either record is
    /// missing, else with the first rule of the refund that refuses it.
    pub fn refund(&mut self, admin: Pubkey, investor: Pubkey, k: Pubkey, seq: u64) -> (r: Result<
        TokenTransfer,
        ProgramError,
    >)
        requires
            old(self).wf(),
        ensures
            final(self).wf(),
            r is Err ==> *final(self) == *old(self),
            !old(self).located(investor, k, seq) ==> r == Err::<TokenTransfer, _>(
                ProgramError::AccountNotFound,
            ),
            old(self).located(investor, k, seq) ==> {
                let ctx = old(self).refund_ctx(admin, investor, k, seq);
                &&& refund_error(ctx) matches Some(e) ==> r == Err::<TokenTransfer, _>(
                    ProgramError::Custom(e),
                )
                &&& refund_error(ctx) is None ==> r == Ok::<_, ProgramError>(refund_transfer(ctx))
                    && old(self).replaced(
                    *final(self),
                    k,
                    ctx.fundraiser,
                    old(self).investment_index(investor, k, seq),
                    Investment { status: InvestmentStatus::Refunded, ..ctx.investment },
                )
            },
    {
        let (fi, ii) = match self.locate(&investor, &k, seq) {
            Some(p) => p,
            None => return Err(ProgramError::AccountNotFound),
        };
        let data = self.fundraisers[fi].data;
        let mut ctx = Refund {
            admin,
            fundraiser_key: k,
            fundraiser: data,
            investment: self.investments[ii],
            investor,
            usdc_mint: data.usdc_mint,
        };
        let transfer = match refund::handler(&mut ctx) {
            Ok(t) => t,
            Err(e) => return Err(ProgramError::Custom(e)),
        };
        let ghost pre = *self;
        self.fundraisers.set(fi, FundraiserEntry { key: k, data: ctx.fundraiser });
        self.investments.set(ii, ctx.investment);
        proof {
            pre.lemma_replace_keeps_wf(*self, k, ctx.fundraiser, ii as int, ctx.investment);
        }
        Ok(transfer)
    }

    pub open spec fn issue_share_ctx(self, admin: Pubkey, investor: Pubkey, k: Pubkey, seq: u64) -> IssueShare {
        let f = self.fundraiser_at(k);
        IssueShare {
            admin,
            fundraiser_key: k,
            fundraiser: f,
            investment: self.investment_at(investor, k, seq),
            investor_wallet: investor,
            reit_mint: f.reit_mint,
        }
    }

    /// `admin` issues the shares of the Wired investment at (`investor`, `k`,
    /// `seq`) at `share_price`: it receives `usdc_amount / share_price` whole
    /// shares and becomes ShareIssued.
    ///
    /// Returns the creation of shares that the caller must carry out. Fails,
    /// changing nothing, with `AccountNotFound` if either record is missing, else
    /// with the first rule of the issue that refuses it.
    pub fn issue_share(
        &mut self,
        admin: Pubkey,
        investor: Pubkey,
        k: Pubkey,
        seq: u64,
        share_price: u64,
    ) -> (r: Result<ShareMint, ProgramError>)
        requires
            old(self).wf(),
        ensures
            final(self).wf(),
            r is Err ==> *final(self) == *old(self),
            !old(self).located(investor, k, seq) ==> r == Err::<ShareMint, _>(
                ProgramError::AccountNotFound,
            ),
            old(self).located(investor, k, seq) ==> {
                let ctx = old(self).issue_share_ctx(admin, investor, k, seq);
                let shares = shares_for(ctx.investment.usdc_amount, share_price);
                &&& issue_share_error(ctx, investor, share_price) matches Some(e) ==> r == Err::<
                    ShareMint,
                    _,
                >(ProgramError::Custom(e))
                &&& issue_share_error(ctx, investor, share_price) is None ==> r == Ok::<
                    _,
                    ProgramError,
                >(
                    ShareMint {
                        mint: ctx.fundraiser.reit_mint,
                        destination: investor,
                        authority: admin,
                        amount: shares,
                    },
                ) && old(self).replaced(
                    *final(self),
                    k,
                    ctx.fundraiser,
                    old(self).investment_index(investor, k, seq),
                    Investment {
                        reit_amount: shares,
                        status: InvestmentStatus::ShareIssued,
                        ..ctx.investment
                    },
                )
            },
    {
        let (fi, ii) = match self.locate(&investor, &k, seq) {
            Some(p) => p,
            None => return Err(ProgramError::AccountNotFound),
        };
        let data = self.fundraisers[fi].data;
        let mut ctx = IssueShare {
            admin,
            fundraiser_key: k,
            fundraiser: data,
            investment: self.investments[ii],
            investor_wallet: investor,
            reit_mint: data.reit_mint,
        };
        let mint = match issue_share::handler(&mut ctx, investor, share_price) {
            Ok(m) => m,
            Err(e) => return Err(ProgramError::Custom(e)),
        };
        let ghost pre = *self;
        self.fundraisers.set(fi, FundraiserEntry { key: k, data: ctx.fundraiser });
        self.investments.set(ii, ctx.investment);
        proof {
            pre.lemma_replace_keeps_wf(*self, k, ctx.fundraiser, ii as int, ctx.investment);
        }
        Ok(mint)
    }

    /// `admin` binds the share asset `reit_mint` and the share price to the
    /// fundraiser at `k`.
    ///
    /// Fails, changing nothing, with `AccountNotFound` if no fundraiser is
    /// stored at `k`, or with `InvalidAuthority` if `admin` does not administer
    /// it.
    pub fn create_mint(&mut self, admin: Pubkey, k: Pubkey, reit_mint: Pubkey, share_price: u64) -> (r:
        Result<(), ProgramError>)
        requires
            old(self).wf(),
        ensures
            final(self).wf(),
            r is Err ==> *final(self) == *old(self),
            !old(self).has_fundraiser(k) ==> r == Err::<(), _>(ProgramError::AccountNotFound),
            old(self).has_fundraiser(k) && admin != old(self).fundraiser_at(k).admin ==> r == Err::<
                (),
                _,
            >(ProgramError::Custom(CustomError::InvalidAuthority)),
            old(self).has_fundraiser(k) && admin == old(self).fundraiser_at(k).admin ==> {
                &&& r is Ok
                &&& final(self).fundraisers@ == old(self).fundraisers@.update(
                    old(self).fundraiser_index(k),
                    FundraiserEntry {
                        key: k,
                        data: Fundraiser { reit_mint, share_price, ..old(self).fundraiser_at(k) },
                    },
                )
                &&& final(self).investors@ == old(self).investors@
                &&& final(self).investments@ == old(self).investments@
            },
    {
        let fi = match self.find_fundraiser(&k) {
            Some(i) => i,
            None => return Err(ProgramError::AccountNotFound),
        };
        let mut ctx = CreateMint { admin, fundraiser: self.fundraisers[fi].data, reit_mint };
        match create_mint::handler(&mut ctx, share_price) {
            Ok(()) => {},
            Err(e) => return Err(ProgramError::Custom(e)),
        }
        let ghost f0 = self.fundraisers@;
        self.fundraisers.set(fi, FundraiserEntry { key: k, data: ctx.fundraiser });
        proof {
            let f = self.fundraisers@;
            assert forall|i: int| 0 <= i < f.len() implies #[trigger] f[i].key == f0[i].key by {}
            assert forall|i: int| 0 <= i < self.investments@.len() implies self.has_fundraiser(
                #[trigger] self.investments@[i].fundraiser,
            ) by {
                let key = self.investments@[i].fundraiser;
                assert(old(self).has_fundraiser(key));
                let c = old(self).fundraiser_index(key);
                assert(f[c].key == key);
            }
            assert forall|i: int| 0 <= i < f.len() implies {
                let e = #[trigger] f[i];
                &&& e.data.total_raised == raised(self.investments@, e.key)
                &&& e.data.released_amount == released(self.investments@, e.key)
                &&& e.data.investment_counter == created(self.investments@, e.key)
            } by {
                assert(f0[i].data.total_raised == raised(self.investments@, f0[i].key));
            }
        }
        Ok(())
    }

    /// Closes the registry record of `signer`; the signer's investments keep
    /// their records.
    ///
    /// Fails, changing nothing, with `AccountNotFound` if `signer` is not
    /// registered.
    pub fn close_investor(&mut self, signer: Pubkey) -> (r: Result<(), ProgramError>)
        requires
            old(self).wf(),
        ensures
            final(self).wf(),
            r is Err <==> !old(self).has_investor(signer),
            r matches Err(e) ==> e == ProgramError::AccountNotFound && *final(self) == *old(self),
            r is Ok ==> {
                &&& final(self).investors@ == old(self).investors@.remove(
                    old(self).investor_index(signer),
                )
                &&& !final(self).has_investor(signer)
                &&& final(self).fundraisers@ == old(self).fundraisers@
                &&& final(self).investments@ == old(self).investments@
            },
    {
        let n = match self.find_investor(&signer) {
            Some(i) => i,
            None => return Err(ProgramError::AccountNotFound),
        };
        let ctx = CloseInvestor { signer, investor: self.investors[n] };
        match close_investor::handler(&ctx) {
            Ok(()) => {},
            Err(_) => return Err(ProgramError::AccountNotFound),
        }
        let ghost v0 = self.investors@;
        self.investors.remove(n);
        proof {
            let v = self.investors@;
            assert forall|i: int| 0 <= i < v.len() implies #[trigger] v[i] == v0[if i < n {
                i
            } else {
                i + 1
            }] by {}
            assert forall|i: int, j: int|
                0 <= i < v.len() && 0 <= j < v.len() && i != j implies #[trigger] v[i].investor_pubkey
                != #[trigger] v[j].investor_pubkey by {
                let a = if i < n { i } else { i + 1 };
                let b = if j < n { j } else { j + 1 };
                assert(v0[a].investor_pubkey != v0[b].investor_pubkey);
            }
            assert forall|i: int| 0 <= i < v.len() implies #[trigger] v[i].investor_pubkey != signer by {
                let a = if i < n { i } else { i + 1 };
                assert(v0[a].investor_pubkey != v0[n as int].investor_pubkey);
            }
        }
        Ok(())
    }
}

} // verus!
