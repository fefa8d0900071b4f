use vstd::prelude::*;

use crate::pubkey::Pubkey;
use crate::state::Investor;

verus! {

/// The records that registering an investor writes.
#[derive(Clone, Copy, Debug)]
pub struct InitializeInvestor {
    /// The signer, who becomes the investor of record.
    pub signer: Pubkey,
    /// The slot that receives the registry record.
    pub investor: Investor,
}

/// Registers the signer with a zero sequence counter.
pub fn handler(ctx: &mut InitializeInvestor)
    ensures
        *final(ctx) == (InitializeInvestor {
            investor: Investor::initial(old(ctx).signer),
            ..*old(ctx)
        }),
{
    ctx.investor = Investor::new(ctx.signer);
}

} // verus!
