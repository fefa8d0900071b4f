use vstd::prelude::*;

use crate::pubkey::Pubkey;
use crate::state::{Fundraiser, Investment};

verus! {

/// `principal` administers `fundraiser`.
pub open spec fn is_admin_spec(fundraiser: Fundraiser, principal: Pubkey) -> bool {
    principal == fundraiser.admin
}

/// `principal` is the investor of record of `investment`.
pub open spec fn is_owner_spec(investment: Investment, principal: Pubkey) -> bool {
    principal == investment.investor
}

pub fn is_admin(fundraiser: &Fundraiser, principal: &Pubkey) -> (r: bool)
    ensures
        r == is_admin_spec(*fundraiser, *principal),
{
    principal.same_as(&fundraiser.admin)
}

pub fn is_owner(investment: &Investment, principal: &Pubkey) -> (r: bool)
    ensures
        r == is_owner_spec(*investment, *principal),
{
    principal.same_as(&investment.investor)
}

} // verus!
