use vstd::prelude::*;

use crate::pubkey::Pubkey;
use crate::state::Investment;

verus! {

/// Sum of `w` over the investments of `s` that satisfy `p`.
pub open spec fn total(
    s: Seq<Investment>,
    p: spec_fn(Investment) -> bool,
    w: spec_fn(Investment) -> nat,
) -> nat
    decreases s.len(),
{
    if s.len() == 0 {
        0
    } else {
        total(s.drop_last(), p, w) + (if p(s.last()) {
            w(s.last())
        } else {
            0
        })
    }
}

/// What one investment adds to a total.
pub open spec fn share_of(
    x: Investment,
    p: spec_fn(Investment) -> bool,
    w: spec_fn(Investment) -> nat,
) -> int {
    if p(x) {
        w(x) as int
    } else {
        0
    }
}

/// The investment was created under fundraiser `k`.
pub open spec fn under(k: Pubkey) -> spec_fn(Investment) -> bool {
    |x: Investment| x.fundraiser == k
}

/// The investment was created under fundraiser `k` and has been released.
pub open spec fn released_under(k: Pubkey) -> spec_fn(Investment) -> bool {
    |x: Investment| x.fundraiser == k && x.status.is_released_spec()
}

pub open spec fn deposit() -> spec_fn(Investment) -> nat {
    |x: Investment| x.usdc_amount as nat
}

pub open spec fn one() -> spec_fn(Investment) -> nat {
    |x: Investment| 1nat
}

/// Sum of the deposits of the investments created under `k`.
pub open spec fn raised(s: Seq<Investment>, k: Pubkey) -> nat {
    total(s, under(k), deposit())
}

/// Sum of the deposits of the investments created under `k` that were released.
pub open spec fn released(s: Seq<Investment>, k: Pubkey) -> nat {
    total(s, released_under(k), deposit())
}

/// Number of the investments created under `k`.
pub open spec fn created(s: Seq<Investment>, k: Pubkey) -> nat {
    total(s, under(k), one())
}

pub proof fn lemma_total_push(
    s: Seq<Investment>,
    x: Investment,
    p: spec_fn(Investment) -> bool,
    w: spec_fn(Investment) -> nat,
)
    ensures
        total(s.push(x), p, w) == total(s, p, w) + share_of(x, p, w),
{
    assert(s.push(x).drop_last() =~= s);
}

pub proof fn lemma_total_update(
    s: Seq<Investment>,
    j: int,
    x: Investment,
    p: spec_fn(Investment) -> bool,
    w: spec_fn(Investment) -> nat,
)
    requires
        0 <= j < s.len(),
    ensures
        total(s.update(j, x), p, w) == total(s, p, w) - share_of(s[j], p, w) + share_of(x, p, w),
    decreases s.len(),
{
    let t = s.update(j, x);
    if j == s.len() - 1 {
        assert(t.drop_last() =~= s.drop_last());
    } else {
        assert(t.drop_last() =~= s.drop_last().update(j, x));
        lemma_total_update(s.drop_last(), j, x, p, w);
    }
}

pub proof fn lemma_total_none(
    s: Seq<Investment>,
    p: spec_fn(Investment) -> bool,
    w: spec_fn(Investment) -> nat,
)
    requires
        forall|i: int| 0 <= i < s.len() ==> !p(#[trigger] s[i]),
    ensures
        total(s, p, w) == 0,
    decreases s.len(),
{
    if s.len() > 0 {
        assert(!p(s[s.len() - 1]));
        lemma_total_none(s.drop_last(), p, w);
    }
}

pub proof fn lemma_total_mono(
    s: Seq<Investment>,
    p: spec_fn(Investment) -> bool,
    q: spec_fn(Investment) -> bool,
    w: spec_fn(Investment) -> nat,
)
    requires
        forall|x: Investment| #[trigger] q(x) ==> p(x),
    ensures
        total(s, q, w) <= total(s, p, w),
    decreases s.len(),
{
    if s.len() > 0 {
        lemma_total_mono(s.drop_last(), p, q, w);
    }
}

/// An investment counted by `p` but not by the narrower `q` keeps the two
/// totals at least its weight apart.
pub proof fn lemma_total_gap(
    s: Seq<Investment>,
    p: spec_fn(Investment) -> bool,
    q: spec_fn(Investment) -> bool,
    w: spec_fn(Investment) -> nat,
    j: int,
)
    requires
        forall|x: Investment| #[trigger] q(x) ==> p(x),
        0 <= j < s.len(),
        p(s[j]),
        !q(s[j]),
    ensures
        total(s, q, w) + w(s[j]) <= total(s, p, w),
    decreases s.len(),
{
    if j == s.len() - 1 {
        lemma_total_mono(s.drop_last(), p, q, w);
    } else {
        lemma_total_gap(s.drop_last(), p, q, w, j);
    }
}

/// Adding an investment adds its deposit to the totals of its own fundraiser
/// (to the released one only if it is released) and leaves the others alone.
pub proof fn lemma_totals_push(s: Seq<Investment>, x: Investment, k: Pubkey)
    ensures
        raised(s.push(x), k) == raised(s, k) + share_of(x, under(k), deposit()),
        released(s.push(x), k) == released(s, k) + share_of(x, released_under(k), deposit()),
        created(s.push(x), k) == created(s, k) + share_of(x, under(k), one()),
{
    lemma_total_push(s, x, under(k), deposit());
    lemma_total_push(s, x, released_under(k), deposit());
    lemma_total_push(s, x, under(k), one());
}

/// Replacing an investment replaces its share of each total.
pub proof fn lemma_totals_update(s: Seq<Investment>, j: int, x: Investment, k: Pubkey)
    requires
        0 <= j < s.len(),
    ensures
        raised(s.update(j, x), k) == raised(s, k) - share_of(s[j], under(k), deposit())
            + share_of(x, under(k), deposit()),
        released(s.update(j, x), k) == released(s, k) - share_of(s[j], released_under(k), deposit())
            + share_of(x, released_under(k), deposit()),
        created(s.update(j, x), k) == created(s, k) - share_of(s[j], under(k), one()) + share_of(
            x,
            under(k),
            one(),
        ),
{
    lemma_total_update(s, j, x, under(k), deposit());
    lemma_total_update(s, j, x, released_under(k), deposit());
    lemma_total_update(s, j, x, under(k), one());
}

/// Released deposits never exceed raised ones.
pub proof fn lemma_released_le_raised(s: Seq<Investment>, k: Pubkey)
    ensures
        released(s, k) <= raised(s, k),
{
    lemma_total_mono(s, under(k), released_under(k), deposit());
}

} // verus!
