use vstd::prelude::*;

verus! {

/// Number of bytes in a principal or asset identifier.
pub const KEY_LEN: usize = 32;

/// A fixed-size identifier of a principal, an account or an asset.
///
/// The all-zero identifier stands for "unset" (for example a share asset that
/// has not been created yet).
#[derive(Clone, Copy, Debug)]
pub struct Pubkey {
    pub bytes: [u8; 32],
}

impl Pubkey {
    /// True iff every byte of the identifier is zero.
    pub open spec fn is_unset_spec(self) -> bool {
        forall|i: int| 0 <= i < 32 ==> self.bytes@[i] == 0u8
    }

    pub fn new(bytes: [u8; 32]) -> (r: Pubkey)
        ensures
            r.bytes == bytes,
    {
        Pubkey { bytes }
    }

    /// The all-zero identifier.
    pub fn unset() -> (r: Pubkey)
        ensures
            r.is_unset_spec(),
    {
        let r = Pubkey { bytes: [0u8; 32] };
        assert(r.is_unset_spec());
        r
    }

    pub fn to_bytes(&self) -> (r: [u8; 32])
        ensures
            r == self.bytes,
    {
        self.bytes
    }

    pub fn is_unset(&self) -> (r: bool)
        ensures
            r == self.is_unset_spec(),
    {
        let mut i: usize = 0;
        while i < KEY_LEN
            invariant
                i <= 32,
                forall|j: int| 0 <= j < i ==> self.bytes@[j] == 0u8,
            decreases 32 - i,
        {
            if self.bytes[i] != 0 {
                return false;
            }
            i = i + 1;
        }
        true
    }

    /// Byte-wise comparison of two identifiers.
    pub fn same_as(&self, other: &Pubkey) -> (r: bool)
        ensures
            r == (*self == *other),
    {
        let mut i: usize = 0;
        while i < KEY_LEN
            invariant
                i <= 32,
                forall|j: int| 0 <= j < i ==> self.bytes@[j] == other.bytes@[j],
            decreases 32 - i,
        {
            if self.bytes[i] != other.bytes[i] {
                return false;
            }
            i = i + 1;
        }
        proof {
            assert(self.bytes@ =~= other.bytes@);
            lemma_key_ext(*self, *other);
        }
        true
    }
}

/// Two identifiers with the same bytes are the same identifier.
pub proof fn lemma_key_ext(a: Pubkey, b: Pubkey)
    requires
        a.bytes@ == b.bytes@,
    ensures
        a == b,
{
    broadcast use vstd::array::group_array_axioms;
    assert(a.bytes == b.bytes);
}

impl PartialEq for Pubkey {
    fn eq(&self, other: &Pubkey) -> (r: bool) {
        self.same_as(other)
    }
}

impl Eq for Pubkey {
}

impl vstd::std_specs::cmp::PartialEqSpecImpl for Pubkey {
    open spec fn obeys_eq_spec() -> bool {
        true
    }

    open spec fn eq_spec(&self, other: &Pubkey) -> bool {
        *self == *other
    }
}

} // verus!
