//! 32-byte identities (public keys) and helpers on them.

use vstd::prelude::*;

verus! {

/// The all-zero identity, used as the default for a cleared listing field.
pub open spec fn zero_key_seq() -> Seq<u8> {
    Seq::new(32, |i: int| 0u8)
}

/// Returns the all-zero identity.
pub fn zero_key() -> (r: [u8; 32])
    ensures
        r@ == zero_key_seq(),
{
    let r = vstd::array::array_fill_for_copy_types::<u8, 32>(0u8);
    proof {
        vstd::array::axiom_spec_array_fill_for_copy_type::<u8, 32>(0u8);
        assert(r@ =~= zero_key_seq());
    }
    r
}

/// Byte-for-byte equality of two identities.
pub fn keys_equal(a: &[u8; 32], b: &[u8; 32]) -> (r: bool)
    ensures
        r == (a@ == b@),
{
    let mut i: usize = 0;
    while i < 32
        invariant
            0 <= i <= 32,
            forall|j: int| 0 <= j < i ==> a@[j] == b@[j],
        decreases 32 - i,
    {
        if a[i] != b[i] {
            proof {
                assert(a@[i as int] != b@[i as int]);
            }
            return false;
        }
        i += 1;
    }
    proof {
        assert(a@ =~= b@);
    }
    true
}

} // verus!
