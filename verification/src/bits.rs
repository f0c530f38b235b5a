use vstd::prelude::*;

verus! {

/// Masking keeps a value at or under the mask.
pub broadcast proof fn lemma_and_mask_bound(x: u32, m: u32)
    ensures
        #[trigger] (x & m) <= m,
{
    assert(x & m <= m) by (bit_vector);
}

} // verus!
