//! The code under which an offer is stored: a fixed-width prefix of its hash.
use vstd::prelude::*;

verus! {

/// Width in bytes of a content hash.
pub const HASH_LEN: usize = 32;

/// Width in bytes of a code.
pub const CODE_LEN: usize = 12;

/// The code of a content hash: its first `CODE_LEN` bytes.
pub open spec fn code_of(hash: Seq<u8>) -> Seq<u8> {
    hash.subrange(0, CODE_LEN as int)
}

/// Derives the code of a content hash by truncation.
pub fn derive_code(hash: &[u8; 32]) -> (r: [u8; 12])
    ensures
        r@ == code_of(hash@),
{
    let mut r: [u8; 12] = [0u8; 12];
    let mut i: usize = 0;
    while i < CODE_LEN
        invariant
            i <= CODE_LEN,
            hash@.len() == HASH_LEN,
            r@.len() == CODE_LEN,
            forall|j: int| 0 <= j < i ==> r@[j] == hash@[j],
        decreases CODE_LEN - i,
    {
        r.set(i, hash[i]);
        i = i + 1;
    }
    assert(r@ =~= code_of(hash@));
    r
}

} // verus!
