//! Fixed-size digests such as attestation hashes.

use vstd::prelude::*;

verus! {

/// A 32-byte digest whose every byte is `byte`.
pub fn sample_digest(byte: u8) -> (r: [u8; 32])
    ensures
        forall|i: int| 0 <= i < 32 ==> r[i] == byte,
{
    let mut r: [u8; 32] = [0u8; 32];
    let mut i: usize = 0;
    while i < 32
        invariant
            i <= 32,
            forall|j: int| 0 <= j < i ==> r[j] == byte,
        decreases 32 - i,
    {
        r[i] = byte;
        i = i + 1;
    }
    r
}

} // verus!
