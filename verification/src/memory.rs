//! Scrubbing of secret bytes.

use vstd::prelude::*;
use vstd::slice::SliceAdditionalExecFns;

verus! {

/// `compiler_fence(SeqCst)`: keeps the compiler from moving or dropping the
/// writes before it; it changes no value.
#[verifier::external_body]
fn compiler_fence_seq_cst() {
    std::sync::atomic::compiler_fence(std::sync::atomic::Ordering::SeqCst);
}

/// Overwrites every byte with zero, behind a compiler fence so that the
/// writes are not optimised away.
pub fn secure_scrub(data: &mut [u8])
    ensures
        final(data)@.len() == old(data)@.len(),
        forall|i: int| 0 <= i < final(data)@.len() ==> final(data)@[i] == 0u8,
{
    let n = data.len();
    let mut i: usize = 0;
    while i < n
        invariant
            i <= n,
            n == data@.len(),
            forall|j: int| 0 <= j < i ==> data@[j] == 0u8,
        decreases n - i,
    {
        data.set(i, 0);
        i = i + 1;
    }
    compiler_fence_seq_cst();
}

} // verus!
