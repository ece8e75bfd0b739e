//! The one place the library draws randomness from the outside world.

use vstd::prelude::*;

verus! {

/// Relies on `rand::Rng::gen_range` over `lo..hi`: the sample lies in the
/// half-open range, and the range is non-empty so the call cannot panic.
/// Nothing more is promised: two calls on the same bounds may differ.
#[verifier::external_body]
pub(crate) fn rand_u64_in_range(lo: u64, hi: u64) -> (r: u64)
    requires
        lo < hi,
    ensures
        lo <= r < hi,
{
    rand::Rng::gen_range(&mut rand::thread_rng(), lo..hi)
}

} // verus!
