use vstd::prelude::*;

use rand::Rng;

verus! {

/// Relies on rand's `Rng::gen_range` over the half-open range `0..n`: the
/// result is drawn from that range, so it lies below `n`. The range must not
/// be empty, or the call panics.
#[verifier::external_body]
pub(crate) fn rand_below(n: usize) -> (r: usize)
    requires
        n > 0,
    ensures
        r < n,
{
    rand::thread_rng().gen_range(0..n)
}

/// Relies on rand's `Rng::gen_range` over the inclusive range `lo..=hi`: the
/// result is drawn from that range. The range must not be empty, or the call
/// panics.
#[verifier::external_body]
pub(crate) fn rand_between(lo: u32, hi: u32) -> (r: u32)
    requires
        lo <= hi,
    ensures
        lo <= r <= hi,
{
    rand::thread_rng().gen_range(lo..=hi)
}

} // verus!
