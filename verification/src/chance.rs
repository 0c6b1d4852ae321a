//! Random numbers.

use vstd::prelude::*;
use rand::Rng;

verus! {

/// Calls `Rng::gen_range` of rand on the thread's generator with the
/// half-open range `low..high`. Assumed of it: the number drawn lies in
/// that range. The call panics on an empty range.
#[verifier::external_body]
pub(crate) fn draw(low: u32, high: u32) -> (n: u32)
    requires
        low < high,
    ensures
        low <= n < high,
{
    rand::thread_rng().gen_range(low..high)
}

} // verus!
