//! The one source of randomness: the redraw of the ball's vertical
//! velocity on a paddle bounce.

use vstd::prelude::*;

verus! {

/// Relies on rand::random_range: a value sampled uniformly from the
/// half-open range `lo..hi` by the thread-local generator. It panics
/// only on an empty range, which the precondition rules out; nothing
/// beyond membership in the range is assumed of the outcome.
#[verifier::external_body]
pub(crate) fn random_in(lo: i64, hi: i64) -> (r: i64)
    requires
        lo < hi,
    ensures
        lo <= r < hi,
{
    rand::random_range(lo..hi)
}

} // verus!
