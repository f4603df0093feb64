use vstd::prelude::*;

verus! {

/// Relies on fastrand::usize: a draw from the thread-local generator,
/// uniform over `0..n`. It panics only on an empty range, which the
/// precondition rules out; of a random draw nothing beyond its range can
/// be promised.
#[verifier::external_body]
pub(crate) fn random_below(n: usize) -> (r: usize)
    requires
        n > 0,
    ensures
        r < n,
{
    fastrand::usize(0..n)
}

/// Relies on fastrand::i64: a draw from the thread-local generator,
/// uniform over `lo..=hi`. It panics only on an empty range, which the
/// precondition rules out; of a random draw nothing beyond its range can
/// be promised.
#[verifier::external_body]
pub(crate) fn random_in_range(lo: i64, hi: i64) -> (r: i64)
    requires
        lo <= hi,
    ensures
        lo <= r <= hi,
{
    fastrand::i64(lo..=hi)
}

} // verus!
