//! Randomness from the thread-local generator of the `rand` crate.

use vstd::prelude::*;
use rand::Rng;

verus! {

/// Whether `b` is the code of an ASCII letter or digit.
pub open spec fn is_alnum_byte(b: u8) -> bool {
    (0x30 <= b && b <= 0x39) || (0x41 <= b && b <= 0x5A) || (0x61 <= b && b <= 0x7A)
}

/// A random ASCII letter or digit, as a byte.
///
/// Trusted: `Rng::sample` with the `Alphanumeric` distribution on `rand::thread_rng()`. The
/// value is random; its source picks from `A-Z`, `a-z` and `0-9`, which is all that is
/// claimed.
#[verifier::external_body]
pub fn random_alphanumeric() -> (b: u8)
    ensures
        is_alnum_byte(b),
{
    rand::thread_rng().sample(rand::distributions::Alphanumeric)
}

/// A random index below `n`.
///
/// Trusted: `Rng::gen_range(0..n)` on `rand::thread_rng()`. The value is random; it lies in
/// the range. An empty range makes `gen_range` panic, so `n` must be positive.
#[verifier::external_body]
pub fn random_below(n: usize) -> (i: usize)
    requires
        n > 0,
    ensures
        i < n,
{
    rand::thread_rng().gen_range(0..n)
}

} // verus!
