//! Random numbers, drawn from the `fastrand` crate's thread-local generator.
use vstd::prelude::*;

verus! {

/// `fastrand::i32(0..n)`: some value in `[0, n)` (the crate panics on an empty
/// range, hence the `requires`). Which value comes back is left open.
#[verifier::external_body]
pub(crate) fn rand_i32_below(n: i32) -> (r: i32)
    requires
        0 < n,
    ensures
        0 <= r < n,
{
    fastrand::i32(0..n)
}

/// `fastrand::u32(lo..=hi)`: some value in `[lo, hi]` (the crate panics when
/// `lo > hi`). Which value comes back is left open.
#[verifier::external_body]
pub(crate) fn rand_u32_between(lo: u32, hi: u32) -> (r: u32)
    requires
        lo <= hi,
    ensures
        lo <= r <= hi,
{
    fastrand::u32(lo..=hi)
}

/// `fastrand::u8(0..n)`: some value in `[0, n)` (the crate panics on an empty
/// range). Which value comes back is left open.
#[verifier::external_body]
pub(crate) fn rand_u8_below(n: u8) -> (r: u8)
    requires
        0 < n,
    ensures
        r < n,
{
    fastrand::u8(0..n)
}

/// `fastrand::bool()`: either value; nothing is claimed about which.
#[verifier::external_body]
pub(crate) fn rand_bool() -> bool {
    fastrand::bool()
}

} // verus!
