use vstd::prelude::*;
use crate::constants::BP_DENOMINATOR;

verus! {

/// The whole part of `amount * bps / 10000`: the share of `amount` that `bps` basis points stand for.
pub open spec fn spec_bps_share(amount: int, bps: int) -> int {
    (amount * bps) / (BP_DENOMINATOR as int)
}

/// A share of at most the whole never exceeds the amount it is taken from, and truncation never
/// makes it negative.
pub proof fn lemma_bps_share_bounded(amount: int, bps: int)
    requires
        0 <= amount,
        0 <= bps <= BP_DENOMINATOR,
    ensures
        0 <= spec_bps_share(amount, bps) <= amount,
{
    assert(0 <= amount * bps <= amount * 10_000) by (nonlinear_arith)
        requires
            0 <= amount,
            0 <= bps <= 10_000,
    ;
}

/// The exact product of two 64-bit quantities.
pub fn product(a: u64, b: u64) -> (p: u128)
    ensures
        p == a * b,
{
    assert(0 <= a * b <= u64::MAX * u64::MAX) by (nonlinear_arith)
        requires
            0 <= a <= u64::MAX,
            0 <= b <= u64::MAX,
    ;
    (a as u128) * (b as u128)
}

/// The whole part of `numerator / denominator`, where there is one that fits 64 bits.
pub fn ratio(numerator: u128, denominator: u128) -> (q: Option<u64>)
    ensures
        q is Some <==> denominator != 0 && numerator / denominator <= u64::MAX,
        q matches Some(v) ==> v == numerator / denominator,
{
    if denominator == 0 {
        return None;
    }
    let whole: u128 = numerator / denominator;
    if whole > u64::MAX as u128 {
        None
    } else {
        Some(whole as u64)
    }
}

/// The share of `amount` that `bps` basis points stand for, rounded down, where it fits 64 bits.
pub fn bps_share(amount: u64, bps: u64) -> (share: Option<u64>)
    ensures
        share is Some <==> spec_bps_share(amount as int, bps as int) <= u64::MAX,
        share matches Some(v) ==> v == spec_bps_share(amount as int, bps as int),
{
    ratio(product(amount, bps), BP_DENOMINATOR as u128)
}

/// The share of `amount` for a rate of at most one whole; it always exists.
pub(crate) fn fee_share(amount: u64, bps: u64) -> (share: u64)
    requires
        bps <= BP_DENOMINATOR,
    ensures
        share == spec_bps_share(amount as int, bps as int),
        share <= amount,
{
    proof {
        lemma_bps_share_bounded(amount as int, bps as int);
    }
    let scaled: u128 = product(amount, bps);
    (scaled / (BP_DENOMINATOR as u128)) as u64
}

} // verus!
