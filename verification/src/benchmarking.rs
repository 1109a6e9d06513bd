//! Amounts used when setting up benchmark accounts: whole units of a
//! twelve-decimal currency and dollars of a fourteen-decimal one.
use vstd::prelude::*;

verus! {

/// `d` whole units of a currency with twelve decimals.
pub fn unit(d: u32) -> (r: u128)
    ensures
        r == d * 1_000_000_000_000,
{
    let d: u128 = d as u128;
    match d.checked_mul(1_000_000_000_000) {
        Some(v) => v,
        None => u128::MAX,
    }
}

/// `d` dollars of a currency with fourteen decimals.
pub fn dollar(d: u32) -> (r: u128)
    ensures
        r == d * 100_000_000_000_000,
{
    let d: u128 = d as u128;
    match d.checked_mul(100_000_000_000_000) {
        Some(v) => v,
        None => u128::MAX,
    }
}

} // verus!
