use vstd::prelude::*;
use crate::error::ErrorCode;

verus! {

/// Ten to the power `n`.
pub open spec fn pow10(n: nat) -> nat
    decreases n,
{
    if n == 0 {
        1
    } else {
        10 * pow10((n - 1) as nat)
    }
}

/// A count of whole tokens (or of time units) in base units of a token with
/// `decimals` decimal places.
pub open spec fn scaled(count: u64, decimals: u8) -> nat {
    count as nat * pow10(decimals as nat)
}

/// Zero of anything is zero base units.
pub proof fn lemma_scaled_zero(decimals: u8)
    ensures
        scaled(0, decimals) == 0,
{
    assert(0 * pow10(decimals as nat) == 0) by (nonlinear_arith);
}

/// A power of ten is at least one.
pub proof fn lemma_pow10_positive(n: nat)
    ensures
        pow10(n) >= 1,
    decreases n,
{
    if n > 0 {
        lemma_pow10_positive((n - 1) as nat);
    }
}

/// A larger exponent gives a power of ten at least as large.
pub proof fn lemma_pow10_increases(a: nat, b: nat)
    requires
        a <= b,
    ensures
        pow10(a) <= pow10(b),
    decreases b,
{
    if a < b {
        lemma_pow10_increases(a, (b - 1) as nat);
        lemma_pow10_positive((b - 1) as nat);
    }
}

/// Ten to the power `decimals`, or `None` where that exceeds 64 bits.
pub fn checked_pow10(decimals: u8) -> (r: Option<u64>)
    ensures
        match r {
            Some(p) => p == pow10(decimals as nat),
            None => pow10(decimals as nat) > u64::MAX,
        },
{
    let mut p: u64 = 1;
    let mut i: u8 = 0;
    while i < decimals
        invariant
            i <= decimals,
            p == pow10(i as nat),
        decreases decimals - i,
    {
        match p.checked_mul(10) {
            Some(q) => {
                p = q;
            },
            None => {
                proof {
                    lemma_pow10_increases((i + 1) as nat, decimals as nat);
                }
                return None;
            },
        }
        i = i + 1;
    }
    Some(p)
}

/// Converts a count to base units: `count * 10^decimals`.
///
/// Fails with `Overflow` exactly when the product exceeds 64 bits.
pub fn to_base_units(count: u64, decimals: u8) -> (r: Result<u64, ErrorCode>)
    ensures
        match r {
            Ok(units) => units == scaled(count, decimals),
            Err(e) => e == ErrorCode::Overflow && scaled(count, decimals) > u64::MAX,
        },
{
    if count == 0 {
        proof {
            lemma_scaled_zero(decimals);
        }
        return Ok(0);
    }
    match checked_pow10(decimals) {
        Some(unit) => match count.checked_mul(unit) {
            Some(units) => Ok(units),
            None => Err(ErrorCode::Overflow),
        },
        None => {
            assert(scaled(count, decimals) > u64::MAX) by (nonlinear_arith)
                requires
                    count >= 1,
                    pow10(decimals as nat) > u64::MAX,
                    scaled(count, decimals) == count as nat * pow10(decimals as nat),
            ;
            Err(ErrorCode::Overflow)
        },
    }
}

} // verus!
