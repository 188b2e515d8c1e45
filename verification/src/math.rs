//! Checked ceiling division, the rounding primitive of the constant-product
//! invariant solve.

use vstd::arithmetic::div_mod::{
    lemma_div_is_ordered, lemma_div_multiples_vanish, lemma_div_nonincreasing,
    lemma_fundamental_div_mod,
};
use vstd::prelude::*;

verus! {

/// Ceiling division as the on-chain constant-product solver performs it:
/// `None` when the divisor is zero, and also when the floor quotient is zero
/// (the protocol treats a sub-unit quotient as a failed swap rather than
/// rounding it up to one).
pub open spec fn spec_checked_ceil_div(dividend: u128, divisor: u128) -> Option<u128> {
    if divisor == 0 {
        None
    } else if dividend / divisor == 0 {
        None
    } else if dividend % divisor == 0 {
        Some(dividend / divisor)
    } else {
        Some((dividend / divisor + 1) as u128)
    }
}

/// Divides `dividend` by `divisor`, rounding the quotient up, and failing
/// instead of returning a quotient that would round up from zero.
pub fn checked_ceil_div(dividend: u128, divisor: u128) -> (r: Option<u128>)
    ensures
        r == spec_checked_ceil_div(dividend, divisor),
{
    if divisor == 0 {
        return None;
    }
    let quotient = dividend / divisor;
    if quotient == 0 {
        return None;
    }
    let remainder = dividend % divisor;
    if remainder == 0 {
        Some(quotient)
    } else {
        proof {
            assert(divisor >= 2) by {
                if divisor == 1 {
                    assert(dividend % 1 == 0) by (nonlinear_arith);
                }
            }
            assert(quotient < u128::MAX) by {
                lemma_fundamental_div_mod(dividend as int, divisor as int);
                assert(divisor * quotient <= dividend);
                assert(2 * quotient <= divisor * quotient) by (nonlinear_arith)
                    requires
                        divisor >= 2,
                        quotient >= 0,
                ;
            }
        }
        Some(quotient + 1)
    }
}

/// A successful checked ceiling division returns exactly the ceiling of the
/// quotient: the smallest integer `q` with `q * divisor >= dividend`.
pub proof fn lemma_checked_ceil_div_is_ceiling(dividend: u128, divisor: u128, q: u128)
    requires
        spec_checked_ceil_div(dividend, divisor) == Some(q),
    ensures
        divisor >= 1,
        1 <= q <= dividend,
        q * divisor >= dividend,
        (q - 1) * divisor < dividend,
{
    lemma_fundamental_div_mod(dividend as int, divisor as int);
    lemma_div_nonincreasing(dividend as int, divisor as int);
    let fq = dividend as int / divisor as int;
    let r = dividend as int % divisor as int;
    assert(dividend == divisor * fq + r);
    assert(0 <= r < divisor);
    assert(1 <= fq <= dividend);
    if r == 0 {
        assert(q == fq);
        assert(q * divisor >= dividend && (q - 1) * divisor < dividend) by (nonlinear_arith)
            requires
                dividend == divisor * fq,
                q == fq,
                divisor >= 1,
        ;
    } else {
        assert(divisor >= 2) by {
            if divisor == 1 {
                assert(dividend % 1 == 0) by (nonlinear_arith);
            }
        }
        assert(fq + 1 <= dividend) by (nonlinear_arith)
            requires
                dividend == divisor * fq + r,
                0 < r < divisor,
                divisor >= 2,
                fq >= 1,
        ;
        assert(q == fq + 1);
        assert(q * divisor >= dividend && (q - 1) * divisor < dividend) by (nonlinear_arith)
            requires
                dividend == divisor * fq + r,
                0 < r < divisor,
                q == fq + 1,
        ;
    }
}

/// Floor division never creates value: if `m * u <= a * s` then the floor
/// quotient `m * u / s` is at most `a`.  This is the arithmetic heart of the
/// no-profit round trip through vault share accounting.
pub proof fn lemma_floor_mul_div_le(p: int, a: int, s: int)
    requires
        0 <= p,
        0 <= a,
        0 < s,
        p <= a * s,
    ensures
        p / s <= a,
{
    lemma_div_is_ordered(p, a * s, s);
    lemma_div_multiples_vanish(a, s);
    assert(a * s == s * a) by (nonlinear_arith);
}

/// The floor quotient times the divisor stays at or below the dividend:
/// `(n / d) * d <= n`.
pub proof fn lemma_div_mul_le(n: int, d: int)
    requires
        0 <= n,
        0 < d,
    ensures
        (n / d) * d <= n,
{
    lemma_fundamental_div_mod(n, d);
    assert((n / d) * d == d * (n / d)) by (nonlinear_arith);
}

} // verus!
