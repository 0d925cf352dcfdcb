//! Exact arithmetic on amounts.
//!
//! An amount is a signed fixed-point number held in an `i128`: the integer
//! counts steps of one billionth of a resource, so [`UNIT`] steps make one
//! whole resource. Elapsed time is counted in nanoseconds, so a producer that
//! holds one whole resource yields one whole resource per second.
//!
//! Nothing here overflows: a result that would leave the range of `i128`
//! stays at the nearest end of it, as [`saturate`] says. Amounts may be
//! negative, and production by a negative amount is negative.

use vstd::arithmetic::div_mod::{lemma_fundamental_div_mod, lemma_fundamental_div_mod_converse};
use vstd::prelude::*;

verus! {

/// One whole resource.
pub const UNIT: i128 = 1_000_000_000;

/// One second of elapsed time.
pub const NANOS_PER_SECOND: u64 = 1_000_000_000;

/// The nearest value to `x` that an amount can hold.
pub open spec fn saturate(x: int) -> int {
    if x > i128::MAX {
        i128::MAX as int
    } else if x < i128::MIN {
        i128::MIN as int
    } else {
        x
    }
}

/// The distance of `x` from zero.
pub open spec fn magnitude(x: int) -> int {
    if x >= 0 {
        x
    } else {
        -x
    }
}

/// What a holding of `producer` yields in `nanos` nanoseconds: one step per
/// held step and second, rounded toward zero.
pub open spec fn yield_of(producer: int, nanos: int) -> int {
    if producer >= 0 {
        producer * nanos / (NANOS_PER_SECOND as int)
    } else {
        -((-producer) * nanos / (NANOS_PER_SECOND as int))
    }
}

/// Splitting `m` into whole seconds' worth and a rest does not change the
/// quotient of `m * e` by `s`.
proof fn lemma_split_quotient(m: int, e: int, s: int)
    requires
        0 <= m,
        0 <= e,
        0 < s,
    ensures
        m * e / s == (m / s) * e + (m % s) * e / s,
        (m % s) * e <= (s - 1) * e,
        0 <= (m % s) * e / s,
        0 <= (m / s) * e,
{
    let w = m / s;
    let f = m % s;
    let b = f * e;
    lemma_fundamental_div_mod(m, s);
    lemma_fundamental_div_mod(b, s);
    assert(0 <= f < s);
    assert(0 <= w) by (nonlinear_arith)
        requires
            0 <= m,
            0 < s,
            w == m / s,
    ;
    assert(0 <= b && b <= (s - 1) * e) by (nonlinear_arith)
        requires
            0 <= f <= s - 1,
            0 <= e,
            b == f * e,
    ;
    assert(0 <= b / s) by (nonlinear_arith)
        requires
            0 <= b,
            0 < s,
    ;
    assert(0 <= w * e) by (nonlinear_arith)
        requires
            0 <= w,
            0 <= e,
    ;
    assert(m * e == (w * e + b / s) * s + b % s) by (nonlinear_arith)
        requires
            m == s * w + f,
            b == f * e,
            b == s * (b / s) + b % s,
    ;
    lemma_fundamental_div_mod_converse(m * e, s, w * e + b / s, b % s);
}

/// `a + b`, kept within the range of an amount.
pub fn saturating_sum(a: i128, b: i128) -> (sum: i128)
    ensures
        sum == saturate(a + b),
{
    match a.checked_add(b) {
        Some(s) => s,
        None => if b > 0 {
            i128::MAX
        } else {
            i128::MIN
        },
    }
}

/// The distance of an amount from zero.
pub fn magnitude_of(x: i128) -> (m: u128)
    ensures
        m == magnitude(x as int),
{
    if x >= 0 {
        x as u128
    } else if x == i128::MIN {
        i128::MAX as u128 + 1
    } else {
        (-x) as u128
    }
}

/// `m * nanos / NANOS_PER_SECOND` where it fits, and `None` where it does not.
fn scaled(m: u128, nanos: u64) -> (q: Option<u128>)
    ensures
        match q {
            Some(v) => v == m * nanos / (NANOS_PER_SECOND as int),
            None => m * nanos / (NANOS_PER_SECOND as int) > u128::MAX,
        },
{
    let s: u128 = NANOS_PER_SECOND as u128;
    let e: u128 = nanos as u128;
    let whole: u128 = m / s;
    let rest: u128 = m % s;
    proof {
        lemma_split_quotient(m as int, nanos as int, s as int);
    }
    let rest_yield: u128 = rest * e / s;
    match whole.checked_mul(e) {
        None => None,
        Some(whole_yield) => whole_yield.checked_add(rest_yield),
    }
}

/// What a holding of `producer` yields in `nanos` nanoseconds, kept within
/// the range of an amount.
pub fn production(producer: i128, nanos: u64) -> (gain: i128)
    ensures
        gain == saturate(yield_of(producer as int, nanos as int)),
{
    let m: u128 = magnitude_of(producer);
    let q: Option<u128> = scaled(m, nanos);
    if producer >= 0 {
        match q {
            Some(v) => if v > i128::MAX as u128 {
                i128::MAX
            } else {
                v as i128
            },
            None => i128::MAX,
        }
    } else {
        match q {
            Some(v) => if v > i128::MAX as u128 {
                i128::MIN
            } else {
                -(v as i128)
            },
            None => i128::MIN,
        }
    }
}

/// The amount that is `n` whole resources.
pub fn from_units(n: i64) -> (a: i128)
    ensures
        a == n * UNIT,
{
    (n as i128) * UNIT
}

/// The whole resources in an amount, rounded down: the largest `w` with
/// `w * UNIT <= a`.
pub fn whole_units(a: i128) -> (w: i128)
    ensures
        w == (a as int) / (UNIT as int),
        w * UNIT <= a < (w + 1) * UNIT,
{
    let s: u128 = UNIT as u128;
    let m: u128 = magnitude_of(a);
    let q: u128 = m / s;
    let r: u128 = m % s;
    proof {
        lemma_fundamental_div_mod(m as int, s as int);
        lemma_fundamental_div_mod(a as int, UNIT as int);
    }
    if a >= 0 {
        q as i128
    } else if r == 0 {
        proof {
            lemma_fundamental_div_mod_converse(a as int, UNIT as int, -(q as int), 0);
        }
        -(q as i128)
    } else {
        proof {
            lemma_fundamental_div_mod_converse(a as int, UNIT as int, -(q as int) - 1, s - r);
        }
        -(q as i128) - 1
    }
}

} // verus!
