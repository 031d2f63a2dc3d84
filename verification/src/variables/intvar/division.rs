//! Integer division as the machine performs it: the quotient is rounded
//! toward zero and the remainder takes the sign of the dividend.

use vstd::prelude::*;
use vstd::arithmetic::div_mod::{lemma_div_is_ordered, lemma_div_is_ordered_by_denominator};

verus! {

/// Absolute value.
pub open spec fn abs(x: int) -> int {
    if x < 0 {
        -x
    } else {
        x
    }
}

/// Quotient of `a` by `b`, rounded toward zero.
pub open spec fn trunc_div(a: int, b: int) -> int {
    let q = abs(a) / abs(b);
    if (a >= 0) == (b > 0) {
        q
    } else {
        -q
    }
}

/// Remainder of `a` by `b` that goes with `trunc_div`: it has the sign of `a`.
pub open spec fn trunc_rem(a: int, b: int) -> int {
    let r = abs(a) % abs(b);
    if a >= 0 {
        r
    } else {
        -r
    }
}

/// Whether `a / b` is defined on `i32`: no division by zero and no overflow.
pub open spec fn division_defined(a: i32, b: i32) -> bool {
    b != 0 && !(a == i32::MIN && b == -1)
}

proof fn lemma_negative_divisor(a: int, c: int)
    by (nonlinear_arith)
    requires
        c > 0,
    ensures
        a / (-c) == -(a / c),
        a % (-c) == a % c,
{
}

proof fn lemma_quotient_size(n: int, d: int)
    by (nonlinear_arith)
    requires
        n >= 0,
        d >= 1,
    ensures
        0 <= n / d <= n,
        d >= 2 ==> 2 * (n / d) <= n,
        0 <= n % d < d,
        n % d <= n,
{
}

/// The machine's `/` and `%` on `i32` compute `trunc_div` and `trunc_rem`,
/// and neither leaves the range of `i32` where the division is defined.
proof fn lemma_machine_division(a: i32, b: i32)
    requires
        division_defined(a, b),
    ensures
        (if a >= 0 {
            a as int / b as int
        } else {
            -((-a) / b as int)
        }) == trunc_div(a as int, b as int),
        (if a >= 0 {
            a as int % b as int
        } else {
            -((-a) % b as int)
        }) == trunc_rem(a as int, b as int),
        i32::MIN <= trunc_div(a as int, b as int) <= i32::MAX,
        i32::MIN <= trunc_rem(a as int, b as int) <= i32::MAX,
{
    if b < 0 {
        lemma_negative_divisor(a as int, -b);
        lemma_negative_divisor(-a, -b);
    }
    lemma_quotient_size(abs(a as int), abs(b as int));
}

/// `a / b` on `i32`.
pub fn div_i32(a: i32, b: i32) -> (q: i32)
    requires
        division_defined(a, b),
    ensures
        q == trunc_div(a as int, b as int),
{
    proof {
        lemma_machine_division(a, b);
    }
    a / b
}

/// `a % b` on `i32`.
pub fn rem_i32(a: i32, b: i32) -> (r: i32)
    requires
        division_defined(a, b),
    ensures
        r == trunc_rem(a as int, b as int),
{
    proof {
        lemma_machine_division(a, b);
    }
    a % b
}

/// For a fixed divisor, the quotient grows with the dividend when the divisor
/// is positive and shrinks when it is negative.
pub proof fn lemma_trunc_div_monotone_in_dividend(a1: int, a2: int, b: int)
    requires
        a1 <= a2,
        b != 0,
    ensures
        b > 0 ==> trunc_div(a1, b) <= trunc_div(a2, b),
        b < 0 ==> trunc_div(a1, b) >= trunc_div(a2, b),
{
    let d = abs(b);
    if a1 >= 0 {
        lemma_div_is_ordered(a1, a2, d);
    } else if a2 < 0 {
        lemma_div_is_ordered(-a2, -a1, d);
    } else {
        lemma_quotient_size(-a1, d);
        lemma_quotient_size(a2, d);
    }
}

/// For a fixed dividend, the quotient moves monotonically as the divisor moves
/// within one sign: away from zero for a non-negative dividend it shrinks,
/// for a negative dividend it grows.
pub proof fn lemma_trunc_div_monotone_in_divisor(a: int, b1: int, b2: int)
    requires
        b1 <= b2,
        b1 > 0 || b2 < 0,
    ensures
        a >= 0 ==> trunc_div(a, b1) >= trunc_div(a, b2),
        a < 0 ==> trunc_div(a, b1) <= trunc_div(a, b2),
{
    if b1 > 0 {
        lemma_div_is_ordered_by_denominator(abs(a), b1, b2);
    } else {
        lemma_div_is_ordered_by_denominator(abs(a), -b2, -b1);
    }
}

} // verus!
