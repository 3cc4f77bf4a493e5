//! Saturating arithmetic on `i32`, stated over mathematical integers.

use vstd::prelude::*;

verus! {

/// The integer `x` clamped into the range of `i32`.
pub open spec fn saturate(x: int) -> i32 {
    if x > i32::MAX {
        i32::MAX
    } else if x < i32::MIN {
        i32::MIN
    } else {
        x as i32
    }
}

/// The quotient of `a` by `b`, rounded toward zero.
pub open spec fn trunc_div(a: int, b: int) -> int
    recommends
        b != 0,
{
    if a >= 0 && b > 0 {
        a / b
    } else if a < 0 && b < 0 {
        (-a) / (-b)
    } else if a < 0 {
        -((-a) / b)
    } else {
        -(a / (-b))
    }
}

/// `a + b`, clamped to the range of `i32`.
pub fn saturating_add(a: i32, b: i32) -> (r: i32)
    ensures
        r == saturate(a + b),
{
    match a.checked_add(b) {
        Some(sum) => sum,
        None => if b > 0 {
            i32::MAX
        } else {
            i32::MIN
        },
    }
}

/// `a - b`, clamped to the range of `i32`.
pub fn saturating_sub(a: i32, b: i32) -> (r: i32)
    ensures
        r == saturate(a - b),
{
    match a.checked_sub(b) {
        Some(difference) => difference,
        None => if b < 0 {
            i32::MAX
        } else {
            i32::MIN
        },
    }
}

/// `a * b`, clamped to the range of `i32`.
pub fn saturating_mul(a: i32, b: i32) -> (r: i32)
    ensures
        r == saturate(a * b),
{
    match a.checked_mul(b) {
        Some(product) => product,
        None => {
            if (a < 0) == (b < 0) {
                assert(a * b >= 0) by (nonlinear_arith)
                    requires
                        (a < 0) == (b < 0),
                ;
                i32::MAX
            } else {
                assert(a * b <= 0) by (nonlinear_arith)
                    requires
                        (a < 0) != (b < 0),
                ;
                i32::MIN
            }
        },
    }
}

/// `a / b` rounded toward zero, clamped to the range of `i32`.
///
/// The only quotient that leaves the range is `i32::MIN / -1`.
pub fn saturating_div(a: i32, b: i32) -> (r: i32)
    requires
        b != 0,
    ensures
        r == saturate(trunc_div(a as int, b as int)),
{
    match a.checked_div(b) {
        Some(quotient) => quotient,
        None => {
            proof {
                lemma_trunc_div_bounds(a as int, b as int);
            }
            i32::MAX
        },
    }
}

/// A quotient is no larger in magnitude than its dividend.
pub proof fn lemma_trunc_div_bounds(a: int, b: int)
    requires
        b != 0,
    ensures
        a >= 0 ==> -a <= trunc_div(a, b) <= a,
        a < 0 ==> a <= trunc_div(a, b) <= -a,
{
    if a >= 0 && b > 0 {
        lemma_div_shrinks(a, b);
    } else if a < 0 && b < 0 {
        lemma_div_shrinks(-a, -b);
    } else if a < 0 {
        lemma_div_shrinks(-a, b);
    } else {
        lemma_div_shrinks(a, -b);
    }
}

/// `trunc_div(a, b)` is the quotient of the division with remainder whose
/// remainder is smaller in magnitude than `b` and has the sign of `a`.
pub proof fn lemma_trunc_div_remainder(a: int, b: int)
    requires
        b != 0,
    ensures
        ({
            let r = a - trunc_div(a, b) * b;
            &&& -b < r < b || b < r < -b
            &&& a >= 0 ==> r >= 0
            &&& a <= 0 ==> r <= 0
        }),
{
    let x = if a < 0 { -a } else { a };
    let y = if b < 0 { -b } else { b };
    let q = x / y;
    assert(x == q * y + x % y && 0 <= x % y < y) by (nonlinear_arith)
        requires
            x >= 0,
            y > 0,
            q == x / y,
    ;
    assert((-q) * y == -(q * y) && (-q) * (-y) == q * y && q * (-y) == -(q * y))
        by (nonlinear_arith);
}

proof fn lemma_div_shrinks(a: int, b: int)
    requires
        a >= 0,
        b > 0,
    ensures
        0 <= a / b <= a,
{
    assert(0 <= a / b <= a) by (nonlinear_arith)
        requires
            a >= 0,
            b > 0,
    ;
}

} // verus!
