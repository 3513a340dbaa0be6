//! Division rounded up, and the facts about it that scaling rests on.

use vstd::prelude::*;

verus! {

/// The least whole number of `y`s that cover `x`.
pub open spec fn ceil_div(x: nat, y: nat) -> nat {
    ((x + y - 1) / (y as int)) as nat
}

/// `ceil_div(x, y)` covers `x`, and one fewer does not.
pub proof fn lemma_ceil_div_is_least(x: nat, y: nat)
    requires
        y > 0,
    ensures
        (ceil_div(x, y) - 1) * y < x <= ceil_div(x, y) * y,
{
    let n = (x + y - 1) as int;
    let d = y as int;
    assert(n == d * (n / d) + n % d && 0 <= n % d < d) by (nonlinear_arith)
        requires
            d > 0,
    ;
    assert(n / d >= 0) by (nonlinear_arith)
        requires
            d > 0,
            n >= 0,
    ;
    assert((n / d - 1) * d == (n / d) * d - d && (n / d) * d == d * (n / d)) by (nonlinear_arith);
}

/// Only one number covers `x` while one fewer does not.
pub proof fn lemma_ceil_div_unique(x: nat, y: nat, c: int)
    requires
        y > 0,
        (c - 1) * y < x <= c * y,
    ensures
        c == ceil_div(x, y),
{
    lemma_ceil_div_is_least(x, y);
    let e = ceil_div(x, y) as int;
    let d = y as int;
    assert(c == e) by (nonlinear_arith)
        requires
            d > 0,
            (c - 1) * d < x <= c * d,
            (e - 1) * d < x <= e * d,
    ;
}

/// Whatever number of `y`s covers `x` is at least `ceil_div(x, y)`.
pub proof fn lemma_ceil_div_at_most(x: nat, y: nat, n: int)
    requires
        y > 0,
        x <= n * y,
    ensures
        ceil_div(x, y) <= n,
{
    lemma_ceil_div_is_least(x, y);
    let c = ceil_div(x, y) as int;
    let d = y as int;
    assert(c <= n) by (nonlinear_arith)
        requires
            d > 0,
            (c - 1) * d < x <= n * d,
    ;
}

/// A larger divisor gives no larger quotient.
pub proof fn lemma_ceil_div_decreases(x: nat, y1: nat, y2: nat)
    requires
        0 < y1 <= y2,
    ensures
        ceil_div(x, y2) <= ceil_div(x, y1),
{
    lemma_ceil_div_is_least(x, y1);
    let c = ceil_div(x, y1) as int;
    let (d1, d2) = (y1 as int, y2 as int);
    assert(x <= c * d2) by (nonlinear_arith)
        requires
            0 < d1 <= d2,
            0 <= x <= c * d1,
    ;
    lemma_ceil_div_at_most(x, y2, c);
}

/// A factor common to both sides does not change the quotient.
pub proof fn lemma_ceil_div_cancel(x: nat, y: nat, k: nat)
    requires
        y > 0,
        k > 0,
    ensures
        ceil_div(x * k, y * k) == ceil_div(x, y),
{
    lemma_ceil_div_is_least(x, y);
    let c = ceil_div(x, y) as int;
    let (xi, yi, ki) = (x as int, y as int, k as int);
    assert((c - 1) * (yi * ki) < xi * ki <= c * (yi * ki) && yi * ki > 0) by (nonlinear_arith)
        requires
            ki > 0,
            yi > 0,
            (c - 1) * yi < xi <= c * yi,
    ;
    lemma_ceil_div_unique(x * k, y * k, c);
}

/// Computes `ceil_div` on machine integers.
pub fn ceil_div_u64(x: u64, y: u64) -> (c: u64)
    requires
        y > 0,
        x + y <= u64::MAX,
    ensures
        c == ceil_div(x as nat, y as nat),
{
    (x + y - 1) / y
}

} // verus!
