//! Rounded division, and the facts about it that the pricing rules rest on.

use vstd::prelude::*;

verus! {

/// `a / b` rounded up, for `a >= 0` and `b > 0`.
pub open spec fn div_ceil(a: int, b: int) -> int
    recommends
        a >= 0,
        b > 0,
{
    if a % b == 0 {
        a / b
    } else {
        a / b + 1
    }
}

/// `a / b` is the largest integer whose product with `b` does not exceed `a`.
pub proof fn lemma_div_floor_bounds(a: int, b: int)
    requires
        a >= 0,
        b > 0,
    ensures
        0 <= a / b,
        (a / b) * b <= a < (a / b) * b + b,
{
    assert(0 <= a / b && (a / b) * b <= a && a < (a / b) * b + b) by (nonlinear_arith)
        requires
            a >= 0,
            b > 0,
    ;
}

/// `div_ceil(a, b)` is the smallest integer whose product with `b` reaches `a`.
pub proof fn lemma_div_ceil_bounds(a: int, b: int)
    requires
        a >= 0,
        b > 0,
    ensures
        0 <= div_ceil(a, b),
        div_ceil(a, b) * b - b < a <= div_ceil(a, b) * b,
{
    let q: int = a / b;
    let r: int = a % b;
    assert(a == q * b + r && 0 <= r < b && 0 <= q) by (nonlinear_arith)
        requires
            a >= 0,
            b > 0,
            q == a / b,
            r == a % b,
    ;
    if r != 0 {
        assert((q + 1) * b == q * b + b) by (nonlinear_arith);
    }
}

/// Rounded up or not, a quotient by a positive integer is at most the dividend.
pub proof fn lemma_div_ceil_at_most_dividend(a: int, b: int)
    requires
        a >= 0,
        b > 0,
    ensures
        div_ceil(a, b) <= a,
{
    lemma_div_ceil_bounds(a, b);
    let c: int = div_ceil(a, b);
    assert(c <= a) by (nonlinear_arith)
        requires
            a >= 0,
            b >= 1,
            c * b - b < a,
    ;
}

/// Any integer whose product with `b` stays within `a` is at most `a / b`.
pub proof fn lemma_div_floor_greatest(a: int, b: int, m: int)
    requires
        a >= 0,
        b > 0,
        m * b <= a,
    ensures
        m <= a / b,
{
    lemma_div_floor_bounds(a, b);
    let q: int = a / b;
    assert(m <= q) by (nonlinear_arith)
        requires
            b > 0,
            m * b <= a,
            a < q * b + b,
    ;
}

/// Dividing `s * t` by a part `n` of `t`, rounding up, gives at least `s`.
pub proof fn lemma_div_ceil_of_product(s: int, t: int, n: int)
    requires
        s >= 0,
        0 < n <= t,
    ensures
        s * t >= 0,
        div_ceil(s * t, n) >= s,
{
    assert(s * t >= s * n && s * t >= 0) by (nonlinear_arith)
        requires
            s >= 0,
            0 < n <= t,
    ;
    lemma_div_ceil_bounds(s * t, n);
    let c: int = div_ceil(s * t, n);
    assert(c >= s) by (nonlinear_arith)
        requires
            n > 0,
            c * n >= s * n,
    ;
}

/// Dividing `s * t` by `n`, which is `t` or more, gives at most `s`.
pub proof fn lemma_div_floor_of_product(s: int, t: int, n: int)
    requires
        s >= 0,
        0 <= t <= n,
        n > 0,
    ensures
        s * t >= 0,
        0 <= (s * t) / n <= s,
{
    assert(s * t <= s * n && s * t >= 0) by (nonlinear_arith)
        requires
            s >= 0,
            0 <= t <= n,
    ;
    lemma_div_floor_bounds(s * t, n);
    let q: int = (s * t) / n;
    assert(q <= s) by (nonlinear_arith)
        requires
            n > 0,
            q * n <= s * n,
    ;
}

/// Rounding up on the way out and down on the way back never loses: take a
/// part `a` out of `t`, round the quotient of the product `s * t` up, put the
/// part back and round the quotient of the new product down. The result lies
/// between `s` and the intermediate quotient.
pub proof fn lemma_round_trip(s: int, t: int, a: int)
    requires
        s >= 0,
        0 <= a < t,
    ensures
        s * t >= 0,
        div_ceil(s * t, t - a) * (t - a) >= s * t,
        s <= (div_ceil(s * t, t - a) * (t - a)) / t <= div_ceil(s * t, t - a),
{
    let n: int = t - a;
    let up: int = div_ceil(s * t, n);
    lemma_div_ceil_of_product(s, t, n);
    lemma_div_ceil_bounds(s * t, n);
    lemma_div_floor_greatest(up * n, t, s);
    lemma_div_floor_of_product(up, n, t);
}

/// `a / b` rounded up.
pub fn ceil_div(a: u128, b: u128) -> (q: u128)
    requires
        b > 0,
    ensures
        q == div_ceil(a as int, b as int),
{
    let floor: u128 = a / b;
    if a % b == 0 {
        floor
    } else {
        proof {
            assert(floor < a) by (nonlinear_arith)
                requires
                    a % b != 0,
                    floor == a / b,
                    b > 0,
            ;
        }
        floor + 1
    }
}

} // verus!
