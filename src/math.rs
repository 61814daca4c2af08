use vstd::prelude::*;

verus! {

/// Division rounded towards zero.
pub open spec fn floor_div(a: int, b: int) -> int {
    a / b
}

/// Division rounded away from zero (for non-negative operands).
pub open spec fn ceil_div(a: int, b: int) -> int {
    (a + b - 1) / b
}

/// `r` is the integer square root of `n`.
pub open spec fn is_isqrt(n: int, r: int) -> bool {
    0 <= r && r * r <= n < (r + 1) * (r + 1)
}

pub proof fn lemma_ceil_div_bounds(a: int, b: int)
    requires
        a >= 0,
        b > 0,
    ensures
        ceil_div(a, b) * b >= a,
        (ceil_div(a, b) - 1) * b < a || a == 0,
        ceil_div(a, b) >= 0,
        a > 0 ==> ceil_div(a, b) > 0,
        ceil_div(a, b) <= a,
{
    let q = (a + b - 1) / b;
    let r = (a + b - 1) % b;
    assert(a + b - 1 == q * b + r && 0 <= r < b) by (nonlinear_arith)
        requires
            b > 0,
            q == (a + b - 1) / b,
            r == (a + b - 1) % b,
    ;
    assert(q * b >= a);
    assert(q >= 0) by (nonlinear_arith)
        requires
            a + b - 1 == q * b + r,
            0 <= r < b,
            a >= 0,
            b > 0,
    ;
    assert(a > 0 ==> q > 0) by (nonlinear_arith)
        requires
            a + b - 1 == q * b + r,
            0 <= r < b,
            b > 0,
    ;
    assert(q <= a) by (nonlinear_arith)
        requires
            a + b - 1 == q * b + r,
            0 <= r < b,
            a >= 0,
            b > 0,
    ;
    assert((q - 1) * b < a || a == 0) by (nonlinear_arith)
        requires
            a + b - 1 == q * b + r,
            0 <= r < b,
            b > 0,
    ;
}

pub proof fn lemma_floor_div_bounds(a: int, b: int)
    requires
        a >= 0,
        b > 0,
    ensures
        floor_div(a, b) * b <= a,
        a < (floor_div(a, b) + 1) * b,
        0 <= floor_div(a, b) <= a,
{
    let q = a / b;
    let r = a % b;
    assert(a == q * b + r && 0 <= r < b) by (nonlinear_arith)
        requires
            b > 0,
            q == a / b,
            r == a % b,
    ;
    assert(0 <= q <= a) by (nonlinear_arith)
        requires
            a == q * b + r,
            0 <= r < b,
            a >= 0,
            b > 0,
    ;
    assert(a < (q + 1) * b) by (nonlinear_arith)
        requires
            a == q * b + r,
            0 <= r < b,
    ;
}

/// `a * b / c`, rounded down or up, on 128-bit operands whose product fits.
pub fn mul_div(a: u128, b: u128, c: u128, round_up: bool) -> (r: u128)
    requires
        c > 0,
        a * b <= u128::MAX,
    ensures
        round_up ==> r == ceil_div(a * b, c as int),
        !round_up ==> r == floor_div(a * b, c as int),
{
    let p = a * b;
    if round_up {
        proof {
            lemma_ceil_div_bounds(p as int, c as int);
        }
        let q = p / c;
        if p % c == 0 {
            assert(ceil_div(p as int, c as int) == q) by (nonlinear_arith)
                requires
                    c > 0,
                    q == p / c,
                    p % c == 0,
            ;
            q
        } else {
            assert(ceil_div(p as int, c as int) == q + 1) by (nonlinear_arith)
                requires
                    c > 0,
                    q == p / c,
                    p % c != 0,
            ;
            q + 1
        }
    } else {
        p / c
    }
}

/// The integer square root of `n`, found by bisection.
pub fn integer_sqrt(n: u128) -> (r: u64)
    ensures
        is_isqrt(n as int, r as int),
{
    let mut lo: u128 = 0;
    let mut hi: u128 = 0x1_0000_0000_0000_0000;
    assert(hi * hi > u128::MAX) by (nonlinear_arith)
        requires
            hi == 0x1_0000_0000_0000_0000u128,
    ;
    while hi - lo > 1
        invariant
            lo < hi <= 0x1_0000_0000_0000_0000,
            lo * lo <= n,
            n < hi * hi,
        decreases hi - lo,
    {
        let mid = lo + (hi - lo) / 2;
        assert(mid * mid <= u128::MAX) by (nonlinear_arith)
            requires
                mid < 0x1_0000_0000_0000_0000,
        ;
        if mid * mid <= n {
            lo = mid;
        } else {
            hi = mid;
        }
    }
    assert(hi == lo + 1);
    lo as u64
}

} // verus!
