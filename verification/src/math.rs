//! Fixed-point helpers: clamping, division rounded toward zero, and the
//! integer square root.

use vstd::prelude::*;

verus! {

/// `x` limited to the closed interval `[lo, hi]`.
pub open spec fn clamp_spec(x: int, lo: int, hi: int) -> int {
    if x < lo {
        lo
    } else if x > hi {
        hi
    } else {
        x
    }
}

/// Quotient of `a` by a positive `b`, rounded toward zero.
pub open spec fn div_toward_zero(a: int, b: int) -> int
    recommends
        b > 0,
{
    if a >= 0 {
        a / b
    } else {
        -((-a) / b)
    }
}

/// `r` is the integer part of the square root of `n`.
pub open spec fn is_floor_sqrt(r: int, n: int) -> bool {
    0 <= r && r * r <= n < (r + 1) * (r + 1)
}

/// The integer part of the square root of `n`, for `n >= 0`.
pub open spec fn floor_sqrt(n: int) -> int
    recommends
        n >= 0,
{
    choose|r: int| is_floor_sqrt(r, n)
}

/// Every natural number has an integer square root.
pub proof fn lemma_floor_sqrt_exists(n: int)
    requires
        n >= 0,
    ensures
        is_floor_sqrt(floor_sqrt(n), n),
    decreases n,
{
    if n == 0 {
        assert(is_floor_sqrt(0, 0));
    } else {
        lemma_floor_sqrt_exists(n - 1);
        let p = floor_sqrt(n - 1);
        if (p + 1) * (p + 1) <= n {
            assert((p + 2) * (p + 2) > n) by (nonlinear_arith)
                requires
                    p >= 0,
                    (p + 1) * (p + 1) > n - 1,
            ;
            assert(is_floor_sqrt(p + 1, n));
        } else {
            assert(is_floor_sqrt(p, n));
        }
    }
}

/// The integer square root is unique.
pub proof fn lemma_floor_sqrt_unique(a: int, b: int, n: int)
    requires
        is_floor_sqrt(a, n),
        is_floor_sqrt(b, n),
    ensures
        a == b,
{
    if a < b {
        assert((a + 1) * (a + 1) <= b * b) by (nonlinear_arith)
            requires
                0 <= a,
                a + 1 <= b,
        ;
    } else if b < a {
        assert((b + 1) * (b + 1) <= a * a) by (nonlinear_arith)
            requires
                0 <= b,
                b + 1 <= a,
        ;
    }
}

/// Any `r` that brackets `n` between two consecutive squares is
/// `floor_sqrt(n)`.
pub proof fn lemma_floor_sqrt_is(r: int, n: int)
    requires
        is_floor_sqrt(r, n),
    ensures
        floor_sqrt(n) == r,
{
    assert(n >= 0) by (nonlinear_arith)
        requires
            r * r <= n,
    ;
    lemma_floor_sqrt_exists(n);
    lemma_floor_sqrt_unique(floor_sqrt(n), r, n);
}

/// One Newton step from any positive estimate lands at or above the root.
proof fn lemma_newton_step_stays_above(n: int, x: int)
    requires
        n >= 0,
        x > 0,
    ensures
        ({
            let y = (x + n / x) / 2;
            (y + 1) * (y + 1) > n
        }),
{
    let q = n / x;
    let y = (x + q) / 2;
    assert(n < x * (q + 1) && q >= 0) by (nonlinear_arith)
        requires
            n >= 0,
            x > 0,
            q == n / x,
    ;
    let s = x + q + 1;
    assert(s * s >= 4 * (x * (q + 1))) by (nonlinear_arith)
        requires
            s == x + q + 1,
    ;
    let t = 2 * (y + 1);
    assert(t >= s);
    assert(t * t >= s * s) by (nonlinear_arith)
        requires
            t >= s,
            s >= 0,
    ;
    assert(t * t == 4 * ((y + 1) * (y + 1))) by (nonlinear_arith)
        requires
            t == 2 * (y + 1),
    ;
}

/// Once a Newton step no longer decreases the estimate, the estimate's
/// square is at most `n`.
proof fn lemma_newton_fixpoint_is_below(n: int, x: int)
    requires
        n >= 0,
        x > 0,
        (x + n / x) / 2 >= x,
    ensures
        x * x <= n,
{
    let q = n / x;
    assert(q >= x);
    assert(x * x <= n) by (nonlinear_arith)
        requires
            n >= 0,
            x > 0,
            q == n / x,
            q >= x,
    ;
}

/// Limits `x` to `[lo, hi]`.
pub fn clamp(x: i128, lo: i128, hi: i128) -> (r: i128)
    requires
        lo <= hi,
    ensures
        r == clamp_spec(x as int, lo as int, hi as int),
{
    if x < lo {
        lo
    } else if x > hi {
        hi
    } else {
        x
    }
}

/// Integer square root by Newton's iteration on integers.
///
/// Returns the unique `r` with `r * r <= n < (r + 1) * (r + 1)`, for every
/// 64-bit input.
pub fn integer_sqrt(n: u64) -> (r: u64)
    ensures
        r == floor_sqrt(n as int),
        r * r <= n < (r + 1) * (r + 1),
        n == 0 ==> r == 0,
        1 <= n < 4 ==> r == 1,
{
    if n == 0 {
        proof {
            lemma_floor_sqrt_is(0, 0);
        }
        return 0;
    }
    if n < 4 {
        proof {
            lemma_floor_sqrt_is(1, n as int);
        }
        return 1;
    }
    let mut x: u64 = n;
    // (n + 1) / 2, written so that the sum cannot overflow
    let mut y: u64 = n / 2 + n % 2;
    proof {
        assert(n as int / n as int == 1) by (nonlinear_arith)
            requires
                n > 0,
        ;
        lemma_newton_step_stays_above(n as int, n as int);
        assert((x + 1) * (x + 1) > n) by (nonlinear_arith)
            requires
                x == n,
        ;
    }
    while y < x
        invariant
            n >= 4,
            x >= 1,
            (x + 1) * (x + 1) > n,
            (y + 1) * (y + 1) > n,
            y == (x + n / x) / 2,
            y <= 0x8000_0000_0000_0000,
        decreases x,
    {
        proof {
            assert(y >= 2) by (nonlinear_arith)
                requires
                    (y + 1) * (y + 1) > n,
                    n >= 4,
            ;
            lemma_newton_step_stays_above(n as int, y as int);
            assert(n as int / y as int <= n as int / 2) by (nonlinear_arith)
                requires
                    y >= 2,
                    n >= 0,
            ;
        }
        x = y;
        y = (x + n / x) / 2;
    }
    proof {
        lemma_newton_fixpoint_is_below(n as int, x as int);
        lemma_floor_sqrt_is(x as int, n as int);
    }
    x
}

} // verus!
