//! Exact integer arithmetic for rates: `floor(a * b / d)` on 128-bit values
//! without a wider intermediate type.

use vstd::prelude::*;
use vstd::arithmetic::div_mod::lemma_fundamental_div_mod_converse;

verus! {

/// `q` and `m` are the quotient and remainder of `x` by `d`.
spec fn is_quot_rem(x: int, d: int, q: int, m: int) -> bool {
    &&& x == q * d + m
    &&& 0 <= m < d
}

proof fn lemma_quot_rem_unique(x: int, d: int, q: int, m: int)
    requires
        is_quot_rem(x, d, q, m),
    ensures
        q == x / d,
        m == x % d,
{
    lemma_fundamental_div_mod_converse(x, d, q, m);
}

proof fn lemma_double_step(r: int, h: int, d: int, q: int, m: int)
    requires
        is_quot_rem(r * h, d, q, m),
    ensures
        r * (2 * h) == (2 * q) * d + 2 * m,
        r * (2 * h + 1) == (2 * q) * d + 2 * m + r,
{
    assert(r * (2 * h) == 2 * (r * h)) by (nonlinear_arith);
    assert(r * (2 * h + 1) == 2 * (r * h) + r) by (nonlinear_arith);
    assert(2 * (q * d + m) == (2 * q) * d + 2 * m) by (nonlinear_arith);
}

proof fn lemma_quot_below(r: int, b: int, d: int, q: int, m: int)
    requires
        0 <= r < d,
        0 <= b,
        is_quot_rem(r * b, d, q, m),
    ensures
        0 <= q <= b,
        b > 0 ==> q < b,
{
    assert(0 <= q && (b > 0 ==> q < b) && q <= b) by (nonlinear_arith)
        requires
            0 <= r < d,
            0 <= b,
            r * b == q * d + m,
            0 <= m < d,
    ;
}

/// Quotient and remainder of `r * b` by `d`, for a factor `r` below the
/// divisor. The product may be far wider than 128 bits; the quotient is not,
/// since it is at most `b`.
fn mul_div_rem(r: u128, b: u128, d: u128) -> (out: (u128, u128))
    requires
        r < d,
    ensures
        is_quot_rem(r * b, d as int, out.0 as int, out.1 as int),
        out.0 <= b,
    decreases b,
{
    if b == 0 {
        assert(r * 0 == 0) by (nonlinear_arith);
        assert(0 * (d as int) == 0) by (nonlinear_arith);
        return (0, 0);
    }
    let half: u128 = b / 2;
    let odd: bool = b % 2 == 1;
    let (q, m): (u128, u128) = mul_div_rem(r, half, d);
    proof {
        lemma_double_step(r as int, half as int, d as int, q as int, m as int);
        lemma_quot_below(r as int, half as int, d as int, q as int, m as int);
    }
    // Twice the remainder is below 2 * d: at most one subtraction.
    let (q2, m2): (u128, u128) = if m >= d - m {
        (2 * q + 1, m - (d - m))
    } else {
        (2 * q, m + m)
    };
    assert(r * (2 * half) == q2 * d + m2 && m2 < d) by (nonlinear_arith)
        requires
            r * (2 * half) == (2 * q) * d + 2 * m,
            m < d,
            (q2 == 2 * q + 1 && m2 == 2 * m - d && 2 * m >= d) || (q2 == 2 * q && m2 == 2 * m
                && 2 * m < d),
    ;
    if odd {
        assert(b == 2 * half + 1);
        let (q3, m3): (u128, u128) = if m2 >= d - r {
            (q2 + 1, m2 - (d - r))
        } else {
            (q2, m2 + r)
        };
        assert(r * b == q3 * d + m3 && m3 < d) by (nonlinear_arith)
            requires
                r * (2 * half) == q2 * d + m2,
                b == 2 * half + 1,
                m2 < d,
                r < d,
                (q3 == q2 + 1 && m3 == m2 + r - d && m2 + r >= d) || (q3 == q2 && m3 == m2 + r
                    && m2 + r < d),
        ;
        proof {
            lemma_quot_below(r as int, b as int, d as int, q3 as int, m3 as int);
        }
        (q3, m3)
    } else {
        assert(b == 2 * half);
        proof {
            lemma_quot_below(r as int, b as int, d as int, q2 as int, m2 as int);
        }
        (q2, m2)
    }
}

/// `floor(a * b / d)` as a mathematical integer.
pub open spec fn mul_div_floor(a: nat, b: nat, d: nat) -> nat {
    (a * b) / d
}

/// `floor(a * b / d)`, exact for every 128-bit input: `Some` of the value when
/// it fits in 128 bits, `None` when it does not.
pub fn mul_div(a: u128, b: u128, d: u128) -> (r: Option<u128>)
    requires
        d != 0,
    ensures
        match r {
            Some(v) => v == mul_div_floor(a as nat, b as nat, d as nat),
            None => mul_div_floor(a as nat, b as nat, d as nat) > u128::MAX,
        },
{
    let whole: u128 = a / d;
    let part: u128 = a % d;
    let (q, m): (u128, u128) = mul_div_rem(part, b, d);
    proof {
        // a * b == (whole * b + q) * d + m
        assert(a == whole * d + part) by (nonlinear_arith)
            requires
                whole == a / d,
                part == a % d,
                d > 0,
        ;
        assert(a * b == (whole * b + q) * d + m) by (nonlinear_arith)
            requires
                a == whole * d + part,
                part * b == q * d + m,
        ;
        assert(whole * b >= 0) by (nonlinear_arith)
            requires
                whole >= 0,
                b >= 0,
        ;
        lemma_quot_rem_unique(a * b, d as int, whole * b + q, m as int);
    }
    match whole.checked_mul(b) {
        None => None,
        Some(high) => high.checked_add(q),
    }
}

} // verus!
