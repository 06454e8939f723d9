//! Exact integer arithmetic: floor division of signed values, floor square roots,
//! and narrowing with a range check.

use vstd::prelude::*;
use vstd::arithmetic::div_mod::lemma_fundamental_div_mod_converse;

verus! {

/// `s` is the floor of the square root of `n`.
pub open spec fn is_floor_sqrt(n: int, s: int) -> bool {
    0 <= s && s * s <= n < (s + 1) * (s + 1)
}

/// The floor of the square root of a natural number `n`.
pub open spec fn floor_sqrt(n: int) -> int {
    choose|s: int| is_floor_sqrt(n, s)
}

/// A number has at most one floor square root.
pub proof fn lemma_floor_sqrt_unique(n: int, a: int, b: int)
    requires
        is_floor_sqrt(n, a),
        is_floor_sqrt(n, b),
    ensures
        a == b,
{
    if a < b {
        assert((a + 1) * (a + 1) <= b * b) by (nonlinear_arith)
            requires
                0 <= a,
                a + 1 <= b,
        ;
    } else if b < a {
        assert((b + 1) * (b + 1) <= a * a) by (nonlinear_arith)
            requires
                0 <= b,
                b + 1 <= a,
        ;
    }
}

/// Whatever satisfies the definition is the floor square root.
pub proof fn lemma_floor_sqrt_is(n: int, s: int)
    requires
        is_floor_sqrt(n, s),
    ensures
        floor_sqrt(n) == s,
{
    lemma_floor_sqrt_unique(n, s, floor_sqrt(n));
}

/// Every natural number has a floor square root.
pub proof fn lemma_floor_sqrt_exists(n: int)
    requires
        0 <= n,
    ensures
        is_floor_sqrt(n, floor_sqrt(n)),
    decreases n,
{
    if n == 0 {
        assert(is_floor_sqrt(0, 0));
    } else {
        lemma_floor_sqrt_exists(n - 1);
        let s = floor_sqrt(n - 1);
        if (s + 1) * (s + 1) <= n {
            assert((s + 1) * (s + 1) < (s + 2) * (s + 2)) by (nonlinear_arith)
                requires
                    0 <= s,
            ;
            assert(is_floor_sqrt(n, s + 1));
        } else {
            assert(is_floor_sqrt(n, s));
        }
    }
}

/// Quotient and remainder of a division by a positive number.
pub proof fn lemma_div_parts(a: int, d: int) -> (qr: (int, int))
    requires
        0 < d,
    ensures
        qr.0 == a / d,
        a == d * qr.0 + qr.1,
        0 <= qr.1 < d,
{
    let q = a / d;
    let r = a % d;
    assert(a == d * q + r && 0 <= r < d) by (nonlinear_arith)
        requires
            0 < d,
            q == a / d,
            r == a % d,
    ;
    (q, r)
}

/// The floor of the square root of `n`, found by bisection.
pub fn isqrt(n: u128) -> (s: u64)
    ensures
        is_floor_sqrt(n as int, s as int),
        s == floor_sqrt(n as int),
{
    let mut lo: u128 = 0;
    let mut hi: u128 = 0x1_0000_0000_0000_0000;
    assert(0x1_0000_0000_0000_0000int * 0x1_0000_0000_0000_0000int > u128::MAX) by (nonlinear_arith);
    while hi - lo > 1
        invariant
            lo < hi <= 0x1_0000_0000_0000_0000,
            lo * lo <= n < hi * hi,
        decreases hi - lo,
    {
        let mid: u128 = lo + (hi - lo) / 2;
        assert(mid * mid <= u128::MAX) by (nonlinear_arith)
            requires
                mid < 0x1_0000_0000_0000_0000,
        ;
        if mid * mid <= n {
            lo = mid;
        } else {
            hi = mid;
        }
    }
    proof {
        lemma_floor_sqrt_is(n as int, lo as int);
    }
    lo as u64
}

/// The quotient of `a` by a positive `d`, rounded towards negative infinity. It lies
/// between zero and `a`.
pub fn floor_div(a: i128, d: i128) -> (q: i128)
    requires
        d > 0,
    ensures
        q == a as int / d as int,
        a >= 0 ==> 0 <= q <= a,
        a < 0 ==> a <= q < 0,
{
    if a >= 0 {
        a / d
    } else {
        let m: i128 = -1 - a;
        let k: i128 = m / d;
        proof {
            let r = m as int % d as int;
            assert(m == k * d + r) by (nonlinear_arith)
                requires
                    d > 0,
                    k == m as int / d as int,
                    r == m as int % d as int,
            ;
            assert(a == (-1 - k) * d + (d - 1 - r)) by (nonlinear_arith)
                requires
                    m == k * d + r,
                    a == -1 - m,
            ;
            lemma_fundamental_div_mod_converse(a as int, d as int, -1 - k, d - 1 - r);
            assert(0 <= k <= m) by (nonlinear_arith)
                requires
                    m == k * d + r,
                    0 <= r < d,
                    0 <= m,
            ;
        }
        -1 - k
    }
}

/// The product of `a` and `n` divided by a positive `d`, rounded towards negative
/// infinity; the product is formed exactly before it is divided.
pub fn mul_div(a: i64, n: i64, d: i64) -> (q: i128)
    requires
        d > 0,
    ensures
        q == (a * n) / (d as int),
{
    assert(-0x4000_0000_0000_0000_0000_0000_0000_0000 <= a * n
        <= 0x4000_0000_0000_0000_0000_0000_0000_0000) by (nonlinear_arith)
        requires
            -0x8000_0000_0000_0000 <= a <= 0x7fff_ffff_ffff_ffff,
            -0x8000_0000_0000_0000 <= n <= 0x7fff_ffff_ffff_ffff,
    ;
    floor_div(a as i128 * n as i128, d as i128)
}

/// Scaling a non-negative `a` by a factor `n / d` of magnitude at most one keeps it
/// between `-a` and `a`.
pub proof fn lemma_mul_div_within(a: int, n: int, d: int)
    requires
        0 <= a,
        0 < d,
        -d <= n <= d,
    ensures
        -a <= (a * n) / d <= a,
{
    let q = (a * n) / d;
    let r = (a * n) % d;
    assert(a * n == q * d + r && 0 <= r < d) by (nonlinear_arith)
        requires
            0 < d,
            q == (a * n) / d,
            r == (a * n) % d,
    ;
    assert(-(a * d) <= a * n <= a * d) by (nonlinear_arith)
        requires
            0 <= a,
            -d <= n <= d,
    ;
    assert(q <= a) by (nonlinear_arith)
        requires
            q * d + r <= a * d,
            0 <= r,
            0 < d,
    ;
    assert(-a <= q) by (nonlinear_arith)
        requires
            -(a * d) <= q * d + r,
            r < d,
            0 < d,
    ;
}

/// `v` as a 64-bit value, if it is one.
pub fn narrow(v: i128) -> (r: Option<i64>)
    ensures
        r matches Some(w) ==> w == v,
        r is Some <==> i64::MIN <= v <= i64::MAX,
    no_unwind
{
    if v >= -0x8000_0000_0000_0000 && v <= 0x7fff_ffff_ffff_ffff {
        Some(v as i64)
    } else {
        None
    }
}

} // verus!
