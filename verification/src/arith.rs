//! Integer arithmetic shared by the modules: ceiling and truncating division.
use vstd::prelude::*;

verus! {

/// `a / b` rounded towards positive infinity, for `b > 0`.
pub open spec fn ceil_div(a: int, b: int) -> int {
    (a + b - 1) / b
}

/// `a / b` rounded towards zero, the way a signed machine division rounds.
pub open spec fn trunc_div(a: int, b: int) -> int {
    if a >= 0 {
        a / b
    } else {
        -((-a) / b)
    }
}

/// `ceil_div` is the least integer `q` with `a <= q * b`.
pub proof fn lemma_ceil_div(a: int, b: int)
    requires
        b > 0,
    ensures
        a <= ceil_div(a, b) * b,
        ceil_div(a, b) * b < a + b,
        forall|q: int| a <= #[trigger] (q * b) ==> ceil_div(a, b) <= q,
{
    let c = ceil_div(a, b);
    vstd::arithmetic::div_mod::lemma_fundamental_div_mod(a + b - 1, b);
    vstd::arithmetic::mul::lemma_mul_is_commutative(b, c);
    assert forall|q: int| a <= #[trigger] (q * b) implies c <= q by {
        if c > q {
            assert((q + 1) * b <= c * b) by (nonlinear_arith)
                requires
                    c >= q + 1,
                    b > 0,
            ;
            assert((q + 1) * b == q * b + b) by (nonlinear_arith);
        }
    }
}

/// Unsigned ceiling division.
pub fn div_ceil_u64(a: u64, b: u64) -> (r: u64)
    requires
        b > 0,
    ensures
        r == ceil_div(a as int, b as int),
{
    let q: u64 = a / b;
    let m: u64 = a % b;
    proof {
        vstd::arithmetic::div_mod::lemma_fundamental_div_mod(a as int, b as int);
        let (qi, mi, bi) = (q as int, m as int, b as int);
        if m == 0 {
            assert((qi * bi + bi - 1) / bi == qi) by (nonlinear_arith)
                requires
                    bi > 0,
            ;
            assert(bi * qi == qi * bi) by (nonlinear_arith);
        } else {
            assert((bi * qi + mi + bi - 1) / bi == qi + 1) by (nonlinear_arith)
                requires
                    bi > 0,
                    0 < mi < bi,
            ;
            assert(bi * qi >= qi) by (nonlinear_arith)
                requires
                    bi > 0,
                    qi >= 0,
            ;
        }
    }
    if m == 0 {
        q
    } else {
        q + 1
    }
}

/// Signed division rounding towards zero.
pub fn div_trunc_i64(a: i64, b: i64) -> (r: i64)
    requires
        b != 0,
        !(a == i64::MIN && b == -1),
    ensures
        r == trunc_div(a as int, b as int),
{
    proof {
        let (m, d) = (if a >= 0 { a as int } else { -(a as int) }, b as int);
        assert(-m <= m / d <= m) by (nonlinear_arith)
            requires
                m >= 0,
                d != 0,
        ;
        assert(d != -1 ==> 2 * (m / d) >= -m) by (nonlinear_arith)
            requires
                m >= 0,
                d != 0,
        ;
    }
    a / b
}

/// Dividing towards zero loses less than the divisor and never passes the quotient.
pub proof fn law_truncation_loses_less_than_one(a: int, b: int)
    requires
        b > 0,
    ensures
        a >= 0 ==> 0 <= a - trunc_div(a, b) * b < b,
        a <= 0 ==> 0 <= trunc_div(a, b) * b - a < b,
        trunc_div(-a, b) == -trunc_div(a, b),
{
    let m = if a >= 0 { a } else { -a };
    vstd::arithmetic::div_mod::lemma_fundamental_div_mod(m, b);
    vstd::arithmetic::div_mod::lemma_mod_bound(m, b);
    let q = m / b;
    assert(q * b == b * q && (-q) * b == -(b * q)) by (nonlinear_arith);
    if a == 0 {
        assert(q == 0) by (nonlinear_arith)
            requires
                b * q + m % b == 0,
                0 <= m % b,
                b > 0,
                q == m / b,
                m == 0,
        ;
    }
}

} // verus!
