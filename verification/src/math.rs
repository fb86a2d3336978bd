//! Checked wide-precision arithmetic for the pricing engine.
//!
//! Reserve quantities are 128-bit, so intermediate products need up to 256
//! bits.  [`Wide`] holds such a product as two 128-bit halves; every
//! operation on it is exact or explicitly fails, and each carries a contract
//! describing its result as a mathematical integer.

use vstd::prelude::*;
use vstd::arithmetic::div_mod::{
    lemma_fundamental_div_mod, lemma_fundamental_div_mod_converse,
};

verus! {

/// 2^128 as a specification-level integer.
pub open spec fn pow128() -> int {
    0x100000000000000000000000000000000int
}

/// 2^256 as a specification-level integer.
pub open spec fn pow256() -> int {
    pow128() * pow128()
}

/// An unsigned 256-bit value, kept as two 128-bit halves.
#[derive(Clone, Copy, Debug, PartialEq, Eq, Structural)]
pub struct Wide {
    /// The most significant 128 bits.
    pub hi: u128,
    /// The least significant 128 bits.
    pub lo: u128,
}

impl Wide {
    /// The mathematical value held by this pair of halves.
    pub open spec fn val(self) -> int {
        self.hi * pow128() + self.lo
    }

    /// The zero value.
    pub fn zero() -> (r: Wide)
        ensures
            r.val() == 0,
    {
        Wide { hi: 0, lo: 0 }
    }

    /// Embeds a 128-bit value.
    pub fn from_u128(x: u128) -> (r: Wide)
        ensures
            r.val() == x,
    {
        Wide { hi: 0, lo: x }
    }

    /// Narrows back to 128 bits; fails when the value does not fit.
    pub fn to_u128(self) -> (r: Option<u128>)
        ensures
            r == if self.val() <= u128::MAX { Some(self.lo) } else { None::<u128> },
            r is Some ==> r->0 == self.val(),
    {
        if self.hi == 0 {
            Some(self.lo)
        } else {
            assert(self.val() > u128::MAX) by (nonlinear_arith)
                requires self.hi >= 1 && self.val() == self.hi * pow128() + self.lo;
            None
        }
    }

    /// True when the value is zero.
    pub fn is_zero(self) -> (r: bool)
        ensures
            r == (self.val() == 0),
    {
        self.hi == 0 && self.lo == 0
    }
}

/// Every wide value is non-negative and below 2^256.
pub proof fn lemma_wide_range(w: Wide)
    ensures
        0 <= w.val() < pow256(),
{
    assert(0 <= w.hi * pow128() + w.lo < pow128() * pow128()) by (nonlinear_arith)
        requires 0 <= w.hi <= u128::MAX && 0 <= w.lo <= u128::MAX;
}

/// Compares two wide values.
pub fn wide_le(a: Wide, b: Wide) -> (r: bool)
    ensures
        r == (a.val() <= b.val()),
{
    proof {
        if a.hi < b.hi {
            assert(a.val() < b.val()) by (nonlinear_arith)
                requires
                    a.hi + 1 <= b.hi,
                    a.val() == a.hi * pow128() + a.lo,
                    b.val() == b.hi * pow128() + b.lo,
                    0 <= a.lo <= u128::MAX,
                    0 <= b.lo,
            ;
        }
        if a.hi > b.hi {
            assert(a.val() > b.val()) by (nonlinear_arith)
                requires
                    b.hi + 1 <= a.hi,
                    a.val() == a.hi * pow128() + a.lo,
                    b.val() == b.hi * pow128() + b.lo,
                    0 <= b.lo <= u128::MAX,
                    0 <= a.lo,
            ;
        }
    }
    if a.hi < b.hi {
        true
    } else if a.hi > b.hi {
        false
    } else {
        a.lo <= b.lo
    }
}

/// Sum of two wide values, which the caller shows cannot overflow.
pub fn wide_add(a: Wide, b: Wide) -> (r: Wide)
    requires
        a.val() + b.val() < pow256(),
    ensures
        r.val() == a.val() + b.val(),
{
    let (lo, carry): (u128, u128) = if a.lo <= u128::MAX - b.lo {
        (a.lo + b.lo, 0)
    } else {
        // a.lo + b.lo == 2^128 + (a.lo - (u128::MAX - b.lo) - 1)
        (a.lo - (u128::MAX - b.lo) - 1, 1)
    };
    assert(a.lo + b.lo == carry * pow128() + lo);
    assert(a.hi + b.hi + carry < pow128()) by (nonlinear_arith)
        requires
            a.hi * pow128() + a.lo + b.hi * pow128() + b.lo < pow128() * pow128(),
            a.lo + b.lo == carry * pow128() + lo,
            0 <= lo,
            0 <= a.hi,
            0 <= b.hi,
            carry == 0 || carry == 1,
    ;
    let hi = a.hi + b.hi + carry;
    let r = Wide { hi, lo };
    assert(r.val() == a.val() + b.val()) by (nonlinear_arith)
        requires
            r.val() == (a.hi + b.hi + carry) * pow128() + lo,
            a.val() == a.hi * pow128() + a.lo,
            b.val() == b.hi * pow128() + b.lo,
            a.lo + b.lo == carry * pow128() + lo,
    ;
    r
}

/// Checked sum of two wide values.
pub fn wide_add_checked(a: Wide, b: Wide) -> (r: Option<Wide>)
    ensures
        a.val() + b.val() < pow256() ==> (r is Some && r->0.val() == a.val() + b.val()),
        a.val() + b.val() >= pow256() ==> r is None,
{
    let (lo, carry): (u128, u128) = if a.lo <= u128::MAX - b.lo {
        (a.lo + b.lo, 0)
    } else {
        (a.lo - (u128::MAX - b.lo) - 1, 1)
    };
    assert(a.lo + b.lo == carry * pow128() + lo);
    if a.hi <= u128::MAX - b.hi && a.hi + b.hi <= u128::MAX - carry {
        let hi = a.hi + b.hi + carry;
        let r = Wide { hi, lo };
        assert(r.val() == a.val() + b.val() && a.val() + b.val() < pow256()) by (nonlinear_arith)
            requires
                r.val() == (a.hi + b.hi + carry) * pow128() + lo,
                a.val() == a.hi * pow128() + a.lo,
                b.val() == b.hi * pow128() + b.lo,
                a.lo + b.lo == carry * pow128() + lo,
                a.hi + b.hi + carry <= u128::MAX,
                0 <= lo <= u128::MAX,
        ;
        Some(r)
    } else {
        assert(a.val() + b.val() >= pow256()) by (nonlinear_arith)
            requires
                a.val() == a.hi * pow128() + a.lo,
                b.val() == b.hi * pow128() + b.lo,
                a.lo + b.lo == carry * pow128() + lo,
                a.hi + b.hi + carry > u128::MAX,
                0 <= lo,
        ;
        None
    }
}

/// Difference of two wide values, defined when the subtrahend is no larger.
pub fn wide_sub(a: Wide, b: Wide) -> (r: Wide)
    requires
        b.val() <= a.val(),
    ensures
        r.val() == a.val() - b.val(),
{
    let (lo, borrow): (u128, u128) = if a.lo >= b.lo {
        (a.lo - b.lo, 0)
    } else {
        // a.lo + 2^128 - b.lo
        (a.lo + (u128::MAX - b.lo) + 1, 1)
    };
    assert(lo == a.lo - b.lo + borrow * pow128());
    assert(b.hi + borrow <= a.hi) by (nonlinear_arith)
        requires
            b.hi * pow128() + b.lo <= a.hi * pow128() + a.lo,
            lo == a.lo - b.lo + borrow * pow128(),
            0 <= lo <= u128::MAX,
            0 <= a.lo <= u128::MAX,
            0 <= b.lo <= u128::MAX,
            borrow == 0 || borrow == 1,
    ;
    let hi = a.hi - b.hi - borrow;
    let r = Wide { hi, lo };
    assert(r.val() == a.val() - b.val()) by (nonlinear_arith)
        requires
            r.val() == (a.hi - b.hi - borrow) * pow128() + lo,
            a.val() == a.hi * pow128() + a.lo,
            b.val() == b.hi * pow128() + b.lo,
            lo == a.lo - b.lo + borrow * pow128(),
    ;
    r
}

/// Half of a wide value, rounded down.
pub fn wide_half(a: Wide) -> (r: Wide)
    ensures
        r.val() == a.val() / 2,
{
    let r = Wide { hi: a.hi / 2, lo: a.lo / 2 + (a.hi % 2) * 0x80000000000000000000000000000000u128 };
    proof {
        lemma_fundamental_div_mod(a.hi as int, 2);
        lemma_fundamental_div_mod(a.lo as int, 2);
        assert(a.val() == 2 * r.val() + a.lo % 2) by (nonlinear_arith)
            requires
                a.val() == a.hi * pow128() + a.lo,
                r.val() == (a.hi / 2) * pow128() + (a.lo / 2 + (a.hi % 2)
                    * 0x80000000000000000000000000000000int),
                a.hi == 2 * (a.hi / 2) + a.hi % 2,
                a.lo == 2 * (a.lo / 2) + a.lo % 2,
        ;
        lemma_fundamental_div_mod_converse(a.val(), 2, r.val(), (a.lo % 2) as int);
    }
    r
}

/// Product of two 128-bit values, exact in 256 bits.
pub fn wide_mul(a: u128, b: u128) -> (r: Wide)
    ensures
        r.val() == a * b,
    decreases a,
{
    if a == 0 {
        Wide::zero()
    } else {
        let h = wide_mul(a / 2, b);
        proof {
            lemma_fundamental_div_mod(a as int, 2);
            lemma_wide_range(h);
            assert(2 * h.val() + (a % 2) * b == a * b && a * b < pow256()) by (nonlinear_arith)
                requires
                    h.val() == (a / 2) * b,
                    a == 2 * (a / 2) + a % 2,
                    0 <= a <= u128::MAX,
                    0 <= b <= u128::MAX,
                    pow256() == pow128() * pow128(),
                    pow128() == 0x100000000000000000000000000000000int,
            ;
        }
        let hh = wide_add(h, h);
        if a % 2 == 1 {
            proof {
                assert((a % 2) * b == b) by (nonlinear_arith)
                    requires a % 2 == 1;
            }
            wide_add(hh, Wide::from_u128(b))
        } else {
            proof {
                assert((a % 2) * b == 0) by (nonlinear_arith)
                    requires a % 2 == 0;
            }
            hh
        }
    }
}

/// Euclidean division of a wide value by a non-zero wide divisor.
///
/// Returns the quotient and the remainder.
pub fn wide_divmod(n: Wide, d: Wide) -> (r: (Wide, Wide))
    requires
        d.val() > 0,
    ensures
        r.0.val() == n.val() / d.val(),
        r.1.val() == n.val() % d.val(),
    decreases n.val(),
{
    proof {
        lemma_wide_range(n);
        lemma_wide_range(d);
    }
    if wide_le(d, n) {
        let half = wide_half(n);
        proof {
            lemma_fundamental_div_mod(n.val(), 2);
            assert(half.val() < n.val());
        }
        let (q1, r1) = wide_divmod(half, d);
        let bit: u128 = n.lo % 2;
        proof {
            lemma_fundamental_div_mod(half.val(), d.val());
            lemma_fundamental_div_mod(n.lo as int, 2);
            lemma_fundamental_div_mod(n.hi as int, 2);
            // The low bit of the value is the low bit of the low half.
            assert(n.val() % 2 == n.lo % 2) by (nonlinear_arith)
                requires
                    n.val() == n.hi * pow128() + n.lo,
                    pow128() == 0x100000000000000000000000000000000int,
                    n.lo == 2 * (n.lo / 2) + n.lo % 2,
                    0 <= n.lo % 2 < 2,
                    0 <= n.hi,
            ;
            lemma_fundamental_div_mod(n.val(), 2);
        }
        // n == 2 * half + bit, half == q1 * d + r1 with r1 < d.
        let ghost nv = n.val();
        let ghost dv = d.val();
        assert(nv == (2 * q1.val()) * dv + (2 * r1.val() + bit)) by (nonlinear_arith)
            requires
                nv == 2 * (q1.val() * dv + r1.val()) + bit,
        ;
        proof {
            lemma_wide_range(q1);
            lemma_wide_range(r1);
            // The doubled quotient still fits in 256 bits.
            assert(2 * q1.val() <= nv) by (nonlinear_arith)
                requires
                    nv == (2 * q1.val()) * dv + (2 * r1.val() + bit),
                    dv >= 1,
                    q1.val() >= 0,
                    r1.val() >= 0,
                    bit >= 0,
            ;
        }
        // Compute 2*r1 + bit without overflowing: r1 < d <= 2^256 - 1.
        let diff = wide_sub(d, r1);
        let r1b = wide_add(r1, Wide::from_u128(bit));
        if wide_le(diff, r1b) {
            // Quotient bit is one.
            proof {
                assert(2 * q1.val() + 1 <= nv) by (nonlinear_arith)
                    requires
                        nv == (2 * q1.val()) * dv + (2 * r1.val() + bit),
                        2 * r1.val() + bit >= dv,
                        dv >= 1,
                        q1.val() >= 0,
                ;
            }
            let r2 = wide_sub(r1b, diff);
            let q2 = wide_add(wide_add(q1, q1), Wide::from_u128(1));
            proof {
                assert(nv == (2 * q1.val() + 1) * dv + r2.val()) by (nonlinear_arith)
                    requires
                        nv == (2 * q1.val()) * dv + (2 * r1.val() + bit),
                        r2.val() == r1.val() + bit - (dv - r1.val()),
                ;
                assert(r2.val() < dv);
                lemma_fundamental_div_mod_converse(nv, dv, 2 * q1.val() + 1, r2.val());
            }
            (q2, r2)
        } else {
            // Quotient bit is zero: the remainder 2*r1 + bit stays below d.
            let r2 = wide_add(wide_add(r1, r1), Wide::from_u128(bit));
            let q2 = wide_add(q1, q1);
            proof {
                lemma_fundamental_div_mod_converse(nv, dv, 2 * q1.val(), r2.val());
            }
            (q2, r2)
        }
    } else {
        proof {
            lemma_fundamental_div_mod_converse(n.val(), d.val(), 0, n.val());
        }
        (Wide::zero(), n)
    }
}

/// Quotient of `a / b`, rounded towards positive infinity.
pub open spec fn ceil_div_int(a: int, b: int) -> int
    recommends
        b > 0,
{
    a / b + if a % b == 0 { 0int } else { 1int }
}

/// The divisor that a ceiling division hands back beside its quotient: the
/// smallest divisor that still yields the same rounded-up quotient.
pub open spec fn ceil_div_back(a: int, b: int) -> int
    recommends
        b > 0,
        a / b > 0,
{
    if a % b == 0 { b } else { ceil_div_int(a, ceil_div_int(a, b)) }
}

/// Ceiling division with a floored-quotient guard, on 128-bit values.
///
/// Fails when the divisor is zero or when the floored quotient would be
/// zero, so that a rounded-up `1` can never be produced out of nothing.
/// On success returns the rounded-up quotient together with the smallest
/// divisor that still yields it.
pub fn checked_ceil_div(lhs: u128, rhs: u128) -> (r: Option<(u128, u128)>)
    ensures
        (rhs == 0 || lhs / rhs == 0) <==> r is None,
        r is Some ==> (r->0).0 == ceil_div_int(lhs as int, rhs as int),
        r is Some ==> (r->0).1 == ceil_div_back(lhs as int, rhs as int),
{
    if rhs == 0 {
        return None;
    }
    let q0 = lhs / rhs;
    if q0 == 0 {
        return None;
    }
    let rem = lhs % rhs;
    proof {
        lemma_fundamental_div_mod(lhs as int, rhs as int);
    }
    if rem == 0 {
        Some((q0, rhs))
    } else {
        // A non-zero remainder forces the divisor to be at least two.
        assert(q0 + 1 <= u128::MAX && q0 + 1 >= 2) by (nonlinear_arith)
            requires
                lhs == q0 * rhs + rem,
                0 < rem < rhs,
                q0 >= 1,
                lhs <= u128::MAX,
        ;
        let q = q0 + 1;
        let d0 = lhs / q;
        let back = if lhs % q > 0 {
            proof {
                lemma_fundamental_div_mod(lhs as int, q as int);
                assert(d0 + 1 <= u128::MAX) by (nonlinear_arith)
                    requires
                        lhs == q * d0 + lhs % q,
                        q >= 2,
                        d0 >= 0,
                        lhs <= u128::MAX,
                ;
            }
            d0 + 1
        } else {
            d0
        };
        Some((q, back))
    }
}

/// Ceiling division of a wide value by a non-zero wide divisor.
pub fn wide_ceil_div(n: Wide, d: Wide) -> (r: Wide)
    requires
        d.val() > 0,
    ensures
        r.val() == ceil_div_int(n.val(), d.val()),
{
    let (q, rem) = wide_divmod(n, d);
    if rem.is_zero() {
        q
    } else {
        proof {
            lemma_wide_range(n);
            lemma_fundamental_div_mod(n.val(), d.val());
            // A non-zero remainder forces the divisor to be at least two,
            // so the rounded-up quotient still fits.
            assert(q.val() + 1 < pow256()) by (nonlinear_arith)
                requires
                    n.val() == q.val() * d.val() + rem.val(),
                    0 < rem.val() < d.val(),
                    q.val() >= 0,
                    n.val() < pow256(),
            ;
        }
        wide_add(q, Wide::from_u128(1))
    }
}

/// Checked product of a wide value by a 128-bit factor.
pub fn wide_mul_by_u128(w: Wide, m: u128) -> (r: Option<Wide>)
    ensures
        w.val() * m < pow256() ==> (r is Some && r->0.val() == w.val() * m),
        w.val() * m >= pow256() ==> r is None,
    decreases m,
{
    proof {
        lemma_wide_range(w);
    }
    if m == 0 {
        proof {
            assert(w.val() * 0 == 0) by (nonlinear_arith);
        }
        Some(Wide::zero())
    } else {
        proof {
            lemma_fundamental_div_mod(m as int, 2);
            assert(w.val() * (m / 2) <= w.val() * m
                && 2 * (w.val() * (m / 2)) + (m % 2) * w.val() == w.val() * m) by (nonlinear_arith)
                requires
                    m == 2 * (m / 2) + m % 2,
                    m >= 1,
                    w.val() >= 0,
            ;
        }
        let h = match wide_mul_by_u128(w, m / 2) {
            Some(h) => h,
            None => {
                return None;
            },
        };
        let hh = match wide_add_checked(h, h) {
            Some(hh) => hh,
            None => {
                return None;
            },
        };
        if m % 2 == 1 {
            proof {
                assert((m % 2) * w.val() == w.val()) by (nonlinear_arith)
                    requires m % 2 == 1;
            }
            wide_add_checked(hh, w)
        } else {
            proof {
                assert((m % 2) * w.val() == 0) by (nonlinear_arith)
                    requires m % 2 == 0;
            }
            Some(hh)
        }
    }
}

/// Floor of the square root of a non-negative integer.
pub open spec fn sqrt_floor(v: int) -> int
    decreases v,
{
    if v < 1 {
        0
    } else {
        let s = 2 * sqrt_floor(v / 4);
        if (s + 1) * (s + 1) <= v {
            s + 1
        } else {
            s
        }
    }
}

/// Ceiling of the square root of a non-negative integer.
pub open spec fn sqrt_ceil(v: int) -> int {
    if sqrt_floor(v) * sqrt_floor(v) == v {
        sqrt_floor(v)
    } else {
        sqrt_floor(v) + 1
    }
}

/// The floored square root is the unique value whose square brackets `v`.
pub proof fn lemma_sqrt_floor_bounds(v: int)
    requires
        v >= 0,
    ensures
        sqrt_floor(v) >= 0,
        sqrt_floor(v) * sqrt_floor(v) <= v,
        v < (sqrt_floor(v) + 1) * (sqrt_floor(v) + 1),
    decreases v,
{
    if v < 1 {
    } else {
        lemma_fundamental_div_mod(v, 4);
        lemma_sqrt_floor_bounds(v / 4);
        let s0 = sqrt_floor(v / 4);
        let s = 2 * s0;
        assert(s * s <= v && v < (s + 2) * (s + 2)) by (nonlinear_arith)
            requires
                s == 2 * s0,
                s0 * s0 <= v / 4,
                v / 4 < (s0 + 1) * (s0 + 1),
                v == 4 * (v / 4) + v % 4,
                0 <= v % 4 < 4,
        ;
        if (s + 1) * (s + 1) <= v {
            assert(sqrt_floor(v) == s + 1);
        } else {
            assert(sqrt_floor(v) == s);
        }
    }
}

/// Any value whose square brackets `v` is the floored square root.
pub proof fn lemma_sqrt_floor_unique(r: int, v: int)
    requires
        r >= 0,
        r * r <= v,
        v < (r + 1) * (r + 1),
    ensures
        r == sqrt_floor(v),
{
    lemma_sqrt_floor_bounds(v);
    let s = sqrt_floor(v);
    assert(r == s) by (nonlinear_arith)
        requires
            r >= 0,
            s >= 0,
            r * r <= v < (r + 1) * (r + 1),
            s * s <= v < (s + 1) * (s + 1),
    ;
}

/// The floored square root of a 256-bit value fits in 128 bits.
pub proof fn lemma_sqrt_floor_fits_u128(v: int)
    requires
        0 <= v < pow256(),
    ensures
        0 <= sqrt_floor(v) <= u128::MAX,
{
    lemma_sqrt_floor_bounds(v);
    assert(sqrt_floor(v) <= u128::MAX) by (nonlinear_arith)
        requires
            sqrt_floor(v) * sqrt_floor(v) <= v,
            v < pow256(),
            pow256() == pow128() * pow128(),
            pow128() == 0x100000000000000000000000000000000int,
            sqrt_floor(v) >= 0,
    ;
}

/// The floored square root is monotonic.
pub proof fn lemma_sqrt_floor_monotonic(a: int, b: int)
    requires
        0 <= a <= b,
    ensures
        sqrt_floor(a) <= sqrt_floor(b),
{
    lemma_sqrt_floor_bounds(a);
    lemma_sqrt_floor_bounds(b);
    assert(sqrt_floor(a) <= sqrt_floor(b)) by (nonlinear_arith)
        requires
            sqrt_floor(a) >= 0,
            sqrt_floor(b) >= 0,
            sqrt_floor(a) * sqrt_floor(a) <= a,
            a <= b,
            b < (sqrt_floor(b) + 1) * (sqrt_floor(b) + 1),
    ;
}

/// Floor of the square root of a wide value, which always fits in 128 bits.
pub fn wide_isqrt(n: Wide) -> (r: u128)
    ensures
        r * r <= n.val() < (r + 1) * (r + 1),
        r == sqrt_floor(n.val()),
    decreases n.val(),
{
    proof {
        lemma_wide_range(n);
    }
    if n.is_zero() {
        0
    } else {
        let quarter = wide_half(wide_half(n));
        proof {
            lemma_fundamental_div_mod(n.val(), 2);
            lemma_fundamental_div_mod(n.val() / 2, 2);
            assert(quarter.val() < n.val());
        }
        let s = wide_isqrt(quarter);
        let ghost nv = n.val();
        let ghost qv = quarter.val();
        proof {
            // n / 4 == quarter, so 4 * quarter <= n <= 4 * quarter + 3.
            assert(4 * qv <= nv <= 4 * qv + 3);
            assert(s < 0x80000000000000000000000000000000u128) by (nonlinear_arith)
                requires
                    s * s <= qv,
                    qv < pow256() / 4,
                    pow256() == pow128() * pow128(),
                    pow128() == 0x100000000000000000000000000000000int,
                    s >= 0,
            ;
        }
        let t = 2 * s + 1;
        let tsq = wide_mul(t, t);
        let fits = wide_le(tsq, n);
        proof {
            assert((2 * s) * (2 * s) <= nv) by (nonlinear_arith)
                requires
                    s * s <= qv,
                    4 * qv <= nv,
            ;
            assert(nv < (2 * s + 2) * (2 * s + 2)) by (nonlinear_arith)
                requires
                    qv < (s + 1) * (s + 1),
                    nv <= 4 * qv + 3,
            ;
        }
        if fits {
            proof {
                lemma_sqrt_floor_unique(t as int, nv);
            }
            t
        } else {
            proof {
                lemma_sqrt_floor_unique(2 * s, nv);
            }
            2 * s
        }
    }
}

/// Ceiling of the square root of a wide value no larger than the square
/// of the largest 128-bit value.
pub fn wide_sqrt_ceil(n: Wide) -> (r: u128)
    requires
        n.val() <= u128::MAX * u128::MAX,
    ensures
        r == sqrt_ceil(n.val()),
{
    let s = wide_isqrt(n);
    let sq = wide_mul(s, s);
    if sq.hi == n.hi && sq.lo == n.lo {
        s
    } else {
        proof {
            assert(sq.val() != n.val());
            assert(s < u128::MAX) by (nonlinear_arith)
                requires
                    s * s <= n.val(),
                    s * s != n.val(),
                    n.val() <= u128::MAX * u128::MAX,
                    s >= 0,
            ;
        }
        s + 1
    }
}

} // verus!
