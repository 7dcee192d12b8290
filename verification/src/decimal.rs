//! Exact decimal numbers over a scaled-integer representation.
//!
//! A [`Decimal`] stores `mantissa * 10^(-scale)` with `scale <= MAX_SCALE`.
//! Its mathematical view is the integer count of `10^(-MAX_SCALE)` units it
//! denotes, so every representable number sits on one fixed grid and all
//! reasoning about values is ordinary integer arithmetic.

use vstd::arithmetic::div_mod::{
    lemma_fundamental_div_mod, lemma_fundamental_div_mod_converse_div,
    lemma_fundamental_div_mod_converse_mod, lemma_mod_division_less_than_divisor,
};
use vstd::arithmetic::mul::lemma_mul_is_associative;
use vstd::prelude::*;

verus! {

/// Greatest number of fractional digits a `Decimal` may carry.
pub const MAX_SCALE: u32 = 9;

/// `10^e` for `e >= 0`, and `1` for negative `e`.
pub open spec fn pow10(e: int) -> nat
    decreases e,
{
    if e <= 0 {
        1
    } else {
        (pow10(e - 1) * 10) as nat
    }
}

/// The number of view units in one whole: `10^MAX_SCALE`.
pub open spec fn unit() -> int {
    pow10(MAX_SCALE as int) as int
}

pub proof fn lemma_pow10_pos(e: int)
    ensures
        pow10(e) >= 1,
    decreases e,
{
    if e > 0 {
        lemma_pow10_pos(e - 1);
    }
}

pub proof fn lemma_pow10_adds(a: int, b: int)
    requires
        a >= 0,
        b >= 0,
    ensures
        pow10(a + b) == pow10(a) * pow10(b),
    decreases b,
{
    if b == 0 {
        assert(pow10(a + b) == pow10(a) * pow10(b)) by (nonlinear_arith)
            requires
                b == 0,
                pow10(b) == 1,
                pow10(a + b) == pow10(a),
        ;
    } else {
        lemma_pow10_adds(a, b - 1);
        lemma_mul_is_associative(pow10(a) as int, pow10(b - 1) as int, 10);
        assert(pow10(a + b) == (pow10(a + b - 1) * 10) as nat);
        assert(pow10(a + b - 1) == pow10(a) * pow10(b - 1));
        assert(pow10(b) == (pow10(b - 1) * 10) as nat);
    }
}

pub proof fn lemma_pow10_mono(a: int, b: int)
    requires
        a <= b,
    ensures
        pow10(a) <= pow10(b),
    decreases b - a,
{
    if a < b {
        lemma_pow10_mono(a, b - 1);
        lemma_pow10_pos(b - 1);
    }
}

pub proof fn lemma_pow10_values()
    ensures
        pow10(0) == 1,
        pow10(1) == 10,
        pow10(2) == 100,
        pow10(3) == 1_000,
        pow10(4) == 10_000,
        pow10(5) == 100_000,
        pow10(6) == 1_000_000,
        pow10(7) == 10_000_000,
        pow10(8) == 100_000_000,
        pow10(9) == 1_000_000_000,
        pow10(18) == 1_000_000_000_000_000_000,
{
    reveal_with_fuel(pow10, 19);
}

/// `10^e` as a machine integer, for the scales a `Decimal` may carry.
pub fn pow10_u64(e: u32) -> (r: u64)
    requires
        e <= MAX_SCALE,
    ensures
        r == pow10(e as int),
{
    let mut r: u64 = 1;
    let mut i: u32 = 0;
    while i < e
        invariant
            i <= e,
            e <= MAX_SCALE,
            r == pow10(i as int),
        decreases e - i,
    {
        proof {
            lemma_pow10_mono(i as int, 8);
            lemma_pow10_values();
        }
        r = r * 10;
        i = i + 1;
    }
    r
}

/// An exact decimal number `mantissa * 10^(-scale)`.
#[derive(Clone, Copy, Debug)]
pub struct Decimal {
    mantissa: i64,
    scale: u32,
}

impl View for Decimal {
    type V = int;

    /// The number of `10^(-MAX_SCALE)` units this decimal denotes.
    closed spec fn view(&self) -> int {
        (self.mantissa as int) * (pow10(MAX_SCALE as int - self.scale as int) as int)
    }
}

impl Decimal {
    #[verifier::type_invariant]
    spec fn wf(self) -> bool {
        self.scale <= MAX_SCALE
    }

    /// The decimal `mantissa * 10^(-scale)`; `None` exactly when the scale
    /// exceeds `MAX_SCALE`.
    pub fn new(mantissa: i64, scale: u32) -> (r: Option<Decimal>)
        ensures
            r is Some <==> scale <= MAX_SCALE,
            r matches Some(d) ==> d@ == (mantissa as int) * (pow10(
                MAX_SCALE as int - scale as int,
            ) as int),
    {
        if scale <= MAX_SCALE {
            Some(Decimal { mantissa, scale })
        } else {
            None
        }
    }

    /// The decimal denoting the whole number `n`.
    pub fn from_int(n: i64) -> (r: Decimal)
        ensures
            r@ == n * unit(),
    {
        Decimal { mantissa: n, scale: 0 }
    }

    /// The decimal `mantissa * 10^(-scale)` for a scale already known to be
    /// in range.
    pub(crate) fn make(mantissa: i64, scale: u32) -> (r: Decimal)
        requires
            scale <= MAX_SCALE,
        ensures
            r@ == (mantissa as int) * (pow10(MAX_SCALE as int - scale as int) as int),
    {
        Decimal { mantissa, scale }
    }

    /// The representation: a mantissa and a scale with
    /// `self == mantissa * 10^(-scale)` and `scale <= MAX_SCALE`.
    pub fn parts(&self) -> (r: (i64, u32))
        ensures
            r.1 <= MAX_SCALE,
            self@ == (r.0 as int) * (pow10(MAX_SCALE as int - r.1 as int) as int),
    {
        proof {
            use_type_invariant(self);
        }
        (self.mantissa, self.scale)
    }

    /// The whole number this decimal denotes, if it denotes one.
    pub fn as_integer(&self) -> (r: Option<i64>)
        ensures
            r is Some <==> self@ % unit() == 0,
            r matches Some(k) ==> self@ == k * unit(),
    {
        proof {
            use_type_invariant(self);
        }
        let m = self.mantissa;
        let s = self.scale;
        let d = pow10_u64(s);
        let neg = m < 0;
        let a: u128 = if neg {
            (-(m as i128)) as u128
        } else {
            m as u128
        };
        let du: u128 = d as u128;
        proof {
            lemma_pow10_pos(s as int);
        }
        let q = a / du;
        let rem = a % du;
        let ghost mi = m as int;
        let ghost ai = a as int;
        let ghost di = d as int;
        let ghost p = pow10(MAX_SCALE as int - s as int) as int;
        proof {
            lemma_pow10_pos(s as int);
            lemma_pow10_pos(MAX_SCALE as int - s as int);
            lemma_pow10_adds(s as int, MAX_SCALE as int - s as int);
            assert(di * p == unit());
            lemma_fundamental_div_mod(ai, di);
            lemma_mod_division_less_than_divisor(ai, di);
            lemma_mul_scale_div_mod(mi, di, p);
            assert(self@ == mi * p);
            assert(ai == di * (q as int) + (rem as int));
        }
        if rem != 0 {
            proof {
                if neg {
                    assert(mi == (-(q as int) - 1) * di + (di - rem as int))
                        by (nonlinear_arith)
                        requires
                            mi == -ai,
                            ai == di * (q as int) + (rem as int),
                    ;
                    lemma_fundamental_div_mod_converse_mod(
                        mi,
                        di,
                        -(q as int) - 1,
                        di - rem as int,
                    );
                } else {
                    assert(mi % di == rem as int);
                }
                assert(mi % di != 0);
                assert((mi % di) * p != 0) by (nonlinear_arith)
                    requires
                        mi % di != 0,
                        p >= 1,
                ;
                assert(self@ % unit() == (mi % di) * p);
            }
            None
        } else {
            proof {
                assert(ai == di * (q as int));
                assert(0 <= q as int <= ai) by (nonlinear_arith)
                    requires
                        ai == di * (q as int),
                        di >= 1,
                        ai >= 0,
                ;
            }
            let k: i64 = if neg {
                (-(q as i128)) as i64
            } else {
                q as i64
            };
            proof {
                assert(mi == (k as int) * di) by (nonlinear_arith)
                    requires
                        (neg ==> mi == -ai && k as int == -(q as int)) && (!neg ==> mi == ai
                            && k as int == q as int),
                        ai == di * (q as int),
                ;
                lemma_fundamental_div_mod_converse_mod(mi, di, k as int, 0);
                assert((mi % di) * p == 0) by (nonlinear_arith)
                    requires
                        mi % di == 0,
                ;
                assert(self@ % unit() == (mi % di) * p);
                assert(self@ % unit() == 0);
                assert(self@ == (k as int) * unit()) by (nonlinear_arith)
                    requires
                        self@ == mi * p,
                        mi == (k as int) * di,
                        di * p == unit(),
                ;
            }
            Some(k)
        }
    }

    /// Whether two decimals denote the same number.
    pub fn same_value(&self, other: &Decimal) -> (r: bool)
        ensures
            r == (self@ == other@),
    {
        proof {
            use_type_invariant(self);
            use_type_invariant(other);
            lemma_scaled_in_i128_range(self.mantissa as int, self.scale as int);
            lemma_scaled_in_i128_range(other.mantissa as int, other.scale as int);
        }
        let a = (self.mantissa as i128) * (pow10_u64(MAX_SCALE - self.scale) as i128);
        let b = (other.mantissa as i128) * (pow10_u64(MAX_SCALE - other.scale) as i128);
        a == b
    }
}

/// Scaling both operands of a division by a positive factor changes neither
/// divisibility nor the quotient: `(m * p) % (d * p) == (m % d) * p` and
/// `(m * p) / (d * p) == m / d`.
pub proof fn lemma_mul_scale_div_mod(m: int, d: int, p: int)
    requires
        d >= 1,
        p >= 1,
    ensures
        (m * p) % (d * p) == (m % d) * p,
        (m * p) / (d * p) == m / d,
{
    let q = m / d;
    let r = m % d;
    lemma_fundamental_div_mod(m, d);
    lemma_mod_division_less_than_divisor(m, d);
    assert(m * p == q * (d * p) + r * p) by (nonlinear_arith)
        requires
            m == d * q + r,
    ;
    assert(0 <= r * p && r * p < d * p) by (nonlinear_arith)
        requires
            0 <= r < d,
            p >= 1,
    ;
    lemma_fundamental_div_mod_converse_mod(m * p, d * p, q, r * p);
    lemma_fundamental_div_mod_converse_div(m * p, d * p, q, r * p);
}

/// A scaled mantissa stays comfortably inside `i128`.
pub(crate) proof fn lemma_scaled_in_i128_range(m: int, s: int)
    requires
        i64::MIN <= m <= i64::MAX,
        0 <= s <= MAX_SCALE,
    ensures
        -0x10000000000000000000000000 <= m * (pow10(MAX_SCALE as int - s) as int)
            <= 0x10000000000000000000000000,
{
    lemma_pow10_mono(MAX_SCALE as int - s, 9);
    lemma_pow10_pos(MAX_SCALE as int - s);
    lemma_pow10_values();
    let p = pow10(MAX_SCALE as int - s) as int;
    assert(-0x10000000000000000000000000 <= m * p <= 0x10000000000000000000000000)
        by (nonlinear_arith)
        requires
            i64::MIN <= m <= i64::MAX,
            1 <= p <= 1_000_000_000,
    ;
}

} // verus!
