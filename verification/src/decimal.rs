//! Fixed-point decimals and the rounding rule shared by all scoring.

use crate::text::{digits_of, magnitude, magnitude_of, pad_int, push_digits, sign_of, zero_padded};
use vstd::arithmetic::div_mod::lemma_fundamental_div_mod_converse;
use vstd::prelude::*;
use vstd::string::*;

verus! {

/// Units in one whole: a [`Decimal`] counts ten-thousandths.
pub const SCALE: i32 = 10_000;

/// Largest magnitude of a dividend that [`div_round`] accepts (2^100).
pub const DIVIDEND_LIMIT: i128 = 0x10_0000_0000_0000_0000_0000_0000;

/// A decimal number with four fractional digits, held as a whole number of
/// ten-thousandths: `Decimal { units: 12_500 }` is 1.25.
#[derive(Clone, Copy, Debug, PartialEq, Eq, Structural)]
pub struct Decimal {
    pub units: i32,
}

/// The integer nearest to the fraction `n / d`; a fraction that lies exactly
/// between two integers goes to the larger one.
pub open spec fn round_div(n: int, d: int) -> int
    recommends
        d != 0,
{
    if d > 0 {
        (2 * n + d) / (2 * d)
    } else {
        (-2 * n - d) / (-2 * d)
    }
}

/// `x` limited to the interval from `low` to `high`.
pub open spec fn clamp(x: int, low: int, high: int) -> int
    recommends
        low <= high,
{
    if x < low {
        low
    } else if x > high {
        high
    } else {
        x
    }
}

/// Flooring division of a negative dividend, written with the division of
/// non-negative numbers that machine integers offer.
proof fn lemma_floor_div_negative(m: int, k: int)
    requires
        m < 0,
        k > 0,
    ensures
        m / k == -((-m + k - 1) / k),
{
    let a = -m + k - 1;
    let c = a / k;
    let rem = a % k;
    vstd::arithmetic::div_mod::lemma_fundamental_div_mod(a, k);
    vstd::arithmetic::div_mod::lemma_mod_bound(a, k);
    assert(m == (-c) * k + (k - 1 - rem)) by (nonlinear_arith)
        requires
            a == k * c + rem,
            a == -m + k - 1,
    ;
    lemma_fundamental_div_mod_converse(m, k, -c, k - 1 - rem);
}

/// The rounded quotient is the integer nearest to the fraction: the fraction
/// is at most half above it and less than half below it.
pub proof fn lemma_round_div_nearest(n: int, d: int)
    requires
        d != 0,
    ensures
        d > 0 ==> -d <= 2 * (n - round_div(n, d) * d) < d,
        d < 0 ==> d < 2 * (n - round_div(n, d) * d) <= -d,
{
    let (m, k) = if d > 0 {
        (2 * n + d, 2 * d)
    } else {
        (-2 * n - d, -2 * d)
    };
    let q = m / k;
    let r = m % k;
    vstd::arithmetic::div_mod::lemma_fundamental_div_mod(m, k);
    vstd::arithmetic::div_mod::lemma_mod_bound(m, k);
    if d > 0 {
        assert(-d <= 2 * (n - q * d) < d) by (nonlinear_arith)
            requires
                d > 0,
                2 * n + d == (2 * d) * q + r,
                0 <= r < 2 * d,
        ;
    } else {
        assert(d < 2 * (n - q * d) <= -d) by (nonlinear_arith)
            requires
                d < 0,
                -2 * n - d == (-2 * d) * q + r,
                0 <= r < -2 * d,
        ;
    }
}

/// A rounded quotient is no larger in magnitude than the dividend, but for
/// the one that rounding may add.
pub proof fn lemma_round_div_bound(n: int, d: int)
    requires
        d != 0,
    ensures
        n >= 0 ==> -n - 1 <= round_div(n, d) <= n + 1,
        n <= 0 ==> n - 1 <= round_div(n, d) <= -n + 1,
{
    let (m, k) = if d > 0 {
        (2 * n + d, 2 * d)
    } else {
        (-2 * n - d, -2 * d)
    };
    let q = m / k;
    let r = m % k;
    vstd::arithmetic::div_mod::lemma_fundamental_div_mod(m, k);
    vstd::arithmetic::div_mod::lemma_mod_bound(m, k);
    let e = if d > 0 {
        d
    } else {
        -d
    };
    let a = if n >= 0 {
        n
    } else {
        -n
    };
    assert(-a - 1 <= q <= a + 1) by (nonlinear_arith)
        requires
            e >= 1,
            k == 2 * e,
            a >= 0,
            -2 * a + e <= m <= 2 * a + e,
            m == k * q + r,
            0 <= r < k,
    ;
}

/// A multiple of the divisor is divided without rounding.
pub proof fn lemma_round_div_exact(q: int, d: int)
    requires
        d != 0,
    ensures
        round_div(q * d, d) == q,
{
    if d > 0 {
        assert(2 * (q * d) + d == q * (2 * d) + d) by (nonlinear_arith);
        lemma_fundamental_div_mod_converse(2 * (q * d) + d, 2 * d, q, d);
    } else {
        assert(-2 * (q * d) - d == q * (-2 * d) + (-d)) by (nonlinear_arith);
        lemma_fundamental_div_mod_converse(-2 * (q * d) - d, -2 * d, q, -d);
    }
}

/// The product of two 32-bit numbers, which 64 bits always hold.
pub fn product(a: i32, b: i32) -> (p: i64)
    ensures
        p == a * b,
        -0x4000_0000_0000_0000 <= p <= 0x4000_0000_0000_0000,
{
    assert(-0x4000_0000_0000_0000 <= a * b <= 0x4000_0000_0000_0000) by (nonlinear_arith)
        requires
            -0x8000_0000 <= a <= 0x7fff_ffff,
            -0x8000_0000 <= b <= 0x7fff_ffff,
    ;
    (a as i64) * (b as i64)
}

/// Divides and rounds to the nearest integer, a tie going up.
pub fn div_round(n: i128, d: i64) -> (q: i128)
    requires
        d != 0,
        -DIVIDEND_LIMIT <= n <= DIVIDEND_LIMIT,
    ensures
        q == round_div(n as int, d as int),
        -DIVIDEND_LIMIT - 1 <= q <= DIVIDEND_LIMIT + 1,
{
    proof {
        lemma_round_div_bound(n as int, d as int);
    }
    let (m, k): (i128, i128) = if d > 0 {
        (2 * n + (d as i128), 2 * (d as i128))
    } else {
        (0 - 2 * n - (d as i128), 0 - 2 * (d as i128))
    };
    if m >= 0 {
        m / k
    } else {
        proof {
            lemma_floor_div_negative(m as int, k as int);
        }
        0 - ((0 - m + k - 1) / k)
    }
}

/// A rounded quotient of a dividend between 0 and `high` times the divisor
/// lies between 0 and `high`.
pub proof fn lemma_round_div_range(n: int, d: int, high: int)
    requires
        d > 0,
        0 <= n <= high * d,
    ensures
        0 <= round_div(n, d) <= high,
{
    let m = 2 * n + d;
    let k = 2 * d;
    vstd::arithmetic::div_mod::lemma_fundamental_div_mod(m, k);
    vstd::arithmetic::div_mod::lemma_mod_bound(m, k);
    let q = m / k;
    let r = m % k;
    assert(0 <= q <= high) by (nonlinear_arith)
        requires
            d > 0,
            0 <= n <= high * d,
            m == 2 * n + d,
            k == 2 * d,
            m == k * q + r,
            0 <= r < k,
    ;
}

/// The number of hundredths nearest to the magnitude of a number of units, a
/// tie going up.
pub open spec fn hundredths_of(units: int) -> nat {
    (magnitude(units) + 50) / 100
}

/// A decimal written with two fractional digits: a minus for a negative
/// number, the whole part, a point, and two digits, the number being rounded
/// to the nearest hundredth with a tie going away from zero.
pub open spec fn two_decimals(units: int) -> Seq<char> {
    sign_of(units) + digits_of(hundredths_of(units) / 100) + "."@ + zero_padded(
        (hundredths_of(units) % 100) as int,
        2,
    )
}

impl Decimal {
    /// The decimal that stands for a whole number, where it is within range.
    pub fn from_int(whole: i32) -> (r: Option<Decimal>)
        ensures
            match r {
                Some(d) => d.units == whole * SCALE,
                None => whole * SCALE < i32::MIN || whole * SCALE > i32::MAX,
            },
    {
        let units: i64 = product(whole, SCALE);
        if units < i32::MIN as i64 || units > i32::MAX as i64 {
            None
        } else {
            Some(Decimal { units: units as i32 })
        }
    }

    /// Writes the decimal with two fractional digits.
    pub fn to_fixed2(&self) -> (r: String)
        ensures
            r@ == two_decimals(self.units as int),
    {
        write_two_decimals(self.units as i64)
    }
}

/// Writes a number of units as a decimal with two fractional digits.
pub fn write_two_decimals(units: i64) -> (r: String)
    ensures
        r@ == two_decimals(units as int),
{
    let hundredths: u64 = (magnitude_of(units) + 50) / 100;
    let mut out = String::new();
    if units < 0 {
        out.append("-");
    }
    proof {
        reveal_strlit("-");
        assert(out@ =~= sign_of(units as int));
    }
    push_digits(&mut out, hundredths / 100);
    out.append(".");
    out.append(pad_int((hundredths % 100) as i64, 2).as_str());
    out
}

} // verus!
