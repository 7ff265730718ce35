//! Signed fixed-point numbers with six decimal places.
//!
//! Every quantity of the simulation (lengths, velocities, forces, time steps)
//! is a `Fixed`: a 64-bit integer counting millionths. All operations are
//! total except division by zero; results that leave the 64-bit range are
//! clamped to it, and products and quotients are rounded toward zero.

use vstd::prelude::*;

verus! {

/// Raw units per whole unit: a `Fixed` with raw value `r` stands for `r / 1_000_000`.
pub const SCALE: i64 = 1_000_000;

/// Clamps a mathematical integer into the 64-bit signed range.
pub open spec fn sat(x: int) -> int {
    if x < i64::MIN as int {
        i64::MIN as int
    } else if x > i64::MAX as int {
        i64::MAX as int
    } else {
        x
    }
}

/// Quotient of `n` by `d` rounded toward zero (`d` is not zero).
pub open spec fn tdiv(n: int, d: int) -> int
    recommends
        d != 0,
{
    if d > 0 {
        if n >= 0 {
            n / d
        } else {
            -((-n) / d)
        }
    } else {
        if n >= 0 {
            -(n / (-d))
        } else {
            (-n) / (-d)
        }
    }
}

/// The exact product of two raw values, brought back to raw units.
pub open spec fn mul_raw(a: int, b: int) -> int {
    tdiv(a * b, SCALE as int)
}

/// The exact quotient of two raw values, brought back to raw units.
pub open spec fn div_raw(a: int, b: int) -> int
    recommends
        b != 0,
{
    tdiv(a * (SCALE as int), b)
}

/// `r` is the integer square root of `n`: the largest integer whose square does not exceed `n`.
pub open spec fn is_isqrt(n: int, r: int) -> bool {
    0 <= r && r * r <= n && n < (r + 1) * (r + 1)
}

/// The integer square root of `n` (for `n >= 0`).
pub open spec fn isqrt(n: int) -> int {
    choose|r: int| is_isqrt(n, r)
}

/// Two integer square roots of one number are equal.
pub proof fn lemma_isqrt_unique(n: int, r: int)
    requires
        is_isqrt(n, r),
    ensures
        isqrt(n) == r,
{
    let s = isqrt(n);
    assert(is_isqrt(n, s));
    if s < r {
        assert((s + 1) * (s + 1) <= r * r) by (nonlinear_arith)
            requires
                0 <= s,
                s + 1 <= r,
        ;
    } else if r < s {
        assert((r + 1) * (r + 1) <= s * s) by (nonlinear_arith)
            requires
                0 <= r,
                r + 1 <= s,
        ;
    }
}

/// The square root of a perfect square is its base.
pub proof fn lemma_isqrt_square(r: int)
    requires
        0 <= r,
    ensures
        isqrt(r * r) == r,
{
    assert(r * r < (r + 1) * (r + 1)) by (nonlinear_arith)
        requires
            0 <= r,
    ;
    lemma_isqrt_unique(r * r, r);
}

/// Integer square root of a 128-bit number, by bisection.
pub fn isqrt_u128(n: u128) -> (r: u64)
    ensures
        is_isqrt(n as int, r as int),
        r as int == isqrt(n as int),
{
    let mut lo: u128 = 0;
    let mut hi: u128 = 0x1_0000_0000_0000_0000;
    assert(0x1_0000_0000_0000_0000int * 0x1_0000_0000_0000_0000int
        == 0x1_0000_0000_0000_0000_0000_0000_0000_0000int) by (nonlinear_arith);
    while hi - lo > 1
        invariant
            lo < hi <= 0x1_0000_0000_0000_0000,
            lo * lo <= n,
            n < hi * hi,
        decreases hi - lo,
    {
        let mid: u128 = lo + (hi - lo) / 2;
        assert(mid * mid <= 0xffff_ffff_ffff_ffffint * 0xffff_ffff_ffff_ffffint) by (nonlinear_arith)
            requires
                0 <= mid <= 0xffff_ffff_ffff_ffff,
        ;
        assert(0xffff_ffff_ffff_ffffint * 0xffff_ffff_ffff_ffffint
            < 0x1_0000_0000_0000_0000_0000_0000_0000_0000int) by (nonlinear_arith);
        if mid * mid <= n {
            lo = mid;
        } else {
            hi = mid;
        }
    }
    proof {
        assert(hi == lo + 1);
        lemma_isqrt_unique(n as int, lo as int);
    }
    lo as u64
}

/// Clamps a 128-bit integer into the 64-bit signed range.
pub fn saturate(x: i128) -> (r: i64)
    ensures
        r as int == sat(x as int),
{
    if x < i64::MIN as i128 {
        i64::MIN
    } else if x > i64::MAX as i128 {
        i64::MAX
    } else {
        x as i64
    }
}

/// A fixed-point number: `raw` counts millionths.
#[derive(Clone, Copy, Debug, PartialEq, Eq, Structural)]
pub struct Fixed {
    pub raw: i64,
}

impl View for Fixed {
    type V = int;

    /// The raw value as a mathematical integer.
    open spec fn view(&self) -> int {
        self.raw as int
    }
}

/// The `Fixed` whose raw value is `sat(x)`.
pub open spec fn fixed_of(x: int) -> Fixed {
    Fixed { raw: sat(x) as i64 }
}

impl Fixed {
    /// Zero.
    pub open spec fn zero_spec() -> Fixed {
        Fixed { raw: 0 }
    }

    /// One.
    pub open spec fn one_spec() -> Fixed {
        Fixed { raw: SCALE }
    }

    /// The sum, clamped to the range.
    pub open spec fn add_spec(self, rhs: Fixed) -> Fixed {
        fixed_of(self@ + rhs@)
    }

    /// The difference, clamped to the range.
    pub open spec fn sub_spec(self, rhs: Fixed) -> Fixed {
        fixed_of(self@ - rhs@)
    }

    /// The negative; that of the least number is the greatest.
    pub open spec fn neg_spec(self) -> Fixed {
        fixed_of(-self@)
    }

    /// The magnitude; that of the least number is the greatest.
    pub open spec fn abs_spec(self) -> Fixed {
        fixed_of(if self@ < 0 { -self@ } else { self@ })
    }

    /// The product, rounded toward zero and clamped to the range.
    pub open spec fn mul_spec(self, rhs: Fixed) -> Fixed {
        fixed_of(mul_raw(self@, rhs@))
    }

    /// The quotient, rounded toward zero and clamped to the range.
    pub open spec fn div_spec(self, rhs: Fixed) -> Fixed
        recommends
            rhs@ != 0,
    {
        fixed_of(div_raw(self@, rhs@))
    }

    /// Twice the number, clamped to the range.
    pub open spec fn double_spec(self) -> Fixed {
        fixed_of(2 * self@)
    }

    /// Half the number, rounded toward zero.
    pub open spec fn half_spec(self) -> Fixed {
        fixed_of(tdiv(self@, 2))
    }

    /// Square root of a non-negative number, rounded down; zero for a negative one.
    pub open spec fn sqrt_spec(self) -> Fixed {
        if self@ <= 0 {
            Fixed { raw: 0 }
        } else {
            fixed_of(isqrt(self@ * (SCALE as int)))
        }
    }

    /// The number, or the bound that it lies beyond.
    pub open spec fn clamp_spec(self, lo: Fixed, hi: Fixed) -> Fixed {
        if self@ < lo@ {
            lo
        } else if self@ > hi@ {
            hi
        } else {
            self
        }
    }

    /// Zero.
    #[verifier::when_used_as_spec(zero_spec)]
    pub fn zero() -> (r: Fixed)
        ensures
            r == Fixed::zero_spec(),
    {
        Fixed { raw: 0 }
    }

    /// One.
    #[verifier::when_used_as_spec(one_spec)]
    pub fn one() -> (r: Fixed)
        ensures
            r == Fixed::one_spec(),
    {
        Fixed { raw: SCALE }
    }

    /// The number with the given raw value (a count of millionths).
    pub fn from_raw(raw: i64) -> (r: Fixed)
        ensures
            r.raw == raw,
    {
        Fixed { raw }
    }

    /// The whole number `n`.
    pub fn from_int(n: i32) -> (r: Fixed)
        ensures
            r@ == n * SCALE,
    {
        let wide: i64 = n as i64;
        assert(-0x8000_0000 * 1_000_000 <= wide * 1_000_000 <= 0x7fff_ffff * 1_000_000) by (nonlinear_arith)
            requires
                -0x8000_0000 <= wide <= 0x7fff_ffff,
        ;
        Fixed { raw: wide * SCALE }
    }

    /// `num / den` as a fixed-point number, rounded toward zero.
    pub fn from_ratio(num: i32, den: i32) -> (r: Fixed)
        requires
            den != 0,
        ensures
            r@ == tdiv(num * SCALE, den as int),
    {
        let n: i128 = num as i128;
        let d: i128 = den as i128;
        assert(-0x8000_0000 * 1_000_000 <= n * 1_000_000 <= 0x7fff_ffff * 1_000_000) by (nonlinear_arith)
            requires
                -0x8000_0000 <= n <= 0x7fff_ffff,
        ;
        let scaled: i128 = n * (SCALE as i128);
        proof {
            lemma_tdiv_bound(scaled as int, d as int);
        }
        let q: i128 = if d < 0 {
            -(scaled / (-d))
        } else {
            scaled / d
        };
        Fixed { raw: q as i64 }
    }

    /// Adds; a sum beyond the range is clamped to it.
    #[verifier::when_used_as_spec(add_spec)]
    pub fn add(self, rhs: Fixed) -> (r: Fixed)
        ensures
            r == self.add_spec(rhs),
    {
        Fixed { raw: saturate(self.raw as i128 + rhs.raw as i128) }
    }

    /// Subtracts; a difference beyond the range is clamped to it.
    #[verifier::when_used_as_spec(sub_spec)]
    pub fn sub(self, rhs: Fixed) -> (r: Fixed)
        ensures
            r == self.sub_spec(rhs),
    {
        Fixed { raw: saturate(self.raw as i128 - rhs.raw as i128) }
    }

    /// Negates.
    #[verifier::when_used_as_spec(neg_spec)]
    pub fn neg(self) -> (r: Fixed)
        ensures
            r == self.neg_spec(),
    {
        Fixed { raw: saturate(-(self.raw as i128)) }
    }

    /// Takes the magnitude.
    #[verifier::when_used_as_spec(abs_spec)]
    pub fn abs(self) -> (r: Fixed)
        ensures
            r == self.abs_spec(),
    {
        if self.raw < 0 {
            Fixed { raw: saturate(-(self.raw as i128)) }
        } else {
            self
        }
    }

    /// Multiplies, rounding toward zero.
    #[verifier::when_used_as_spec(mul_spec)]
    pub fn mul(self, rhs: Fixed) -> (r: Fixed)
        ensures
            r == self.mul_spec(rhs),
    {
        Fixed { raw: saturate(wide_mul(self.raw, rhs.raw)) }
    }

    /// Divides by a number that is not zero, rounding toward zero.
    #[verifier::when_used_as_spec(div_spec)]
    pub fn div(self, rhs: Fixed) -> (r: Fixed)
        requires
            rhs@ != 0,
        ensures
            r == self.div_spec(rhs),
    {
        Fixed { raw: saturate(wide_div(self.raw, rhs.raw)) }
    }

    /// Division that reports a zero divisor instead of demanding a non-zero one.
    pub fn checked_div(self, rhs: Fixed) -> (r: Option<Fixed>)
        ensures
            rhs@ == 0 <==> r is None,
            rhs@ != 0 ==> r == Some(self.div_spec(rhs)),
    {
        if rhs.raw == 0 {
            None
        } else {
            Some(self.div(rhs))
        }
    }

    /// Doubles.
    #[verifier::when_used_as_spec(double_spec)]
    pub fn double(self) -> (r: Fixed)
        ensures
            r == self.double_spec(),
    {
        Fixed { raw: saturate(2 * (self.raw as i128)) }
    }

    /// Halves, rounding toward zero.
    #[verifier::when_used_as_spec(half_spec)]
    pub fn half(self) -> (r: Fixed)
        ensures
            r == self.half_spec(),
    {
        Fixed { raw: self.raw / 2 }
    }

    /// Takes the square root, rounding down; that of a negative number is zero.
    #[verifier::when_used_as_spec(sqrt_spec)]
    pub fn sqrt(self) -> (r: Fixed)
        ensures
            r == self.sqrt_spec(),
    {
        if self.raw <= 0 {
            Fixed { raw: 0 }
        } else {
            let a: u128 = self.raw as u128;
            assert(a * 1_000_000 <= 0x7fff_ffff_ffff_ffff * 1_000_000) by (nonlinear_arith)
                requires
                    0 <= a <= 0x7fff_ffff_ffff_ffff,
            ;
            let n: u128 = a * (SCALE as u128);
            let root: u64 = isqrt_u128(n);
            assert(root <= 0x7fff_ffff_ffff_ffff) by {
                if root > 0x7fff_ffff_ffff_ffff {
                    assert(root * root >= 0x8000_0000_0000_0000int * 0x8000_0000_0000_0000int)
                        by (nonlinear_arith)
                        requires
                            root >= 0x8000_0000_0000_0000,
                    ;
                    assert(0x8000_0000_0000_0000int * 0x8000_0000_0000_0000int
                        > 0x7fff_ffff_ffff_ffff * 1_000_000) by (nonlinear_arith);
                }
            }
            Fixed { raw: root as i64 }
        }
    }

    /// Keeps the number between `lo` and `hi`.
    #[verifier::when_used_as_spec(clamp_spec)]
    pub fn clamp(self, lo: Fixed, hi: Fixed) -> (r: Fixed)
        ensures
            r == self.clamp_spec(lo, hi),
    {
        if self.raw < lo.raw {
            lo
        } else if self.raw > hi.raw {
            hi
        } else {
            self
        }
    }

    /// Whether the number is zero.
    pub fn is_zero(self) -> (r: bool)
        ensures
            r == (self@ == 0),
    {
        self.raw == 0
    }

    /// Whether the number is below `rhs`.
    pub fn lt(self, rhs: Fixed) -> (r: bool)
        ensures
            r == (self@ < rhs@),
    {
        self.raw < rhs.raw
    }

    /// Whether the number is at most `rhs`.
    pub fn le(self, rhs: Fixed) -> (r: bool)
        ensures
            r == (self@ <= rhs@),
    {
        self.raw <= rhs.raw
    }
}

/// The exact product of two raw values in raw units, before clamping.
pub fn wide_mul(a: i64, b: i64) -> (r: i128)
    ensures
        r as int == mul_raw(a as int, b as int),
        -0x800_0000_0000_0000_0000_0000_0000 <= r <= 0x800_0000_0000_0000_0000_0000_0000,
{
    let x: i128 = a as i128;
    let y: i128 = b as i128;
    assert(-0x4000_0000_0000_0000_0000_0000_0000_0000 <= x * y
        <= 0x4000_0000_0000_0000_0000_0000_0000_0000) by (nonlinear_arith)
        requires
            -0x8000_0000_0000_0000 <= x <= 0x7fff_ffff_ffff_ffff,
            -0x8000_0000_0000_0000 <= y <= 0x7fff_ffff_ffff_ffff,
    ;
    (x * y) / (SCALE as i128)
}

/// The exact quotient of two raw values in raw units, before clamping.
pub fn wide_div(a: i64, b: i64) -> (r: i128)
    requires
        b != 0,
    ensures
        r as int == div_raw(a as int, b as int),
        -0x8000_0000_0000_0000 * 1_000_000 <= r <= 0x8000_0000_0000_0000 * 1_000_000,
{
    let x: i128 = a as i128;
    let y: i128 = b as i128;
    assert(-0x8000_0000_0000_0000 * 1_000_000 <= x * 1_000_000 <= 0x7fff_ffff_ffff_ffff * 1_000_000)
        by (nonlinear_arith)
        requires
            -0x8000_0000_0000_0000 <= x <= 0x7fff_ffff_ffff_ffff,
    ;
    let scaled: i128 = x * (SCALE as i128);
    proof {
        lemma_tdiv_bound(scaled as int, y as int);
    }
    if y < 0 {
        -(scaled / (-y))
    } else {
        scaled / y
    }
}

/// A quotient rounded toward zero is no larger in magnitude than its numerator.
pub proof fn lemma_tdiv_bound(n: int, d: int)
    requires
        d != 0,
    ensures
        n >= 0 ==> -n <= tdiv(n, d) <= n,
        n < 0 ==> n <= tdiv(n, d) <= -n,
{
    let an = if n >= 0 { n } else { -n };
    let ad = if d > 0 { d } else { -d };
    assert(0 <= an / ad <= an) by (nonlinear_arith)
        requires
            an >= 0,
            ad >= 1,
    ;
}

/// Multiplying by one changes nothing.
pub proof fn lemma_mul_raw_one(a: int)
    ensures
        mul_raw(a, SCALE as int) == a,
        mul_raw(SCALE as int, a) == a,
{
    let s = SCALE as int;
    if a >= 0 {
        assert((a * s) / s == a && (s * a) / s == a && a * s >= 0 && s * a >= 0) by (nonlinear_arith)
            requires
                s == 1_000_000,
                a >= 0,
        ;
    } else {
        assert((-(a * s)) / s == -a && (-(s * a)) / s == -a && a * s < 0 && s * a < 0)
            by (nonlinear_arith)
            requires
                s == 1_000_000,
                a < 0,
        ;
    }
}

/// Multiplying by minus one negates.
pub proof fn lemma_mul_raw_minus_one(a: int)
    ensures
        mul_raw(a, -(SCALE as int)) == -a,
        mul_raw(-(SCALE as int), a) == -a,
{
    let s = SCALE as int;
    if a > 0 {
        assert((-(a * (-s))) / s == a && (-((-s) * a)) / s == a && a * (-s) < 0 && (-s) * a < 0)
            by (nonlinear_arith)
            requires
                s == 1_000_000,
                a > 0,
        ;
    } else {
        assert((a * (-s)) / s == -a && ((-s) * a) / s == -a && a * (-s) >= 0 && (-s) * a >= 0)
            by (nonlinear_arith)
            requires
                s == 1_000_000,
                a <= 0,
        ;
    }
}

/// A product of two numbers that are not negative is not negative, and no
/// larger than the first of them if the second is at most one.
pub proof fn lemma_mul_raw_nonneg(a: int, b: int)
    requires
        a >= 0,
        b >= 0,
    ensures
        mul_raw(a, b) >= 0,
        b <= SCALE ==> mul_raw(a, b) <= a,
{
    let s = SCALE as int;
    assert(a * b >= 0) by (nonlinear_arith)
        requires
            a >= 0,
            b >= 0,
    ;
    if b <= s {
        assert(a * b <= a * s) by (nonlinear_arith)
            requires
                a >= 0,
                0 <= b <= s,
        ;
        assert((a * s) / s == a) by (nonlinear_arith)
            requires
                s == 1_000_000,
        ;
        assert((a * b) / s <= (a * s) / s) by (nonlinear_arith)
            requires
                a * b <= a * s,
                s == 1_000_000,
        ;
    }
}

/// A product with zero is zero.
pub proof fn lemma_mul_raw_zero(a: int)
    ensures
        mul_raw(a, 0) == 0,
        mul_raw(0, a) == 0,
{
    assert(a * 0 == 0 && 0 * a == 0) by (nonlinear_arith);
}

/// Negating one factor negates the product: rounding toward zero is symmetric.
pub proof fn lemma_mul_raw_neg(a: int, b: int)
    ensures
        mul_raw(-a, b) == -mul_raw(a, b),
        mul_raw(a, -b) == -mul_raw(a, b),
{
    assert((-a) * b == -(a * b) && a * (-b) == -(a * b)) by (nonlinear_arith);
}

/// Negating the numerator or the divisor negates the quotient.
pub proof fn lemma_tdiv_neg(n: int, d: int)
    requires
        d != 0,
    ensures
        tdiv(-n, d) == -tdiv(n, d),
        tdiv(n, -d) == -tdiv(n, d),
{
}

} // verus!
