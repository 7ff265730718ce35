//! Vectors and rotations over fixed-point numbers.

use vstd::prelude::*;
use crate::fixed::{Fixed, SCALE, fixed_of, isqrt, is_isqrt, isqrt_u128, mul_raw, saturate, tdiv, wide_mul};

verus! {

/// A point or direction on the screen.
#[derive(Clone, Copy, Debug, PartialEq, Eq, Structural)]
pub struct Vec2 {
    pub x: Fixed,
    pub y: Fixed,
}

/// A point or direction in space.
#[derive(Clone, Copy, Debug, PartialEq, Eq, Structural)]
pub struct Vec3 {
    pub x: Fixed,
    pub y: Fixed,
    pub z: Fixed,
}

/// The magnitude of a raw value.
pub open spec fn abs_int(x: int) -> int {
    if x < 0 { -x } else { x }
}

/// The sum of the squares of three raw values.
pub open spec fn sum_squares(x: int, y: int, z: int) -> int {
    x * x + y * y + z * z
}

/// The magnitude of a raw value, as an unsigned number.
pub fn magnitude(x: i64) -> (r: u128)
    ensures
        r as int == abs_int(x as int),
        r <= 0x8000_0000_0000_0000,
{
    if x < 0 {
        (-(x as i128)) as u128
    } else {
        x as u128
    }
}

impl Vec3 {
    /// The zero vector.
    pub open spec fn zero_spec() -> Vec3 {
        Vec3 { x: Fixed { raw: 0 }, y: Fixed { raw: 0 }, z: Fixed { raw: 0 } }
    }

    /// The component along axis 0 (x), 1 (y) or 2 (z).
    pub open spec fn component_spec(self, axis: int) -> Fixed {
        if axis == 0 {
            self.x
        } else if axis == 1 {
            self.y
        } else {
            self.z
        }
    }

    /// The unit vector along an axis, pointing up or down it.
    pub open spec fn axis_unit_spec(axis: int, positive: bool) -> Vec3 {
        let one = Fixed { raw: if positive { 1_000_000i64 } else { -1_000_000i64 } };
        let zero = Fixed { raw: 0 };
        if axis == 0 {
            Vec3 { x: one, y: zero, z: zero }
        } else if axis == 1 {
            Vec3 { x: zero, y: one, z: zero }
        } else {
            Vec3 { x: zero, y: zero, z: one }
        }
    }

    /// The vector with `value` along an axis and nothing along the others.
    pub open spec fn along_axis(axis: int, value: Fixed) -> Vec3 {
        let zero = Fixed { raw: 0 };
        if axis == 0 {
            Vec3 { x: value, y: zero, z: zero }
        } else if axis == 1 {
            Vec3 { x: zero, y: value, z: zero }
        } else {
            Vec3 { x: zero, y: zero, z: value }
        }
    }

    /// The sum, component by component.
    pub open spec fn add_spec(self, rhs: Vec3) -> Vec3 {
        Vec3 { x: self.x.add_spec(rhs.x), y: self.y.add_spec(rhs.y), z: self.z.add_spec(rhs.z) }
    }

    /// The difference, component by component.
    pub open spec fn sub_spec(self, rhs: Vec3) -> Vec3 {
        Vec3 { x: self.x.sub_spec(rhs.x), y: self.y.sub_spec(rhs.y), z: self.z.sub_spec(rhs.z) }
    }

    /// The opposite vector.
    pub open spec fn neg_spec(self) -> Vec3 {
        Vec3 { x: self.x.neg_spec(), y: self.y.neg_spec(), z: self.z.neg_spec() }
    }

    /// Each component multiplied by `s`.
    pub open spec fn scale_spec(self, s: Fixed) -> Vec3 {
        Vec3 { x: self.x.mul_spec(s), y: self.y.mul_spec(s), z: self.z.mul_spec(s) }
    }

    /// Each component divided by `s` (which is not zero).
    pub open spec fn shrink_spec(self, s: Fixed) -> Vec3
        recommends
            s@ != 0,
    {
        Vec3 { x: self.x.div_spec(s), y: self.y.div_spec(s), z: self.z.div_spec(s) }
    }

    /// Each component halved.
    pub open spec fn half_spec(self) -> Vec3 {
        Vec3 { x: self.x.half_spec(), y: self.y.half_spec(), z: self.z.half_spec() }
    }

    /// The three products are summed exactly and clamped once.
    pub open spec fn dot_spec(self, rhs: Vec3) -> Fixed {
        fixed_of(
            mul_raw(self.x@, rhs.x@) + mul_raw(self.y@, rhs.y@) + mul_raw(self.z@, rhs.z@),
        )
    }

    /// The cross product; each component is a difference of two exact products, clamped once.
    pub open spec fn cross_spec(self, rhs: Vec3) -> Vec3 {
        Vec3 {
            x: fixed_of(mul_raw(self.y@, rhs.z@) - mul_raw(self.z@, rhs.y@)),
            y: fixed_of(mul_raw(self.z@, rhs.x@) - mul_raw(self.x@, rhs.z@)),
            z: fixed_of(mul_raw(self.x@, rhs.y@) - mul_raw(self.y@, rhs.x@)),
        }
    }

    /// The dot product of the vector with itself.
    pub open spec fn length_squared_spec(self) -> Fixed {
        self.dot_spec(self)
    }

    /// The length in raw units, before clamping: the integer square root of
    /// the sum of the squared raw components.
    pub open spec fn length_raw(self) -> int {
        isqrt(sum_squares(self.x@, self.y@, self.z@))
    }

    /// The length, clamped to the range.
    pub open spec fn length_spec(self) -> Fixed {
        fixed_of(self.length_raw())
    }

    /// The vector scaled to unit length; `None` for the zero vector.
    pub open spec fn normalize_spec(self) -> Option<Vec3> {
        let len = self.length_raw();
        if len == 0 {
            None
        } else {
            Some(
                Vec3 {
                    x: fixed_of(tdiv(self.x@ * (SCALE as int), len)),
                    y: fixed_of(tdiv(self.y@ * (SCALE as int), len)),
                    z: fixed_of(tdiv(self.z@ * (SCALE as int), len)),
                },
            )
        }
    }

    /// The vector with the given components.
    pub fn new(x: Fixed, y: Fixed, z: Fixed) -> (r: Vec3)
        ensures
            r == (Vec3 { x, y, z }),
    {
        Vec3 { x, y, z }
    }

    /// The zero vector.
    #[verifier::when_used_as_spec(zero_spec)]
    pub fn zero() -> (r: Vec3)
        ensures
            r == Vec3::zero_spec(),
    {
        Vec3 { x: Fixed { raw: 0 }, y: Fixed { raw: 0 }, z: Fixed { raw: 0 } }
    }

    /// Whether every component is zero.
    pub fn is_zero(self) -> (r: bool)
        ensures
            r == (self == Vec3::zero_spec()),
    {
        self.x.raw == 0 && self.y.raw == 0 && self.z.raw == 0
    }

    /// The component along axis 0 (x), 1 (y) or 2 (z).
    pub fn component(self, axis: usize) -> (r: Fixed)
        requires
            axis < 3,
        ensures
            r == self.component_spec(axis as int),
    {
        if axis == 0 {
            self.x
        } else if axis == 1 {
            self.y
        } else {
            self.z
        }
    }

    /// The unit vector along an axis, pointing up or down it.
    pub fn axis_unit(axis: usize, positive: bool) -> (r: Vec3)
        requires
            axis < 3,
        ensures
            r == Vec3::axis_unit_spec(axis as int, positive),
    {
        let one = Fixed { raw: if positive { SCALE } else { -SCALE } };
        let zero = Fixed { raw: 0 };
        if axis == 0 {
            Vec3 { x: one, y: zero, z: zero }
        } else if axis == 1 {
            Vec3 { x: zero, y: one, z: zero }
        } else {
            Vec3 { x: zero, y: zero, z: one }
        }
    }

    /// Adds component by component.
    #[verifier::when_used_as_spec(add_spec)]
    pub fn add(self, rhs: Vec3) -> (r: Vec3)
        ensures
            r == self.add_spec(rhs),
    {
        Vec3 { x: self.x.add(rhs.x), y: self.y.add(rhs.y), z: self.z.add(rhs.z) }
    }

    /// Subtracts component by component.
    #[verifier::when_used_as_spec(sub_spec)]
    pub fn sub(self, rhs: Vec3) -> (r: Vec3)
        ensures
            r == self.sub_spec(rhs),
    {
        Vec3 { x: self.x.sub(rhs.x), y: self.y.sub(rhs.y), z: self.z.sub(rhs.z) }
    }

    /// Turns the vector round.
    #[verifier::when_used_as_spec(neg_spec)]
    pub fn neg(self) -> (r: Vec3)
        ensures
            r == self.neg_spec(),
    {
        Vec3 { x: self.x.neg(), y: self.y.neg(), z: self.z.neg() }
    }

    /// Multiplies each component by `s`.
    #[verifier::when_used_as_spec(scale_spec)]
    pub fn scale(self, s: Fixed) -> (r: Vec3)
        ensures
            r == self.scale_spec(s),
    {
        Vec3 { x: self.x.mul(s), y: self.y.mul(s), z: self.z.mul(s) }
    }

    /// Divides each component by `s`, which is not zero.
    #[verifier::when_used_as_spec(shrink_spec)]
    pub fn shrink(self, s: Fixed) -> (r: Vec3)
        requires
            s@ != 0,
        ensures
            r == self.shrink_spec(s),
    {
        Vec3 { x: self.x.div(s), y: self.y.div(s), z: self.z.div(s) }
    }

    /// Halves each component.
    #[verifier::when_used_as_spec(half_spec)]
    pub fn half(self) -> (r: Vec3)
        ensures
            r == self.half_spec(),
    {
        Vec3 { x: self.x.half(), y: self.y.half(), z: self.z.half() }
    }

    /// The dot product.
    #[verifier::when_used_as_spec(dot_spec)]
    pub fn dot(self, rhs: Vec3) -> (r: Fixed)
        ensures
            r == self.dot_spec(rhs),
    {
        let px: i128 = wide_mul(self.x.raw, rhs.x.raw);
        let py: i128 = wide_mul(self.y.raw, rhs.y.raw);
        let pz: i128 = wide_mul(self.z.raw, rhs.z.raw);
        Fixed { raw: saturate(px + py + pz) }
    }

    /// The cross product.
    #[verifier::when_used_as_spec(cross_spec)]
    pub fn cross(self, rhs: Vec3) -> (r: Vec3)
        ensures
            r == self.cross_spec(rhs),
    {
        let yz: i128 = wide_mul(self.y.raw, rhs.z.raw);
        let zy: i128 = wide_mul(self.z.raw, rhs.y.raw);
        let zx: i128 = wide_mul(self.z.raw, rhs.x.raw);
        let xz: i128 = wide_mul(self.x.raw, rhs.z.raw);
        let xy: i128 = wide_mul(self.x.raw, rhs.y.raw);
        let yx: i128 = wide_mul(self.y.raw, rhs.x.raw);
        Vec3 {
            x: Fixed { raw: saturate(yz - zy) },
            y: Fixed { raw: saturate(zx - xz) },
            z: Fixed { raw: saturate(xy - yx) },
        }
    }

    /// The squared length.
    #[verifier::when_used_as_spec(length_squared_spec)]
    pub fn length_squared(self) -> (r: Fixed)
        ensures
            r == self.length_squared_spec(),
    {
        self.dot(self)
    }

    /// The length in raw units, before clamping.
    pub fn length_wide(self) -> (r: u64)
        ensures
            r as int == self.length_raw(),
            is_isqrt(sum_squares(self.x@, self.y@, self.z@), r as int),
    {
        let ax: u128 = magnitude(self.x.raw);
        let ay: u128 = magnitude(self.y.raw);
        let az: u128 = magnitude(self.z.raw);
        proof {
            lemma_square_bound(ax as int);
            lemma_square_bound(ay as int);
            lemma_square_bound(az as int);
            assert(ax * ax == self.x@ * self.x@) by (nonlinear_arith)
                requires
                    ax as int == abs_int(self.x@),
            ;
            assert(ay * ay == self.y@ * self.y@) by (nonlinear_arith)
                requires
                    ay as int == abs_int(self.y@),
            ;
            assert(az * az == self.z@ * self.z@) by (nonlinear_arith)
                requires
                    az as int == abs_int(self.z@),
            ;
        }
        let sx: u128 = ax * ax;
        let sy: u128 = ay * ay;
        let sz: u128 = az * az;
        isqrt_u128(sx + sy + sz)
    }

    /// The length.
    #[verifier::when_used_as_spec(length_spec)]
    pub fn length(self) -> (r: Fixed)
        ensures
            r == self.length_spec(),
    {
        let len: u64 = self.length_wide();
        Fixed { raw: saturate(len as i128) }
    }

    /// The vector brought to unit length; `None` for the zero vector.
    #[verifier::when_used_as_spec(normalize_spec)]
    pub fn normalize(self) -> (r: Option<Vec3>)
        ensures
            r == self.normalize_spec(),
    {
        let len: u64 = self.length_wide();
        if len == 0 {
            None
        } else {
            Some(
                Vec3 {
                    x: Fixed { raw: saturate(scaled_quotient(self.x.raw, len)) },
                    y: Fixed { raw: saturate(scaled_quotient(self.y.raw, len)) },
                    z: Fixed { raw: saturate(scaled_quotient(self.z.raw, len)) },
                },
            )
        }
    }
}

/// `a` in raw units divided by a positive length in raw units, in raw units.
pub fn scaled_quotient(a: i64, len: u64) -> (r: i128)
    requires
        len > 0,
    ensures
        r as int == tdiv(a * (SCALE as int), len as int),
{
    let x: i128 = a as i128;
    assert(-0x8000_0000_0000_0000 * 1_000_000 <= x * 1_000_000 <= 0x7fff_ffff_ffff_ffff * 1_000_000)
        by (nonlinear_arith)
        requires
            -0x8000_0000_0000_0000 <= x <= 0x7fff_ffff_ffff_ffff,
    ;
    (x * (SCALE as i128)) / (len as i128)
}

/// The square of a magnitude that fits 64 bits fits 126 bits.
pub proof fn lemma_square_bound(a: int)
    requires
        0 <= a <= 0x8000_0000_0000_0000,
    ensures
        0 <= a * a <= 0x4000_0000_0000_0000_0000_0000_0000_0000,
{
    assert(0 <= a * a <= 0x8000_0000_0000_0000 * 0x8000_0000_0000_0000) by (nonlinear_arith)
        requires
            0 <= a <= 0x8000_0000_0000_0000,
    ;
    assert(0x8000_0000_0000_0000int * 0x8000_0000_0000_0000int
        == 0x4000_0000_0000_0000_0000_0000_0000_0000int) by (nonlinear_arith);
}

} // verus!
