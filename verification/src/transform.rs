//! Rotations and the placement of a node in the world.

use vstd::prelude::*;
use crate::fixed::{Fixed, lemma_mul_raw_one, lemma_mul_raw_zero};
use crate::vector::Vec3;

verus! {

/// A rotation, as a unit quaternion.
#[derive(Clone, Copy, Debug, PartialEq, Eq, Structural)]
pub struct Quat {
    pub x: Fixed,
    pub y: Fixed,
    pub z: Fixed,
    pub w: Fixed,
}

/// Where a node stands in the world: scaled, then rotated, then moved.
#[derive(Clone, Copy, Debug, PartialEq, Eq, Structural)]
pub struct Transform {
    pub translation: Vec3,
    pub rotation: Quat,
    pub scale: Vec3,
}

impl Quat {
    /// The rotation that turns nothing.
    pub open spec fn identity_spec() -> Quat {
        Quat { x: Fixed { raw: 0 }, y: Fixed { raw: 0 }, z: Fixed { raw: 0 }, w: Fixed::one_spec() }
    }

    /// The vector part of the quaternion.
    pub open spec fn axis_part(self) -> Vec3 {
        Vec3 { x: self.x, y: self.y, z: self.z }
    }

    /// `v` turned by the rotation: with `b` the vector part and `w` the
    /// scalar part, `v (w² − b·b) + 2 b (v·b) + 2 w (b × v)`.
    pub open spec fn rotate_spec(self, v: Vec3) -> Vec3 {
        let b = self.axis_part();
        let b2 = b.dot_spec(b);
        v.scale_spec(self.w.mul_spec(self.w).sub_spec(b2)).add_spec(
            b.scale_spec(v.dot_spec(b).double_spec()),
        ).add_spec(b.cross_spec(v).scale_spec(self.w.double_spec()))
    }

    /// The rotation that turns nothing.
    #[verifier::when_used_as_spec(identity_spec)]
    pub fn identity() -> (r: Quat)
        ensures
            r == Quat::identity_spec(),
    {
        Quat { x: Fixed::zero(), y: Fixed::zero(), z: Fixed::zero(), w: Fixed::one() }
    }

    /// Turns a vector.
    #[verifier::when_used_as_spec(rotate_spec)]
    pub fn rotate(self, v: Vec3) -> (r: Vec3)
        ensures
            r == self.rotate_spec(v),
    {
        let b = Vec3 { x: self.x, y: self.y, z: self.z };
        let b2 = b.dot(b);
        let straight = v.scale(self.w.mul(self.w).sub(b2));
        let along = b.scale(v.dot(b).double());
        let around = b.cross(v).scale(self.w.double());
        straight.add(along).add(around)
    }
}

impl Transform {
    /// Turns, moves and scales nothing.
    pub open spec fn identity_spec() -> Transform {
        Transform {
            translation: Vec3::zero_spec(),
            rotation: Quat::identity_spec(),
            scale: Vec3 { x: Fixed::one_spec(), y: Fixed::one_spec(), z: Fixed::one_spec() },
        }
    }

    /// A direction of the node, in the world: rotated, neither scaled nor moved.
    pub open spec fn direction_spec(self, d: Vec3) -> Vec3 {
        self.rotation.rotate_spec(d)
    }

    /// A point of the node, in the world: scaled, rotated, then moved.
    pub open spec fn point_spec(self, p: Vec3) -> Vec3 {
        let scaled = Vec3 {
            x: p.x.mul_spec(self.scale.x),
            y: p.y.mul_spec(self.scale.y),
            z: p.z.mul_spec(self.scale.z),
        };
        self.rotation.rotate_spec(scaled).add_spec(self.translation)
    }

    /// The placement that changes nothing.
    #[verifier::when_used_as_spec(identity_spec)]
    pub fn identity() -> (r: Transform)
        ensures
            r == Transform::identity_spec(),
    {
        Transform {
            translation: Vec3::zero(),
            rotation: Quat::identity(),
            scale: Vec3 { x: Fixed::one(), y: Fixed::one(), z: Fixed::one() },
        }
    }

    /// The node moved to `translation`, neither rotated nor scaled.
    pub fn from_translation(translation: Vec3) -> (r: Transform)
        ensures
            r == (Transform { translation, ..Transform::identity_spec() }),
    {
        Transform {
            translation,
            rotation: Quat::identity(),
            scale: Vec3 { x: Fixed::one(), y: Fixed::one(), z: Fixed::one() },
        }
    }

    /// Brings a direction of the node into the world.
    #[verifier::when_used_as_spec(direction_spec)]
    pub fn direction(self, d: Vec3) -> (r: Vec3)
        ensures
            r == self.direction_spec(d),
    {
        self.rotation.rotate(d)
    }

    /// Brings a point of the node into the world.
    #[verifier::when_used_as_spec(point_spec)]
    pub fn point(self, p: Vec3) -> (r: Vec3)
        ensures
            r == self.point_spec(p),
    {
        let scaled = Vec3 {
            x: p.x.mul(self.scale.x),
            y: p.y.mul(self.scale.y),
            z: p.z.mul(self.scale.z),
        };
        self.rotation.rotate(scaled).add(self.translation)
    }
}

/// The identity rotation leaves every vector as it is.
pub proof fn lemma_rotate_identity(v: Vec3)
    ensures
        Quat::identity_spec().rotate_spec(v) == v,
{
    lemma_mul_raw_one(v.x@);
    lemma_mul_raw_one(v.y@);
    lemma_mul_raw_one(v.z@);
    lemma_mul_raw_one(1_000_000);
    lemma_mul_raw_zero(0);
    lemma_mul_raw_zero(v.x@);
    lemma_mul_raw_zero(v.y@);
    lemma_mul_raw_zero(v.z@);
    lemma_mul_raw_zero(2_000_000);
    let q = Quat::identity_spec();
    let b = q.axis_part();
    assert(b.dot_spec(b) == Fixed { raw: 0 });
    assert(q.w.mul_spec(q.w).sub_spec(b.dot_spec(b)) == Fixed::one_spec());
    assert(v.scale_spec(Fixed::one_spec()) == v);
    assert(v.dot_spec(b) == Fixed { raw: 0 });
    assert(b.scale_spec(v.dot_spec(b).double_spec()) == Vec3::zero_spec());
    assert(b.cross_spec(v) == Vec3::zero_spec());
    assert(Vec3::zero_spec().scale_spec(q.w.double_spec()) == Vec3::zero_spec());
}

/// A node that is only moved carries its points along and leaves directions alone.
pub proof fn lemma_translation_only(translation: Vec3, p: Vec3)
    ensures
        (Transform { translation, ..Transform::identity_spec() }).point_spec(p) == p.add_spec(
            translation,
        ),
        (Transform { translation, ..Transform::identity_spec() }).direction_spec(p) == p,
{
    lemma_mul_raw_one(p.x@);
    lemma_mul_raw_one(p.y@);
    lemma_mul_raw_one(p.z@);
    lemma_rotate_identity(p);
    let t = Transform { translation, ..Transform::identity_spec() };
    let scaled = Vec3 {
        x: p.x.mul_spec(t.scale.x),
        y: p.y.mul_spec(t.scale.y),
        z: p.z.mul_spec(t.scale.z),
    };
    assert(scaled == p);
}

} // verus!
