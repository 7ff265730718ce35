//! Rigid bodies and plane colliders: the state that the simulation advances.

use vstd::prelude::*;
use crate::fixed::Fixed;
use crate::transform::Quat;
use crate::vector::Vec3;

verus! {

/// How a body takes part in the simulation.
#[derive(Clone, Copy, Debug, PartialEq, Eq, Structural)]
pub enum MotionClass {
    /// Never moves.
    Static,
    /// Moved by gravity, collisions and impulses.
    Dynamic,
    /// Moved only by a velocity that is set from outside; pushes dynamic bodies.
    Kinematic,
}

/// A box-shaped body.
#[derive(Clone, Copy, Debug, PartialEq, Eq, Structural)]
pub struct RigidBody {
    pub position: Vec3,
    pub orientation: Quat,
    pub velocity: Vec3,
    pub half_extents: Vec3,
    pub motion: MotionClass,
    pub restitution: Fixed,
}

/// An infinite plane, given in the coordinates of the node it is attached to.
#[derive(Clone, Copy, Debug, PartialEq, Eq, Structural)]
pub struct PlaneCollider {
    pub normal: Vec3,
    pub point: Vec3,
    pub restitution: Fixed,
}

impl RigidBody {
    /// A static body has no velocity.
    pub open spec fn wf(self) -> bool {
        self.motion == MotionClass::Static ==> self.velocity == Vec3::zero_spec()
    }

    /// The body is moved by gravity, contacts and impulses.
    pub open spec fn is_dynamic_spec(self) -> bool {
        self.motion == MotionClass::Dynamic
    }

    /// A body at rest at `position`, not rotated.
    pub fn new(position: Vec3, half_extents: Vec3, motion: MotionClass, restitution: Fixed) -> (r:
        RigidBody)
        ensures
            r == (RigidBody {
                position,
                orientation: Quat::identity_spec(),
                velocity: Vec3::zero_spec(),
                half_extents,
                motion,
                restitution,
            }),
            r.wf(),
    {
        RigidBody {
            position,
            orientation: Quat::identity(),
            velocity: Vec3::zero(),
            half_extents,
            motion,
            restitution,
        }
    }

    /// Whether the body is moved by gravity, contacts and impulses.
    #[verifier::when_used_as_spec(is_dynamic_spec)]
    pub fn is_dynamic(self) -> (r: bool)
        ensures
            r == self.is_dynamic_spec(),
    {
        match self.motion {
            MotionClass::Dynamic => true,
            _ => false,
        }
    }
}

} // verus!
