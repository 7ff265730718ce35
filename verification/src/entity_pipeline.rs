//! From the metadata record of a scene node to the collider and motion class
//! that the node gets when it is spawned.

use vstd::prelude::*;
use crate::body::{MotionClass, RigidBody};
use crate::fixed::{Fixed, SCALE};
use crate::vector::Vec3;

verus! {

/// The collider kind that a metadata record names.
#[derive(Clone, Copy, Debug, PartialEq, Eq, Structural)]
pub enum BCollider {
    TrimeshFromMesh,
    ConvexHull,
    Cuboid,
    Sphere,
    Cylinder,
}

/// The motion class that a metadata record names.
#[derive(Clone, Copy, Debug, PartialEq, Eq, Structural)]
pub enum BRigidBody {
    Static,
    Dynamic,
}

/// The metadata record of one submesh, as it was authored: every shape
/// parameter is optional there, whatever the collider kind.
#[derive(Clone, Copy, Debug, PartialEq, Eq, Structural)]
pub struct BMeshExtras {
    pub collider: BCollider,
    pub rigid_body: BRigidBody,
    pub cube_size: Option<Vec3>,
    pub radius: Option<Fixed>,
    pub height: Option<Fixed>,
}

/// A checked record: each collider kind carries exactly the parameters it needs.
#[derive(Clone, Copy, Debug, PartialEq, Eq, Structural)]
pub enum ColliderDescriptor {
    TrimeshFromMesh { motion: BRigidBody },
    ConvexHull { motion: BRigidBody },
    Cuboid { motion: BRigidBody, cube_size: Vec3 },
    Sphere { motion: BRigidBody, radius: Fixed },
    Cylinder { motion: BRigidBody, radius: Fixed, height: Fixed },
}

/// Why a node got no collider.
#[derive(Clone, Copy, Debug, PartialEq, Eq, Structural)]
pub enum MetadataError {
    /// The payload could not be read as a record.
    Unparsable,
    /// A cuboid without `cube_size`.
    MissingCubeSize,
    /// A sphere or a cylinder without `radius`.
    MissingRadius,
    /// A cylinder without `height`.
    MissingHeight,
}

/// The concrete collision shape of a node, in physical sizes.
#[derive(Clone, Copy, Debug, PartialEq, Eq, Structural)]
pub enum ColliderShape {
    /// A triangle mesh taken from the node's visual geometry.
    TrimeshFromMesh,
    /// The convex hull of the node's visual geometry.
    ConvexHullFromMesh,
    /// A box, by its full edge lengths.
    Cuboid { x_length: Fixed, y_length: Fixed, z_length: Fixed },
    Sphere { radius: Fixed },
    /// A cylinder along the y axis, by its radius and full height.
    Cylinder { radius: Fixed, height: Fixed },
}

/// The colour in which a collider is outlined when debug rendering is on.
#[derive(Clone, Copy, Debug, PartialEq, Eq, Structural)]
pub struct DebugColor {
    pub red: Fixed,
    pub green: Fixed,
    pub blue: Fixed,
}

/// What is attached to a node: its motion class, its shape, and for a cuboid its mass.
#[derive(Clone, Copy, Debug, PartialEq, Eq, Structural)]
pub struct BodySetup {
    pub motion: MotionClass,
    pub shape: ColliderShape,
    pub mass: Option<Fixed>,
    pub debug_color: DebugColor,
}

/// What a scene node carries when its scene is ready.
#[derive(Clone, Copy, Debug, PartialEq, Eq, Structural)]
pub enum NodeExtras {
    /// The node has no metadata.
    Absent,
    /// The node has metadata that could not be read.
    Unparsable,
    /// The node has a metadata record.
    Parsed(BMeshExtras),
}

/// What became of a scene node.
#[derive(Clone, Copy, Debug, PartialEq, Eq, Structural)]
pub enum NodeOutcome {
    /// The node had no metadata and was left alone.
    Untouched,
    /// The node's metadata was faulty; the node alone was skipped.
    Skipped(MetadataError),
    /// The node became a body.
    Attached(BodySetup),
}

/// The mass of every cuboid, in whole units.
pub const CUBOID_MASS: i32 = 100;

impl BRigidBody {
    /// The motion class of a spawned body.
    pub open spec fn motion_class_spec(self) -> MotionClass {
        match self {
            BRigidBody::Static => MotionClass::Static,
            BRigidBody::Dynamic => MotionClass::Dynamic,
        }
    }

    /// The motion class of a spawned body.
    #[verifier::when_used_as_spec(motion_class_spec)]
    pub fn motion_class(self) -> (r: MotionClass)
        ensures
            r == self.motion_class_spec(),
    {
        match self {
            BRigidBody::Static => MotionClass::Static,
            BRigidBody::Dynamic => MotionClass::Dynamic,
        }
    }
}

impl DebugColor {
    /// The colour with the given whole-number channels (each 0 or 1).
    pub open spec fn rgb_spec(red: bool, green: bool, blue: bool) -> DebugColor {
        DebugColor {
            red: Fixed { raw: if red { 1_000_000i64 } else { 0i64 } },
            green: Fixed { raw: if green { 1_000_000i64 } else { 0i64 } },
            blue: Fixed { raw: if blue { 1_000_000i64 } else { 0i64 } },
        }
    }

    /// The colour with each channel full or empty.
    #[verifier::when_used_as_spec(rgb_spec)]
    pub fn rgb(red: bool, green: bool, blue: bool) -> (r: DebugColor)
        ensures
            r == DebugColor::rgb_spec(red, green, blue),
    {
        DebugColor {
            red: Fixed { raw: if red { SCALE } else { 0 } },
            green: Fixed { raw: if green { SCALE } else { 0 } },
            blue: Fixed { raw: if blue { SCALE } else { 0 } },
        }
    }
}

impl BMeshExtras {
    /// The record checked against its collider kind: a cuboid needs
    /// `cube_size`, a sphere `radius`, a cylinder `radius` and `height` (a
    /// missing radius is reported before a missing height); parameters that
    /// the kind does not use are ignored.
    pub open spec fn descriptor_spec(self) -> Result<ColliderDescriptor, MetadataError> {
        match self.collider {
            BCollider::TrimeshFromMesh => Ok(
                ColliderDescriptor::TrimeshFromMesh { motion: self.rigid_body },
            ),
            BCollider::ConvexHull => Ok(ColliderDescriptor::ConvexHull { motion: self.rigid_body }),
            BCollider::Cuboid => match self.cube_size {
                Some(cube_size) => Ok(
                    ColliderDescriptor::Cuboid { motion: self.rigid_body, cube_size },
                ),
                None => Err(MetadataError::MissingCubeSize),
            },
            BCollider::Sphere => match self.radius {
                Some(radius) => Ok(ColliderDescriptor::Sphere { motion: self.rigid_body, radius }),
                None => Err(MetadataError::MissingRadius),
            },
            BCollider::Cylinder => match (self.radius, self.height) {
                (Some(radius), Some(height)) => Ok(
                    ColliderDescriptor::Cylinder { motion: self.rigid_body, radius, height },
                ),
                (None, _) => Err(MetadataError::MissingRadius),
                (Some(_), None) => Err(MetadataError::MissingHeight),
            },
        }
    }

    /// Checks the record against its collider kind.
    #[verifier::when_used_as_spec(descriptor_spec)]
    pub fn descriptor(self) -> (r: Result<ColliderDescriptor, MetadataError>)
        ensures
            r == self.descriptor_spec(),
    {
        match self.collider {
            BCollider::TrimeshFromMesh => Ok(
                ColliderDescriptor::TrimeshFromMesh { motion: self.rigid_body },
            ),
            BCollider::ConvexHull => Ok(ColliderDescriptor::ConvexHull { motion: self.rigid_body }),
            BCollider::Cuboid => match self.cube_size {
                Some(cube_size) => Ok(
                    ColliderDescriptor::Cuboid { motion: self.rigid_body, cube_size },
                ),
                None => Err(MetadataError::MissingCubeSize),
            },
            BCollider::Sphere => match self.radius {
                Some(radius) => Ok(ColliderDescriptor::Sphere { motion: self.rigid_body, radius }),
                None => Err(MetadataError::MissingRadius),
            },
            BCollider::Cylinder => match self.radius {
                None => Err(MetadataError::MissingRadius),
                Some(radius) => match self.height {
                    None => Err(MetadataError::MissingHeight),
                    Some(height) => Ok(
                        ColliderDescriptor::Cylinder { motion: self.rigid_body, radius, height },
                    ),
                },
            },
        }
    }
}

impl ColliderDescriptor {
    /// The motion class that the record names.
    pub open spec fn motion_spec(self) -> BRigidBody {
        match self {
            ColliderDescriptor::TrimeshFromMesh { motion } => motion,
            ColliderDescriptor::ConvexHull { motion } => motion,
            ColliderDescriptor::Cuboid { motion, .. } => motion,
            ColliderDescriptor::Sphere { motion, .. } => motion,
            ColliderDescriptor::Cylinder { motion, .. } => motion,
        }
    }

    /// The physical shape: a cuboid's edges are twice the stored `cube_size`,
    /// a cylinder's height is twice the stored `height`; a radius is taken as it is.
    pub open spec fn shape_spec(self) -> ColliderShape {
        match self {
            ColliderDescriptor::TrimeshFromMesh { .. } => ColliderShape::TrimeshFromMesh,
            ColliderDescriptor::ConvexHull { .. } => ColliderShape::ConvexHullFromMesh,
            ColliderDescriptor::Cuboid { cube_size, .. } => ColliderShape::Cuboid {
                x_length: cube_size.x.double_spec(),
                y_length: cube_size.y.double_spec(),
                z_length: cube_size.z.double_spec(),
            },
            ColliderDescriptor::Sphere { radius, .. } => ColliderShape::Sphere { radius },
            ColliderDescriptor::Cylinder { radius, height, .. } => ColliderShape::Cylinder {
                radius,
                height: height.double_spec(),
            },
        }
    }

    /// Only a cuboid is given a mass of its own.
    pub open spec fn mass_spec(self) -> Option<Fixed> {
        match self {
            ColliderDescriptor::Cuboid { .. } => Some(Fixed { raw: 100_000_000 }),
            _ => None,
        }
    }

    /// Blue for a triangle mesh, white for a hull, green for a cuboid, red
    /// for a sphere, magenta for a cylinder.
    pub open spec fn debug_color_spec(self) -> DebugColor {
        match self {
            ColliderDescriptor::TrimeshFromMesh { .. } => DebugColor::rgb_spec(false, false, true),
            ColliderDescriptor::ConvexHull { .. } => DebugColor::rgb_spec(true, true, true),
            ColliderDescriptor::Cuboid { .. } => DebugColor::rgb_spec(false, true, false),
            ColliderDescriptor::Sphere { .. } => DebugColor::rgb_spec(true, false, false),
            ColliderDescriptor::Cylinder { .. } => DebugColor::rgb_spec(true, false, true),
        }
    }

    /// All that is attached to the node.
    pub open spec fn resolve_spec(self) -> BodySetup {
        BodySetup {
            motion: self.motion_spec().motion_class_spec(),
            shape: self.shape_spec(),
            mass: self.mass_spec(),
            debug_color: self.debug_color_spec(),
        }
    }

    /// The motion class that the record names.
    #[verifier::when_used_as_spec(motion_spec)]
    pub fn motion(self) -> (r: BRigidBody)
        ensures
            r == self.motion_spec(),
    {
        match self {
            ColliderDescriptor::TrimeshFromMesh { motion } => motion,
            ColliderDescriptor::ConvexHull { motion } => motion,
            ColliderDescriptor::Cuboid { motion, .. } => motion,
            ColliderDescriptor::Sphere { motion, .. } => motion,
            ColliderDescriptor::Cylinder { motion, .. } => motion,
        }
    }

    /// The physical shape.
    #[verifier::when_used_as_spec(shape_spec)]
    pub fn shape(self) -> (r: ColliderShape)
        ensures
            r == self.shape_spec(),
    {
        match self {
            ColliderDescriptor::TrimeshFromMesh { .. } => ColliderShape::TrimeshFromMesh,
            ColliderDescriptor::ConvexHull { .. } => ColliderShape::ConvexHullFromMesh,
            ColliderDescriptor::Cuboid { cube_size, .. } => ColliderShape::Cuboid {
                x_length: cube_size.x.double(),
                y_length: cube_size.y.double(),
                z_length: cube_size.z.double(),
            },
            ColliderDescriptor::Sphere { radius, .. } => ColliderShape::Sphere { radius },
            ColliderDescriptor::Cylinder { radius, height, .. } => ColliderShape::Cylinder {
                radius,
                height: height.double(),
            },
        }
    }

    /// The motion class, shape, mass and debug colour to attach to the node.
    #[verifier::when_used_as_spec(resolve_spec)]
    pub fn resolve(self) -> (r: BodySetup)
        ensures
            r == self.resolve_spec(),
    {
        let mass = match self {
            ColliderDescriptor::Cuboid { .. } => Some(Fixed::from_int(CUBOID_MASS)),
            _ => None,
        };
        let debug_color = match self {
            ColliderDescriptor::TrimeshFromMesh { .. } => DebugColor::rgb(false, false, true),
            ColliderDescriptor::ConvexHull { .. } => DebugColor::rgb(true, true, true),
            ColliderDescriptor::Cuboid { .. } => DebugColor::rgb(false, true, false),
            ColliderDescriptor::Sphere { .. } => DebugColor::rgb(true, false, false),
            ColliderDescriptor::Cylinder { .. } => DebugColor::rgb(true, false, true),
        };
        BodySetup { motion: self.motion().motion_class(), shape: self.shape(), mass, debug_color }
    }
}

impl ColliderShape {
    /// Half the size of the shape's bounding box along each axis. A shape
    /// taken from the visual geometry has the box of that geometry, which the
    /// caller supplies.
    pub open spec fn half_extents_spec(self, mesh_half_extents: Vec3) -> Vec3 {
        match self {
            ColliderShape::TrimeshFromMesh => mesh_half_extents,
            ColliderShape::ConvexHullFromMesh => mesh_half_extents,
            ColliderShape::Cuboid { x_length, y_length, z_length } => Vec3 {
                x: x_length.half_spec(),
                y: y_length.half_spec(),
                z: z_length.half_spec(),
            },
            ColliderShape::Sphere { radius } => Vec3 { x: radius, y: radius, z: radius },
            ColliderShape::Cylinder { radius, height } => Vec3 {
                x: radius,
                y: height.half_spec(),
                z: radius,
            },
        }
    }

    /// Half the size of the bounding box of the shape.
    #[verifier::when_used_as_spec(half_extents_spec)]
    pub fn half_extents(self, mesh_half_extents: Vec3) -> (r: Vec3)
        ensures
            r == self.half_extents_spec(mesh_half_extents),
    {
        match self {
            ColliderShape::TrimeshFromMesh => mesh_half_extents,
            ColliderShape::ConvexHullFromMesh => mesh_half_extents,
            ColliderShape::Cuboid { x_length, y_length, z_length } => Vec3 {
                x: x_length.half(),
                y: y_length.half(),
                z: z_length.half(),
            },
            ColliderShape::Sphere { radius } => Vec3 { x: radius, y: radius, z: radius },
            ColliderShape::Cylinder { radius, height } => Vec3 {
                x: radius,
                y: height.half(),
                z: radius,
            },
        }
    }
}

impl BodySetup {
    /// The body that the setup gives at `position`: at rest, not rotated.
    pub fn spawn(&self, position: Vec3, mesh_half_extents: Vec3, restitution: Fixed) -> (r:
        RigidBody)
        ensures
            r.position == position,
            r.velocity == Vec3::zero_spec(),
            r.motion == self.motion,
            r.restitution == restitution,
            r.half_extents == self.shape.half_extents_spec(mesh_half_extents),
            r.orientation == crate::transform::Quat::identity_spec(),
            r.wf(),
    {
        RigidBody::new(
            position,
            self.shape.half_extents(mesh_half_extents),
            self.motion,
            restitution,
        )
    }
}

impl NodeExtras {
    /// What becomes of a node that carries `self`, whatever its siblings carry.
    pub open spec fn outcome_spec(self) -> NodeOutcome {
        match self {
            NodeExtras::Absent => NodeOutcome::Untouched,
            NodeExtras::Unparsable => NodeOutcome::Skipped(MetadataError::Unparsable),
            NodeExtras::Parsed(extras) => match extras.descriptor_spec() {
                Ok(descriptor) => NodeOutcome::Attached(descriptor.resolve_spec()),
                Err(e) => NodeOutcome::Skipped(e),
            },
        }
    }

    /// What becomes of a node that carries `self`.
    #[verifier::when_used_as_spec(outcome_spec)]
    pub fn outcome(self) -> (r: NodeOutcome)
        ensures
            r == self.outcome_spec(),
    {
        match self {
            NodeExtras::Absent => NodeOutcome::Untouched,
            NodeExtras::Unparsable => NodeOutcome::Skipped(MetadataError::Unparsable),
            NodeExtras::Parsed(extras) => match extras.descriptor() {
                Ok(descriptor) => NodeOutcome::Attached(descriptor.resolve()),
                Err(e) => NodeOutcome::Skipped(e),
            },
        }
    }
}

/// What becomes of each node of a scene, in order.
pub open spec fn outcomes_of(nodes: Seq<NodeExtras>) -> Seq<NodeOutcome> {
    Seq::new(nodes.len(), |i: int| nodes[i].outcome_spec())
}

/// Goes through the descendants of a scene that has just been loaded, in the
/// order given, and says for each what is attached to it. A faulty node is
/// skipped by itself: every other node gets what it would get alone.
pub fn process_gltf_descendants(nodes: &Vec<NodeExtras>) -> (outcomes: Vec<NodeOutcome>)
    ensures
        outcomes@ == outcomes_of(nodes@),
        outcomes.len() == nodes.len(),
        forall|i: int| 0 <= i < nodes.len() ==> outcomes[i] == (#[trigger] nodes[i]).outcome_spec(),
{
    let mut outcomes: Vec<NodeOutcome> = Vec::new();
    let mut i: usize = 0;
    while i < nodes.len()
        invariant
            i <= nodes.len(),
            outcomes.len() == i,
            forall|k: int| 0 <= k < i ==> outcomes[k] == (#[trigger] nodes[k]).outcome_spec(),
        decreases nodes.len() - i,
    {
        outcomes.push(nodes[i].outcome());
        i = i + 1;
    }
    assert(outcomes@ =~= outcomes_of(nodes@));
    outcomes
}

/// A doubled size halves back to itself unless the doubling was clamped.
pub proof fn lemma_half_of_double(a: Fixed)
    requires
        i64::MIN <= 2 * a@ <= i64::MAX,
    ensures
        a.double_spec().half_spec() == a,
{
}

/// Resolving a descriptor is a function of the descriptor alone: two
/// resolutions of equal descriptors agree in the shape and in all its
/// parameters, in the motion class, in the mass and in the colour.
pub proof fn lemma_resolve_deterministic(first: ColliderDescriptor, second: ColliderDescriptor)
    requires
        first == second,
    ensures
        first.resolve_spec() == second.resolve_spec(),
        first.shape_spec() == second.shape_spec(),
        first.resolve_spec().shape == second.shape_spec(),
{
}

/// What a node gets does not depend on its siblings: if one node of a scene
/// is exchanged for another, the outcome changes at its place and nowhere else.
pub proof fn lemma_siblings_independent(nodes: Seq<NodeExtras>, place: int, other: NodeExtras)
    requires
        0 <= place < nodes.len(),
    ensures
        outcomes_of(nodes.update(place, other)) == outcomes_of(nodes).update(
            place,
            other.outcome_spec(),
        ),
{
    assert(outcomes_of(nodes.update(place, other)) =~= outcomes_of(nodes).update(
        place,
        other.outcome_spec(),
    ));
}

} // verus!
