//! Collision response: restitution impulses, positional correction and the
//! snapping of residual velocities.
//!
//! The response is a single pass: each contact is resolved once per step,
//! and chains of contacts are not relaxed against each other.

use vstd::prelude::*;
use crate::body::{PlaneCollider, RigidBody};
use crate::collision::{Contact, PlaneContact};
use crate::fixed::Fixed;
use crate::vector::Vec3;

verus! {

/// Added to the penetration before it is corrected: 0.01.
pub const CORRECTION_BIAS: i64 = 10_000;

/// The share of the biased penetration that one step corrects: 0.8.
pub const CORRECTION_STRENGTH: i64 = 800_000;

/// A velocity whose squared length is below this is taken for rest: 0.0001.
pub const REST_EPSILON: i64 = 100;

/// The share of its velocity along a plane that a body keeps on contact: 0.9.
pub const TANGENT_RETENTION: i64 = 900_000;

/// The restitution of a contact: the mean of the two coefficients.
pub open spec fn combined_restitution(first: Fixed, second: Fixed) -> Fixed {
    first.add_spec(second).half_spec()
}

/// The impulse along the normal that turns an approach at `normal_speed`
/// (negative when approaching) into a rebound: `-(1 + restitution) * normal_speed`;
/// zero when the two are not approaching.
pub open spec fn impulse_magnitude(normal_speed: Fixed, restitution: Fixed) -> Fixed {
    if normal_speed@ < 0 {
        Fixed::one_spec().add_spec(restitution).mul_spec(normal_speed).neg_spec()
    } else {
        Fixed { raw: 0 }
    }
}

/// How far a contact of the given depth is pushed apart in one step:
/// `(penetration + bias) * strength`.
pub open spec fn correction_magnitude(penetration: Fixed) -> Fixed {
    penetration.add_spec(Fixed { raw: CORRECTION_BIAS }).mul_spec(
        Fixed { raw: CORRECTION_STRENGTH },
    )
}

/// A velocity below the rest threshold becomes zero; any other stays.
pub open spec fn snapped(velocity: Vec3) -> Vec3 {
    if velocity.length_squared_spec()@ < REST_EPSILON {
        Vec3::zero_spec()
    } else {
        velocity
    }
}

/// The speed at which B moves away from A along the normal (negative: they approach).
pub open spec fn normal_speed(a: RigidBody, b: RigidBody, contact: Contact) -> Fixed {
    b.velocity.sub_spec(a.velocity).dot_spec(contact.normal)
}

/// The impulse that B receives; A receives its opposite.
pub open spec fn pair_impulse(a: RigidBody, b: RigidBody, contact: Contact) -> Vec3 {
    contact.normal.scale_spec(
        impulse_magnitude(
            normal_speed(a, b, contact),
            combined_restitution(a.restitution, b.restitution),
        ),
    )
}

/// The whole displacement that separates the pair, along the normal.
pub open spec fn pair_correction(contact: Contact) -> Vec3 {
    contact.normal.scale_spec(correction_magnitude(contact.penetration))
}

/// The share of the displacement that one body takes: half of it when the
/// other body is dynamic too, all of it otherwise.
pub open spec fn correction_share(contact: Contact, other: RigidBody) -> Vec3 {
    if other.is_dynamic_spec() {
        pair_correction(contact).half_spec()
    } else {
        pair_correction(contact)
    }
}

/// Body A after the contact is resolved.
pub open spec fn resolved_first(a: RigidBody, b: RigidBody, contact: Contact) -> RigidBody {
    if a.is_dynamic_spec() {
        RigidBody {
            velocity: snapped(a.velocity.sub_spec(pair_impulse(a, b, contact))),
            position: a.position.sub_spec(correction_share(contact, b)),
            ..a
        }
    } else {
        a
    }
}

/// Body B after the contact is resolved.
pub open spec fn resolved_second(a: RigidBody, b: RigidBody, contact: Contact) -> RigidBody {
    if b.is_dynamic_spec() {
        RigidBody {
            velocity: snapped(b.velocity.add_spec(pair_impulse(a, b, contact))),
            position: b.position.add_spec(correction_share(contact, a)),
            ..b
        }
    } else {
        b
    }
}

/// The body after its contact with a plane is resolved.
pub open spec fn resolved_on_plane(body: RigidBody, plane: PlaneCollider, contact: PlaneContact) -> RigidBody {
    if body.is_dynamic_spec() {
        RigidBody {
            velocity: snapped(plane_response(body, plane, contact)),
            position: body.position.add_spec(
                contact.normal.scale_spec(correction_magnitude(contact.penetration)),
            ),
            ..body
        }
    } else {
        body
    }
}

/// The velocity of a dynamic body after the plane has thrown it back: the
/// rebound along the normal is kept whole, the rest is damped.
pub open spec fn plane_response(body: RigidBody, plane: PlaneCollider, contact: PlaneContact) -> Vec3 {
    let speed = body.velocity.dot_spec(contact.normal);
    if speed@ < 0 {
        let thrown = body.velocity.add_spec(
            contact.normal.scale_spec(
                impulse_magnitude(speed, combined_restitution(body.restitution, plane.restitution)),
            ),
        );
        let along_normal = contact.normal.scale_spec(thrown.dot_spec(contact.normal));
        along_normal.add_spec(
            thrown.sub_spec(along_normal).scale_spec(Fixed { raw: TANGENT_RETENTION }),
        )
    } else {
        body.velocity
    }
}

/// The restitution of a contact between two bodies.
pub fn combine_restitution(first: Fixed, second: Fixed) -> (r: Fixed)
    ensures
        r == combined_restitution(first, second),
{
    first.add(second).half()
}

/// The impulse along the normal for a given speed along it.
pub fn impulse_for(normal_speed: Fixed, restitution: Fixed) -> (r: Fixed)
    ensures
        r == impulse_magnitude(normal_speed, restitution),
        normal_speed@ >= 0 ==> r@ == 0,
{
    if normal_speed.raw < 0 {
        Fixed::one().add(restitution).mul(normal_speed).neg()
    } else {
        Fixed::zero()
    }
}

/// How far a contact of the given depth is pushed apart.
pub fn correction_for(penetration: Fixed) -> (r: Fixed)
    ensures
        r == correction_magnitude(penetration),
{
    penetration.add(Fixed { raw: CORRECTION_BIAS }).mul(Fixed { raw: CORRECTION_STRENGTH })
}

/// Takes a velocity below the rest threshold for rest.
pub fn snap_velocity(velocity: Vec3) -> (r: Vec3)
    ensures
        r == snapped(velocity),
        r == velocity || r == Vec3::zero_spec(),
{
    if velocity.length_squared().raw < REST_EPSILON {
        Vec3::zero()
    } else {
        velocity
    }
}

/// Resolves the contact of two bodies. Only a dynamic body is changed: a
/// static or kinematic one keeps its place and its velocity, though it
/// still throws a dynamic one back. If the two approach along the normal,
/// each dynamic body receives the impulse, with opposite signs. Each dynamic
/// body is then moved out along the normal, by half the correction if the
/// other is dynamic too, by all of it if not, and a velocity that has
/// become negligible is set to zero.
pub fn resolve_pair(a: &mut RigidBody, b: &mut RigidBody, contact: &Contact)
    ensures
        *final(a) == resolved_first(*old(a), *old(b), *contact),
        *final(b) == resolved_second(*old(a), *old(b), *contact),
        !old(a).is_dynamic_spec() ==> *final(a) == *old(a),
        !old(b).is_dynamic_spec() ==> *final(b) == *old(b),
        old(a).wf() ==> final(a).wf(),
        old(b).wf() ==> final(b).wf(),
{
    let a_dynamic: bool = a.is_dynamic();
    let b_dynamic: bool = b.is_dynamic();
    let speed = b.velocity.sub(a.velocity).dot(contact.normal);
    let impulse = contact.normal.scale(
        impulse_for(speed, combine_restitution(a.restitution, b.restitution)),
    );
    let correction = contact.normal.scale(correction_for(contact.penetration));
    if a_dynamic {
        a.velocity = snap_velocity(a.velocity.sub(impulse));
        a.position = a.position.sub(
            if b_dynamic {
                correction.half()
            } else {
                correction
            },
        );
    }
    if b_dynamic {
        b.velocity = snap_velocity(b.velocity.add(impulse));
        b.position = b.position.add(
            if a_dynamic {
                correction.half()
            } else {
                correction
            },
        );
    }
}

/// Resolves the contact of a body with a plane. Only a dynamic body is
/// changed. If it moves into the plane it is thrown back along the normal
/// and keeps a fixed share of its velocity along the plane; it is then
/// moved out along the normal, and a negligible velocity is set to zero.
pub fn resolve_plane(body: &mut RigidBody, plane: &PlaneCollider, contact: &PlaneContact)
    ensures
        *final(body) == resolved_on_plane(*old(body), *plane, *contact),
        !old(body).is_dynamic_spec() ==> *final(body) == *old(body),
        old(body).wf() ==> final(body).wf(),
{
    if body.is_dynamic() {
        let speed = body.velocity.dot(contact.normal);
        if speed.raw < 0 {
            let thrown = body.velocity.add(
                contact.normal.scale(
                    impulse_for(speed, combine_restitution(body.restitution, plane.restitution)),
                ),
            );
            let along_normal = contact.normal.scale(thrown.dot(contact.normal));
            body.velocity = along_normal.add(
                thrown.sub(along_normal).scale(Fixed { raw: TANGENT_RETENTION }),
            );
        }
        body.velocity = snap_velocity(body.velocity);
        body.position = body.position.add(
            contact.normal.scale(correction_for(contact.penetration)),
        );
    }
}

} // verus!
