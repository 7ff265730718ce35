//! What holds of the simulation as a whole, proved from the contracts of its parts.

use vstd::prelude::*;
use vstd::arithmetic::div_mod::{
    lemma_div_by_multiple, lemma_div_is_ordered, lemma_fundamental_div_mod,
};
use crate::body::{MotionClass, RigidBody};
use crate::integrator::integrated;
use crate::interactions::{ImpulseSettings, blast_impulse_spec, blasted, falloff, tracking_velocity};
use crate::collision::{Contact, contact_spec, delta, overlap, overlapping};
use crate::fixed::{
    Fixed, SCALE, div_raw, lemma_isqrt_square, lemma_mul_raw_minus_one,
    lemma_mul_raw_neg, lemma_mul_raw_nonneg, lemma_mul_raw_one, lemma_mul_raw_zero,
    lemma_tdiv_neg, mul_raw, sat, tdiv,
};
use crate::resolver::{
    CORRECTION_BIAS, CORRECTION_STRENGTH, correction_magnitude, normal_speed,
    pair_correction, pair_impulse, resolved_first, resolved_second, snapped,
};
use crate::vector::{Vec3, abs_int, sum_squares};

verus! {

/// Seen from the other body, a contact is the same contact: the same axis
/// and depth, and the opposite normal unless the centres coincide along the axis.
pub proof fn lemma_contact_mirrored(a: RigidBody, b: RigidBody)
    requires
        overlapping(a, b),
    ensures
        overlapping(b, a),
        contact_spec(b, a).axis == contact_spec(a, b).axis,
        contact_spec(b, a).penetration == contact_spec(a, b).penetration,
        delta(a, b, contact_spec(a, b).axis as int) != 0 ==> contact_spec(b, a).normal == contact_spec(
            a,
            b,
        ).normal.neg_spec(),
{
    assert(overlap(b, a, 0) == overlap(a, b, 0));
    assert(overlap(b, a, 1) == overlap(a, b, 1));
    assert(overlap(b, a, 2) == overlap(a, b, 2));
}

/// A correction is never negative, and at least 0.008 for a contact of positive depth.
proof fn lemma_correction_positive(penetration: Fixed)
    requires
        penetration@ > 0,
    ensures
        correction_magnitude(penetration)@ >= 8000,
        correction_magnitude(penetration)@ <= sat(penetration@ + CORRECTION_BIAS),
{
    let biased = sat(penetration@ + CORRECTION_BIAS);
    let strength = CORRECTION_STRENGTH as int;
    lemma_mul_raw_nonneg(biased, strength);
    assert(biased * strength >= 10_001 * 800_000) by (nonlinear_arith)
        requires
            biased >= 10_001,
            strength == 800_000,
    ;
    assert((biased * strength) / 1_000_000 >= 8000);
}

/// A unit vector along an axis, scaled: the magnitude along that axis, with
/// the sign of the unit, and nothing along the others.
proof fn lemma_axis_unit_scaled(axis: int, positive: bool, magnitude: Fixed)
    requires
        0 <= axis < 3,
        magnitude@ > i64::MIN,
    ensures
        Vec3::axis_unit_spec(axis, positive).scale_spec(magnitude) == Vec3::along_axis(
            axis,
            if positive {
                magnitude
            } else {
                magnitude.neg_spec()
            },
        ),
{
    lemma_mul_raw_one(magnitude@);
    lemma_mul_raw_minus_one(magnitude@);
    lemma_mul_raw_zero(magnitude@);
}

/// Moving a point along one axis leaves its other coordinates as they are.
proof fn lemma_moved_along_axis(point: Vec3, axis: int, by: Fixed)
    requires
        0 <= axis < 3,
    ensures
        point.add_spec(Vec3::along_axis(axis, by)).component_spec(axis) == point.component_spec(
            axis,
        ).add_spec(by),
        point.sub_spec(Vec3::along_axis(axis, by)).component_spec(axis) == point.component_spec(
            axis,
        ).sub_spec(by),
        forall|other: int|
            0 <= other < 3 && other != axis ==> (#[trigger] point.component_spec(other)) == point.add_spec(
                Vec3::along_axis(axis, by),
            ).component_spec(other) && point.component_spec(other) == point.sub_spec(
                Vec3::along_axis(axis, by),
            ).component_spec(other),
        Vec3::along_axis(axis, by).half_spec() == Vec3::along_axis(axis, by.half_spec()),
{
}

/// The correction of a contact along an axis, with its sign: toward B it
/// is the magnitude, away from B its negative.
pub open spec fn signed_correction(penetration: Fixed, toward: bool) -> Fixed {
    if toward {
        correction_magnitude(penetration)
    } else {
        correction_magnitude(penetration).neg_spec()
    }
}

/// The displacement of a contact along an axis lies along that axis, whole and halved.
proof fn lemma_correction_along_axis(contact: Contact, toward: bool)
    requires
        contact.axis < 3,
        contact.penetration@ > 0,
        contact.normal == Vec3::axis_unit_spec(contact.axis as int, toward),
    ensures
        pair_correction(contact) == Vec3::along_axis(
            contact.axis as int,
            signed_correction(contact.penetration, toward),
        ),
        pair_correction(contact).half_spec() == Vec3::along_axis(
            contact.axis as int,
            signed_correction(contact.penetration, toward).half_spec(),
        ),
        correction_magnitude(contact.penetration)@ >= 8000,
        signed_correction(contact.penetration, toward)@ == (if toward {
            correction_magnitude(contact.penetration)@
        } else {
            -correction_magnitude(contact.penetration)@
        }),
        signed_correction(contact.penetration, toward).half_spec()@ == (if toward {
            correction_magnitude(contact.penetration).half_spec()@
        } else {
            -correction_magnitude(contact.penetration).half_spec()@
        }),
        correction_magnitude(contact.penetration).half_spec()@ >= 4000,
{
    lemma_correction_positive(contact.penetration);
    lemma_axis_unit_scaled(contact.axis as int, toward, correction_magnitude(contact.penetration));
}

/// The share of a contact's correction that a dynamic body takes, along the
/// contact axis and with its sign: half if the other body is dynamic too.
pub open spec fn signed_share(contact: Contact, toward: bool, other: RigidBody) -> Fixed {
    if other.is_dynamic_spec() {
        signed_correction(contact.penetration, toward).half_spec()
    } else {
        signed_correction(contact.penetration, toward)
    }
}

/// Where the two bodies of a contact stand after it is resolved: each
/// dynamic one is moved along the contact axis by its share, A against the
/// normal and B along it.
proof fn lemma_parting(a: RigidBody, b: RigidBody)
    requires
        overlapping(a, b),
    ensures
        ({
            let contact = contact_spec(a, b);
            let axis = contact.axis as int;
            let toward = delta(a, b, axis) >= 0;
            let after_a = resolved_first(a, b, contact);
            let after_b = resolved_second(a, b, contact);
            &&& 0 <= axis < 3
            &&& contact.penetration@ > 0
            &&& contact.normal == Vec3::axis_unit_spec(axis, toward)
            &&& after_a.half_extents == a.half_extents
            &&& after_b.half_extents == b.half_extents
            &&& after_a.position == (if a.is_dynamic_spec() {
                a.position.sub_spec(Vec3::along_axis(axis, signed_share(contact, toward, b)))
            } else {
                a.position
            })
            &&& after_b.position == (if b.is_dynamic_spec() {
                b.position.add_spec(Vec3::along_axis(axis, signed_share(contact, toward, a)))
            } else {
                b.position
            })
        }),
{
    let contact = contact_spec(a, b);
    let axis = contact.axis as int;
    let toward = delta(a, b, axis) >= 0;
    lemma_correction_along_axis(contact, toward);
}

/// Two points on a line that are each moved away from the other, or left
/// where they are, do not come nearer to each other.
proof fn lemma_gap_grows(first: Fixed, second: Fixed, by_first: Fixed, by_second: Fixed)
    requires
        second@ >= first@ ==> by_first@ >= 0 && by_second@ >= 0,
        second@ < first@ ==> by_first@ <= 0 && by_second@ <= 0,
    ensures
        abs_int(second.add_spec(by_second)@ - first.sub_spec(by_first)@) >= abs_int(
            second@ - first@,
        ),
        abs_int(second.add_spec(by_second)@ - first@) >= abs_int(second@ - first@),
        abs_int(second@ - first.sub_spec(by_first)@) >= abs_int(second@ - first@),
{
}

/// Two bodies have been moved apart along an axis: each is where it was, or
/// has been moved by its share, the first against the direction from it to
/// the second and the second along it; the shares are at least 0.004 and no
/// more than the biased overlap; and the sizes are as they were.
#[verifier::opaque]
pub open spec fn moved_apart(
    a: RigidBody,
    b: RigidBody,
    after_a: RigidBody,
    after_b: RigidBody,
    axis: int,
    share_a: Fixed,
    share_b: Fixed,
) -> bool {
    let reach = sat(sat(overlap(a, b, axis)) + CORRECTION_BIAS);
    &&& 0 <= axis < 3
    &&& after_a.half_extents == a.half_extents
    &&& after_b.half_extents == b.half_extents
    &&& after_a.position.component_spec(axis) == (if a.is_dynamic_spec() {
        a.position.component_spec(axis).sub_spec(share_a)
    } else {
        a.position.component_spec(axis)
    })
    &&& after_b.position.component_spec(axis) == (if b.is_dynamic_spec() {
        b.position.component_spec(axis).add_spec(share_b)
    } else {
        b.position.component_spec(axis)
    })
    &&& delta(a, b, axis) >= 0 ==> 4000 <= share_a@ <= reach && 4000 <= share_b@ <= reach
    &&& delta(a, b, axis) < 0 ==> -reach <= share_a@ <= -4000 && -reach <= share_b@ <= -4000
}

/// The share of a correction that a body takes is at least 0.004 and at
/// most the biased depth of the contact, with the sign of the direction.
proof fn lemma_share_bounds(contact: Contact, toward: bool, other: RigidBody)
    requires
        contact.axis < 3,
        contact.penetration@ > 0,
        contact.normal == Vec3::axis_unit_spec(contact.axis as int, toward),
    ensures
        toward ==> 4000 <= signed_share(contact, toward, other)@ <= sat(
            contact.penetration@ + CORRECTION_BIAS,
        ),
        !toward ==> -sat(contact.penetration@ + CORRECTION_BIAS) <= signed_share(
            contact,
            toward,
            other,
        )@ <= -4000,
{
    lemma_correction_along_axis(contact, toward);
    lemma_correction_positive(contact.penetration);
}

/// Where the two bodies of a contact stand along the contact axis after it
/// is resolved.
proof fn lemma_axis_positions(a: RigidBody, b: RigidBody)
    requires
        overlapping(a, b),
    ensures
        ({
            let contact = contact_spec(a, b);
            let axis = contact.axis as int;
            let toward = delta(a, b, axis) >= 0;
            &&& resolved_first(a, b, contact).position.component_spec(axis) == (if a.is_dynamic_spec() {
                a.position.component_spec(axis).sub_spec(signed_share(contact, toward, b))
            } else {
                a.position.component_spec(axis)
            })
            &&& resolved_second(a, b, contact).position.component_spec(axis) == (if b.is_dynamic_spec() {
                b.position.component_spec(axis).add_spec(signed_share(contact, toward, a))
            } else {
                b.position.component_spec(axis)
            })
            &&& resolved_first(a, b, contact).half_extents == a.half_extents
            &&& resolved_second(a, b, contact).half_extents == b.half_extents
        }),
{
    let contact = contact_spec(a, b);
    let axis = contact.axis as int;
    let toward = delta(a, b, axis) >= 0;
    lemma_parting(a, b);
    lemma_moved_along_axis(a.position, axis, signed_share(contact, toward, b));
    lemma_moved_along_axis(b.position, axis, signed_share(contact, toward, a));
}

/// Resolving a contact moves its two bodies apart along the contact axis.
proof fn lemma_parting_on_axis(a: RigidBody, b: RigidBody)
    requires
        overlapping(a, b),
    ensures
        moved_apart(
            a,
            b,
            resolved_first(a, b, contact_spec(a, b)),
            resolved_second(a, b, contact_spec(a, b)),
            contact_spec(a, b).axis as int,
            signed_share(contact_spec(a, b), delta(a, b, contact_spec(a, b).axis as int) >= 0, b),
            signed_share(contact_spec(a, b), delta(a, b, contact_spec(a, b).axis as int) >= 0, a),
        ),
{
    reveal(moved_apart);
    let contact = contact_spec(a, b);
    let axis = contact.axis as int;
    let toward = delta(a, b, axis) >= 0;
    lemma_axis_positions(a, b);
    lemma_share_bounds(contact, toward, a);
    lemma_share_bounds(contact, toward, b);
    assert(contact.penetration@ == sat(overlap(a, b, axis)));
}

/// The contact axis of two overlapping boxes has the least overlap of the three.
pub proof fn lemma_least_axis(a: RigidBody, b: RigidBody)
    requires
        overlapping(a, b),
    ensures
        0 <= contact_spec(a, b).axis < 3,
        forall|other: int|
            0 <= other < 3 ==> overlap(a, b, contact_spec(a, b).axis as int) <= #[trigger] overlap(
                a,
                b,
                other,
            ),
{
}

/// Resolving a contact moves neither body along an axis other than the contact axis.
pub proof fn lemma_other_axes_kept(a: RigidBody, b: RigidBody)
    requires
        overlapping(a, b),
    ensures
        forall|other: int|
            0 <= other < 3 && other != contact_spec(a, b).axis ==> resolved_first(
                a,
                b,
                contact_spec(a, b),
            ).position.component_spec(other) == #[trigger] a.position.component_spec(other),
        forall|other: int|
            0 <= other < 3 && other != contact_spec(a, b).axis ==> resolved_second(
                a,
                b,
                contact_spec(a, b),
            ).position.component_spec(other) == #[trigger] b.position.component_spec(other),
{
    let contact = contact_spec(a, b);
    let axis = contact.axis as int;
    let toward = delta(a, b, axis) >= 0;
    lemma_parting(a, b);
    lemma_moved_along_axis(a.position, axis, signed_share(contact, toward, b));
    lemma_moved_along_axis(b.position, axis, signed_share(contact, toward, a));
}

/// Two boxes that have been moved apart along an axis do not overlap more
/// along that axis than before.
proof fn lemma_overlap_does_not_grow(
    a: RigidBody,
    b: RigidBody,
    after_a: RigidBody,
    after_b: RigidBody,
    axis: int,
    share_a: Fixed,
    share_b: Fixed,
)
    requires
        moved_apart(a, b, after_a, after_b, axis, share_a, share_b),
    ensures
        overlap(after_a, after_b, axis) <= overlap(a, b, axis),
{
    reveal(moved_apart);
    lemma_gap_grows(
        a.position.component_spec(axis),
        b.position.component_spec(axis),
        share_a,
        share_b,
    );
}

/// Without an impulse, resolving a contact leaves the velocities as they
/// are but for the snapping of a dynamic body's negligible velocity.
proof fn lemma_velocities_without_impulse(a: RigidBody, b: RigidBody, contact: Contact)
    requires
        pair_impulse(a, b, contact) == Vec3::zero_spec(),
    ensures
        resolved_first(a, b, contact).velocity == (if a.is_dynamic_spec() {
            snapped(a.velocity)
        } else {
            a.velocity
        }),
        resolved_second(a, b, contact).velocity == (if b.is_dynamic_spec() {
            snapped(b.velocity)
        } else {
            b.velocity
        }),
{
    assert(a.velocity.sub_spec(Vec3::zero_spec()) == a.velocity);
    assert(b.velocity.add_spec(Vec3::zero_spec()) == b.velocity);
}

/// Two overlapping boxes without relative velocity are parted along the
/// axis of least overlap and along no other: that axis has the smallest of
/// the three overlaps, no impulse is exchanged, neither body moves along
/// another axis, and along the contact axis the overlap does not grow.
pub proof fn lemma_parted_along_least_axis(a: RigidBody, b: RigidBody)
    requires
        overlapping(a, b),
        a.velocity == b.velocity,
    ensures
        0 <= contact_spec(a, b).axis < 3,
        forall|other: int|
            0 <= other < 3 ==> overlap(a, b, contact_spec(a, b).axis as int) <= #[trigger] overlap(
                a,
                b,
                other,
            ),
        pair_impulse(a, b, contact_spec(a, b)) == Vec3::zero_spec(),
        resolved_first(a, b, contact_spec(a, b)).velocity == (if a.is_dynamic_spec() {
            snapped(a.velocity)
        } else {
            a.velocity
        }),
        resolved_second(a, b, contact_spec(a, b)).velocity == (if b.is_dynamic_spec() {
            snapped(b.velocity)
        } else {
            b.velocity
        }),
        forall|other: int|
            0 <= other < 3 && other != contact_spec(a, b).axis ==> resolved_first(
                a,
                b,
                contact_spec(a, b),
            ).position.component_spec(other) == #[trigger] a.position.component_spec(other),
        forall|other: int|
            0 <= other < 3 && other != contact_spec(a, b).axis ==> resolved_second(
                a,
                b,
                contact_spec(a, b),
            ).position.component_spec(other) == #[trigger] b.position.component_spec(other),
        overlap(
            resolved_first(a, b, contact_spec(a, b)),
            resolved_second(a, b, contact_spec(a, b)),
            contact_spec(a, b).axis as int,
        ) <= overlap(a, b, contact_spec(a, b).axis as int),
{
    let contact = contact_spec(a, b);
    let axis = contact.axis as int;
    let toward = delta(a, b, axis) >= 0;
    lemma_least_axis(a, b);
    lemma_no_impulse_at_rest(a, b);
    lemma_velocities_without_impulse(a, b, contact);
    lemma_other_axes_kept(a, b);
    lemma_parting_on_axis(a, b);
    lemma_overlap_does_not_grow(
        a,
        b,
        resolved_first(a, b, contact),
        resolved_second(a, b, contact),
        axis,
        signed_share(contact, toward, b),
        signed_share(contact, toward, a),
    );
}

/// Two bodies with the same velocity exchange no impulse.
proof fn lemma_no_impulse_at_rest(a: RigidBody, b: RigidBody)
    requires
        a.velocity == b.velocity,
    ensures
        normal_speed(a, b, contact_spec(a, b))@ == 0,
        pair_impulse(a, b, contact_spec(a, b)) == Vec3::zero_spec(),
        a.velocity.sub_spec(Vec3::zero_spec()) == a.velocity,
        b.velocity.add_spec(Vec3::zero_spec()) == b.velocity,
{
    let contact = contact_spec(a, b);
    let n = contact.normal;
    lemma_mul_raw_zero(n.x@);
    lemma_mul_raw_zero(n.y@);
    lemma_mul_raw_zero(n.z@);
    let relative = b.velocity.sub_spec(a.velocity);
    assert(relative == Vec3::zero_spec());
}

/// The body lies within 2^60 raw units of the origin along every axis, and
/// its half extents are not negative and at most 2^60 raw units.
pub open spec fn within_bounds(body: RigidBody) -> bool {
    forall|axis: int|
        0 <= axis < 3 ==> {
            &&& -0x1000_0000_0000_0000 <= (#[trigger] body.position.component_spec(axis))@
                <= 0x1000_0000_0000_0000
            &&& 0 <= body.half_extents.component_spec(axis)@ <= 0x1000_0000_0000_0000
        }
}

/// Two overlapping boxes without relative velocity, one of them dynamic and
/// both well inside the range of the numbers, overlap less along the
/// contact axis once the contact is resolved.
pub proof fn lemma_parted_strictly(a: RigidBody, b: RigidBody)
    requires
        overlapping(a, b),
        a.velocity == b.velocity,
        a.is_dynamic_spec() || b.is_dynamic_spec(),
        within_bounds(a),
        within_bounds(b),
    ensures
        ({
            let contact = contact_spec(a, b);
            let axis = contact.axis as int;
            overlap(resolved_first(a, b, contact), resolved_second(a, b, contact), axis) < overlap(
                a,
                b,
                axis,
            )
        }),
{
    let contact = contact_spec(a, b);
    let axis = contact.axis as int;
    let toward = delta(a, b, axis) >= 0;
    lemma_parting_on_axis(a, b);
    lemma_overlap_shrinks(
        a,
        b,
        resolved_first(a, b, contact),
        resolved_second(a, b, contact),
        axis,
        signed_share(contact, toward, b),
        signed_share(contact, toward, a),
    );
}

/// Two boxes well inside the range of the numbers that have been moved
/// apart along an axis, at least one of them in fact, overlap less along
/// that axis than before.
proof fn lemma_overlap_shrinks(
    a: RigidBody,
    b: RigidBody,
    after_a: RigidBody,
    after_b: RigidBody,
    axis: int,
    share_a: Fixed,
    share_b: Fixed,
)
    requires
        moved_apart(a, b, after_a, after_b, axis, share_a, share_b),
        within_bounds(a),
        within_bounds(b),
        a.is_dynamic_spec() || b.is_dynamic_spec(),
    ensures
        overlap(after_a, after_b, axis) < overlap(a, b, axis),
{
    reveal(moved_apart);
    let pa = a.position.component_spec(axis);
    let pb = b.position.component_spec(axis);
    let ha = a.half_extents.component_spec(axis);
    let hb = b.half_extents.component_spec(axis);
    assert(-0x1000_0000_0000_0000 <= pa@ <= 0x1000_0000_0000_0000);
    assert(-0x1000_0000_0000_0000 <= pb@ <= 0x1000_0000_0000_0000);
    assert(0 <= ha@ <= 0x1000_0000_0000_0000);
    assert(0 <= hb@ <= 0x1000_0000_0000_0000);
    assert(overlap(a, b, axis) == ha@ + hb@ - abs_int(pb@ - pa@));
    lemma_gap_grows_strictly(pa, pb, share_a, share_b, a.is_dynamic_spec(), b.is_dynamic_spec());
}

/// Two points on a line well inside the range of the numbers, of which at
/// least one is moved away from the other, come to lie farther apart.
proof fn lemma_gap_grows_strictly(
    first: Fixed,
    second: Fixed,
    by_first: Fixed,
    by_second: Fixed,
    first_moves: bool,
    second_moves: bool,
)
    requires
        first_moves || second_moves,
        -0x1000_0000_0000_0000 <= first@ <= 0x1000_0000_0000_0000,
        -0x1000_0000_0000_0000 <= second@ <= 0x1000_0000_0000_0000,
        -0x3000_0000_0000_0000 <= by_first@ <= 0x3000_0000_0000_0000,
        -0x3000_0000_0000_0000 <= by_second@ <= 0x3000_0000_0000_0000,
        second@ >= first@ ==> by_first@ > 0 && by_second@ > 0,
        second@ < first@ ==> by_first@ < 0 && by_second@ < 0,
    ensures
        ({
            let first_after = if first_moves {
                first.sub_spec(by_first)
            } else {
                first
            };
            let second_after = if second_moves {
                second.add_spec(by_second)
            } else {
                second
            };
            abs_int(second_after@ - first_after@) > abs_int(second@ - first@)
        }),
{
}

/// At the radius the falloff is zero, and a body there or beyond gets no impulse.
pub proof fn lemma_blast_ends_at_radius(point: Vec3, body_position: Vec3, settings: ImpulseSettings)
    requires
        body_position.sub_spec(point).length_spec()@ >= settings.blast_radius@,
    ensures
        blast_impulse_spec(point, body_position, settings) is None,
        settings.blast_radius@ > 0 ==> falloff(settings.blast_radius, settings.blast_radius)@ == 0,
{
    let r = settings.blast_radius@;
    if r > 0 {
        lemma_div_by_multiple(SCALE as int, r);
        assert(r * (SCALE as int) == (SCALE as int) * r) by (nonlinear_arith);
        assert(r * (SCALE as int) >= 0) by (nonlinear_arith)
            requires
                r > 0,
        ;
    }
}

/// Within reach of the blast the falloff lies above zero and at most at
/// one, and it does not rise with the distance: the force is full at the
/// centre and falls to nothing at the radius.
pub proof fn lemma_falloff_falls(nearer: Fixed, farther: Fixed, radius: Fixed)
    requires
        0 <= nearer@ <= farther@ < radius@,
    ensures
        0 < falloff(farther, radius)@ <= falloff(nearer, radius)@ <= SCALE,
        falloff(Fixed { raw: 0 }, radius)@ == SCALE,
{
    let s = SCALE as int;
    let r = radius@;
    assert(0 <= nearer@ * s <= farther@ * s < r * s) by (nonlinear_arith)
        requires
            0 <= nearer@ <= farther@ < r,
            s == 1_000_000,
    ;
    lemma_div_is_ordered(nearer@ * s, farther@ * s, r);
    lemma_div_is_ordered(0, nearer@ * s, r);
    lemma_div_by_multiple(s, r);
    assert(r * s == s * r) by (nonlinear_arith);
    lemma_div_is_ordered(farther@ * s, r * s - 1, r);
    assert((r * s - 1) / r < s) by (nonlinear_arith)
        requires
            r > 0,
            s == 1_000_000,
    ;
    assert(0int * s == 0);
    assert(0int / r == 0);
}

/// A body at the very centre of the blast gets no impulse: there is no
/// direction in which to push it.
pub proof fn lemma_blast_spares_centre(point: Vec3, settings: ImpulseSettings)
    ensures
        blast_impulse_spec(point, point, settings) is None,
{
    lemma_isqrt_square(0);
    assert(point.sub_spec(point) == Vec3::zero_spec());
}

/// A blast changes only dynamic bodies, and of those only the velocity.
pub proof fn lemma_blast_changes_velocity_only(body: RigidBody, point: Vec3, settings: ImpulseSettings)
    ensures
        !body.is_dynamic_spec() ==> blasted(body, point, settings) == body,
        blasted(body, point, settings) == (RigidBody {
            velocity: blasted(body, point, settings).velocity,
            ..body
        }),
        body.wf() ==> blasted(body, point, settings).wf(),
{
}

/// Halfway between the centre and the radius the falloff is one half, so
/// that the impulse is half the full force along the direction from the
/// centre to the body.
pub proof fn lemma_blast_half_radius(point: Vec3, body_position: Vec3, settings: ImpulseSettings)
    requires
        body_position.sub_spec(point).length_spec()@ > 0,
        settings.blast_radius@ == 2 * body_position.sub_spec(point).length_spec()@,
    ensures
        falloff(body_position.sub_spec(point).length_spec(), settings.blast_radius)@ == SCALE / 2,
        body_position.sub_spec(point).normalize_spec() is Some,
        blast_impulse_spec(point, body_position, settings) == Some(
            body_position.sub_spec(point).normalize_spec().unwrap().scale_spec(
                settings.max_force,
            ).scale_spec(Fixed { raw: 500_000 }),
        ),
{
    let d = body_position.sub_spec(point).length_spec()@;
    lemma_div_by_multiple(500_000, 2 * d);
    assert(d * (SCALE as int) == 500_000 * (2 * d)) by (nonlinear_arith);
    assert(d * (SCALE as int) >= 0) by (nonlinear_arith)
        requires
            d > 0,
    ;
}

/// A body that lies straight along the x axis from the centre, halfway to
/// the radius, is pushed along that axis with exactly half the full force.
pub proof fn lemma_blast_half_force_on_axis(point: Vec3, distance: Fixed, settings: ImpulseSettings)
    requires
        distance@ > 0,
        point.x@ + distance@ <= i64::MAX,
        settings.blast_radius@ == 2 * distance@,
    ensures
        blast_impulse_spec(
            point,
            Vec3 { x: point.x.add_spec(distance), ..point },
            settings,
        ) == Some(
            Vec3 { x: settings.max_force.half_spec(), y: Fixed { raw: 0 }, z: Fixed { raw: 0 } },
        ),
{
    let body_position = Vec3 { x: point.x.add_spec(distance), ..point };
    let offset = body_position.sub_spec(point);
    let d = distance@;
    assert(offset == Vec3 { x: distance, y: Fixed { raw: 0 }, z: Fixed { raw: 0 } });
    lemma_isqrt_square(d);
    assert(sum_squares(d, 0, 0) == d * d) by (nonlinear_arith);
    assert(offset.length_raw() == d);
    lemma_blast_half_radius(point, body_position, settings);
    lemma_div_by_multiple(SCALE as int, d);
    assert(d * (SCALE as int) == (SCALE as int) * d) by (nonlinear_arith);
    assert(d * (SCALE as int) >= 0) by (nonlinear_arith)
        requires
            d > 0,
    ;
    assert(0int * (SCALE as int) == 0);
    assert(tdiv(0, d) == 0);
    let direction = offset.normalize_spec().unwrap();
    assert(direction == Vec3 { x: Fixed { raw: 1_000_000 }, y: Fixed { raw: 0 }, z: Fixed { raw: 0 } });
    let force = settings.max_force@;
    lemma_mul_raw_one(force);
    lemma_mul_raw_zero(force);
    lemma_mul_raw_zero(500_000);
    lemma_half_is_times_half(force);
}

/// Multiplying by one half is halving.
proof fn lemma_half_is_times_half(a: int)
    ensures
        mul_raw(a, 500_000) == tdiv(a, 2),
{
    if a >= 0 {
        assert((a * 500_000) / 1_000_000 == a / 2 && a * 500_000 >= 0) by (nonlinear_arith)
            requires
                a >= 0,
        ;
    } else {
        assert((-(a * 500_000)) / 1_000_000 == (-a) / 2 && a * 500_000 < 0) by (nonlinear_arith)
            requires
                a < 0,
        ;
    }
}

/// The quotient of `distance` by `dt` is exact: nothing is lost to rounding.
pub open spec fn divides_exactly(distance: int, dt: int) -> bool {
    div_raw(distance, dt) * dt == distance * SCALE
}

/// A distance that is not negative, divided by a time step of at most one,
/// and the quotient multiplied by the step again: the distance, or one raw
/// unit less.
proof fn lemma_divide_then_multiply_forward(distance: int, dt: int)
    requires
        0 < dt <= SCALE,
        distance >= 0,
    ensures
        distance - 1 <= mul_raw(div_raw(distance, dt), dt) <= distance,
        divides_exactly(distance, dt) ==> mul_raw(div_raw(distance, dt), dt) == distance,
{
    let s = SCALE as int;
    let n = distance * s;
    assert(n >= 0) by (nonlinear_arith)
        requires
            distance >= 0,
            s == 1_000_000,
            n == distance * s,
    ;
    let v = n / dt;
    lemma_fundamental_div_mod(n, dt);
    assert(v == div_raw(distance, dt));
    let back = v * dt;
    assert(back == dt * v) by (nonlinear_arith)
        requires
            back == v * dt,
    ;
    assert(0 <= n % dt < dt);
    assert(n - s < back <= n);
    assert(v >= 0) by (nonlinear_arith)
        requires
            v == n / dt,
            n >= 0,
            dt > 0,
    ;
    assert(back >= 0) by (nonlinear_arith)
        requires
            back == v * dt,
            v >= 0,
            dt > 0,
    ;
    assert(distance - 1 <= back / s <= distance) by (nonlinear_arith)
        requires
            distance * s - s < back <= distance * s,
            s == 1_000_000,
    ;
    if divides_exactly(distance, dt) {
        assert(back / s == distance) by (nonlinear_arith)
            requires
                back == distance * s,
                s == 1_000_000,
        ;
    }
}

/// A distance divided by a time step of at most one, and the quotient
/// multiplied by the step again: the result is the distance, or one raw unit
/// nearer to zero; it is the distance if the division is exact.
pub proof fn lemma_divide_then_multiply(distance: int, dt: int)
    requires
        0 < dt <= SCALE,
    ensures
        distance >= 0 ==> distance - 1 <= mul_raw(div_raw(distance, dt), dt) <= distance,
        distance <= 0 ==> distance <= mul_raw(div_raw(distance, dt), dt) <= distance + 1,
        divides_exactly(distance, dt) ==> mul_raw(div_raw(distance, dt), dt) == distance,
{
    let s = SCALE as int;
    if distance >= 0 {
        lemma_divide_then_multiply_forward(distance, dt);
    } else {
        lemma_divide_then_multiply_forward(-distance, dt);
        assert((-distance) * s == -(distance * s)) by (nonlinear_arith);
        lemma_tdiv_neg(distance * s, dt);
        lemma_mul_raw_neg(div_raw(distance, dt), dt);
        assert(div_raw(-distance, dt) == -div_raw(distance, dt));
        assert((-div_raw(distance, dt)) * dt == -(div_raw(distance, dt) * dt)) by (nonlinear_arith);
    }
}

/// Neither the distance to the target nor the velocity that covers it in
/// one step leaves the range of the numbers.
pub open spec fn tracks_unclamped(target: Fixed, current: Fixed, dt: Fixed) -> bool {
    &&& i64::MIN <= target@ - current@ <= i64::MAX
    &&& i64::MIN <= div_raw(target@ - current@, dt@) <= i64::MAX
}

/// One coordinate of a tracking body after one step: within one raw unit of
/// the target, and at the target if the division by the step is exact.
proof fn lemma_track_axis(target: Fixed, current: Fixed, dt: Fixed)
    requires
        0 < dt@ <= SCALE,
        tracks_unclamped(target, current, dt),
    ensures
        ({
            let velocity = target.sub_spec(current).div_spec(dt);
            let after = current.add_spec(velocity.mul_spec(dt));
            &&& target@ - 1 <= after@ <= target@ + 1
            &&& target@ >= current@ ==> after@ <= target@
            &&& target@ <= current@ ==> after@ >= target@
            &&& divides_exactly(target@ - current@, dt@) ==> after == target
        }),
{
    lemma_divide_then_multiply(target@ - current@, dt@);
}

/// A kinematic body that tracks a target reaches it in one step: with a
/// step of at most one time unit it comes to lie within one raw unit of the
/// target along every axis, and exactly on it along every axis on which the
/// division by the step is exact. Gravity and damping do not touch it.
pub proof fn lemma_tracking_reaches_target(
    wrecker: RigidBody,
    target: Vec3,
    dt: Fixed,
    gravity: Vec3,
    damping: Fixed,
)
    requires
        wrecker.motion == MotionClass::Kinematic,
        0 < dt@ <= SCALE,
        forall|axis: int|
            0 <= axis < 3 ==> tracks_unclamped(
                #[trigger] target.component_spec(axis),
                wrecker.position.component_spec(axis),
                dt,
            ),
    ensures
        ({
            let tracking = RigidBody {
                velocity: tracking_velocity(Some(target), wrecker.position, dt),
                ..wrecker
            };
            let after = integrated(tracking, gravity, damping, dt);
            &&& after.velocity == tracking.velocity
            &&& forall|axis: int|
                0 <= axis < 3 ==> {
                    &&& (#[trigger] target.component_spec(axis))@ - 1 <= after.position.component_spec(
                        axis,
                    )@ <= target.component_spec(axis)@ + 1
                    &&& divides_exactly(
                        target.component_spec(axis)@ - wrecker.position.component_spec(axis)@,
                        dt@,
                    ) ==> after.position.component_spec(axis) == target.component_spec(axis)
                }
        }),
{
    assert(tracks_unclamped(target.component_spec(0), wrecker.position.component_spec(0), dt));
    assert(tracks_unclamped(target.component_spec(1), wrecker.position.component_spec(1), dt));
    assert(tracks_unclamped(target.component_spec(2), wrecker.position.component_spec(2), dt));
    lemma_track_axis(target.x, wrecker.position.x, dt);
    lemma_track_axis(target.y, wrecker.position.y, dt);
    lemma_track_axis(target.z, wrecker.position.z, dt);
}

/// A body that has reached its target is given no velocity, and so stays on it.
pub proof fn lemma_tracking_rests_on_target(
    wrecker: RigidBody,
    dt: Fixed,
    gravity: Vec3,
    damping: Fixed,
)
    requires
        wrecker.motion == MotionClass::Kinematic,
        dt@ != 0,
    ensures
        tracking_velocity(Some(wrecker.position), wrecker.position, dt) == Vec3::zero_spec(),
        integrated(
            RigidBody { velocity: Vec3::zero_spec(), ..wrecker },
            gravity,
            damping,
            dt,
        ).position == wrecker.position,
{
    assert(0int * (SCALE as int) == 0);
    assert(tdiv(0, dt@) == 0);
    lemma_mul_raw_zero(dt@);
}

} // verus!
