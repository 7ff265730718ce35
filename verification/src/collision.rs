//! Collision detection: which bodies overlap, along which axis, and how deep.

use vstd::prelude::*;
use crate::body::{PlaneCollider, RigidBody};
use crate::fixed::{Fixed, fixed_of, saturate};
use crate::transform::Transform;
use crate::vector::{Vec3, abs_int};

verus! {

/// A contact between two bodies A and B.
#[derive(Clone, Copy, Debug, PartialEq, Eq, Structural)]
pub struct Contact {
    /// The axis of least overlap: 0 (x), 1 (y) or 2 (z).
    pub axis: usize,
    /// The unit vector along that axis that points from A toward B.
    pub normal: Vec3,
    /// The overlap along that axis.
    pub penetration: Fixed,
}

/// A contact between a body and a plane.
#[derive(Clone, Copy, Debug, PartialEq, Eq, Structural)]
pub struct PlaneContact {
    /// The plane's normal in the world.
    pub normal: Vec3,
    /// How far the body's centre is from the plane, along the normal.
    pub distance: Fixed,
    /// How far the body reaches through the plane.
    pub penetration: Fixed,
}

/// A contact found by the scan over all pairs, with the places of its two bodies.
#[derive(Clone, Copy, Debug, PartialEq, Eq, Structural)]
pub struct PairContact {
    pub first: usize,
    pub second: usize,
    pub contact: Contact,
}

/// How far B lies from A along an axis, in raw units.
pub open spec fn delta(a: RigidBody, b: RigidBody, axis: int) -> int {
    b.position.component_spec(axis)@ - a.position.component_spec(axis)@
}

/// The overlap of the two boxes along an axis, in raw units and unclamped:
/// the sum of the half extents less the distance of the centres.
pub open spec fn overlap(a: RigidBody, b: RigidBody, axis: int) -> int {
    a.half_extents.component_spec(axis)@ + b.half_extents.component_spec(axis)@ - abs_int(
        delta(a, b, axis),
    )
}

/// The boxes collide: they overlap along all three axes. Boxes that only touch do not.
pub open spec fn overlapping(a: RigidBody, b: RigidBody) -> bool {
    overlap(a, b, 0) > 0 && overlap(a, b, 1) > 0 && overlap(a, b, 2) > 0
}

/// The axis of least overlap; of two axes with the same overlap, the earlier one.
pub open spec fn least_axis(a: RigidBody, b: RigidBody) -> int {
    if overlap(a, b, 0) <= overlap(a, b, 1) && overlap(a, b, 0) <= overlap(a, b, 2) {
        0
    } else if overlap(a, b, 1) <= overlap(a, b, 2) {
        1
    } else {
        2
    }
}

/// The contact of two colliding boxes.
pub open spec fn contact_spec(a: RigidBody, b: RigidBody) -> Contact {
    let axis = least_axis(a, b);
    Contact {
        axis: axis as usize,
        normal: Vec3::axis_unit_spec(axis, delta(a, b, axis) >= 0),
        penetration: fixed_of(overlap(a, b, axis)),
    }
}

/// The contact of two boxes, if they collide.
pub open spec fn detect_spec(a: RigidBody, b: RigidBody) -> Option<Contact> {
    if overlapping(a, b) {
        Some(contact_spec(a, b))
    } else {
        None
    }
}

/// The overlap of two boxes along one axis.
fn axis_overlap(a: &RigidBody, b: &RigidBody, axis: usize) -> (r: i128)
    requires
        axis < 3,
    ensures
        r as int == overlap(*a, *b, axis as int),
{
    let ha: i128 = a.half_extents.component(axis).raw as i128;
    let hb: i128 = b.half_extents.component(axis).raw as i128;
    let pa: i128 = a.position.component(axis).raw as i128;
    let pb: i128 = b.position.component(axis).raw as i128;
    let d: i128 = pb - pa;
    let distance: i128 = if d < 0 { -d } else { d };
    ha + hb - distance
}

/// The narrow phase for two boxes. They collide exactly when they overlap
/// along all three axes; the contact is then along the axis of least
/// overlap, never one of larger overlap, and its normal points from `a` to `b`.
pub fn detect(a: &RigidBody, b: &RigidBody) -> (r: Option<Contact>)
    ensures
        r is Some <==> overlapping(*a, *b),
        r == detect_spec(*a, *b),
        r matches Some(c) ==> {
            &&& c.axis < 3
            &&& forall|axis: int|
                0 <= axis < 3 ==> overlap(*a, *b, c.axis as int) <= #[trigger] overlap(*a, *b, axis)
            &&& forall|axis: int|
                0 <= axis < c.axis ==> overlap(*a, *b, c.axis as int) < #[trigger] overlap(*a, *b, axis)
            &&& c.penetration == fixed_of(overlap(*a, *b, c.axis as int))
            &&& c.penetration@ > 0
            &&& c.normal == Vec3::axis_unit_spec(c.axis as int, delta(*a, *b, c.axis as int) >= 0)
        },
{
    let ox: i128 = axis_overlap(a, b, 0);
    let oy: i128 = axis_overlap(a, b, 1);
    let oz: i128 = axis_overlap(a, b, 2);
    if ox <= 0 || oy <= 0 || oz <= 0 {
        return None;
    }
    let axis: usize = if ox <= oy && ox <= oz {
        0
    } else if oy <= oz {
        1
    } else {
        2
    };
    let least: i128 = if axis == 0 {
        ox
    } else if axis == 1 {
        oy
    } else {
        oz
    };
    let toward: bool = b.position.component(axis).raw >= a.position.component(axis).raw;
    Some(
        Contact {
            axis,
            normal: Vec3::axis_unit(axis, toward),
            penetration: Fixed { raw: saturate(least) },
        },
    )
}

/// The plane's normal in the world.
pub open spec fn plane_normal(plane: PlaneCollider, placement: Transform) -> Vec3 {
    placement.direction_spec(plane.normal)
}

/// The plane's anchor point in the world.
pub open spec fn plane_point(plane: PlaneCollider, placement: Transform) -> Vec3 {
    placement.point_spec(plane.point)
}

/// The signed distance of the body's centre from the plane.
pub open spec fn plane_distance(body: RigidBody, plane: PlaneCollider, placement: Transform) -> Fixed {
    plane_normal(plane, placement).dot_spec(body.position.sub_spec(plane_point(plane, placement)))
}

/// The contact of a body with a plane, if the body reaches through it.
pub open spec fn detect_plane_spec(
    body: RigidBody,
    plane: PlaneCollider,
    placement: Transform,
) -> Option<PlaneContact> {
    let distance = plane_distance(body, plane, placement);
    if distance@ < body.half_extents.y@ {
        Some(
            PlaneContact {
                normal: plane_normal(plane, placement),
                distance,
                penetration: body.half_extents.y.sub_spec(distance),
            },
        )
    } else {
        None
    }
}

/// The narrow phase for a body and a plane. The plane is brought into the
/// world anew on every call. The body reaches through the plane exactly when
/// its centre is nearer to it than the body's half extent along y; the body
/// is taken to stand upright on the plane, whatever its orientation.
pub fn detect_plane(body: &RigidBody, plane: &PlaneCollider, placement: &Transform) -> (r: Option<
    PlaneContact,
>)
    ensures
        r == detect_plane_spec(*body, *plane, *placement),
        r is Some <==> plane_distance(*body, *plane, *placement)@ < body.half_extents.y@,
        r matches Some(c) ==> c.penetration@ > 0,
{
    let normal = placement.direction(plane.normal);
    let point = placement.point(plane.point);
    let distance = normal.dot(body.position.sub(point));
    if distance.raw < body.half_extents.y.raw {
        Some(PlaneContact { normal, distance, penetration: body.half_extents.y.sub(distance) })
    } else {
        None
    }
}

/// The pair `(i, j)` is among the contacts found.
pub open spec fn listed(found: Seq<PairContact>, i: int, j: int) -> bool {
    exists|k: int| 0 <= k < found.len() && (#[trigger] found[k]).first == i && found[k].second == j
}

/// The pair of `p` comes before the pair of `q`, pairs being ordered by
/// their first place and then by their second.
pub open spec fn pair_before(p: PairContact, q: PairContact) -> bool {
    p.first < q.first || (p.first == q.first && p.second < q.second)
}

/// Every contact found is a contact of two bodies of the list, the earlier one first.
pub open spec fn contacts_sound(bodies: Seq<RigidBody>, found: Seq<PairContact>) -> bool {
    forall|k: int|
        0 <= k < found.len() ==> {
            &&& (#[trigger] found[k]).first < found[k].second < bodies.len()
            &&& detect_spec(bodies[found[k].first as int], bodies[found[k].second as int]) == Some(
                found[k].contact,
            )
        }
}

/// The contacts come in the order of their pairs, so none comes twice.
pub open spec fn contacts_ordered(found: Seq<PairContact>) -> bool {
    forall|k: int, l: int| 0 <= k < l < found.len() ==> pair_before(#[trigger] found[k], #[trigger] found[l])
}

/// Every colliding pair with its first place below `rows`, or with first
/// place `rows` and second place below `columns`, is among the contacts.
pub open spec fn contacts_complete_up_to(
    bodies: Seq<RigidBody>,
    found: Seq<PairContact>,
    rows: int,
    columns: int,
) -> bool {
    forall|i: int, j: int|
        0 <= i < j < bodies.len() && (i < rows || (i == rows && j < columns)) && #[trigger] overlapping(
            bodies[i],
            bodies[j],
        ) ==> listed(found, i, j)
}

/// Every colliding pair is among the contacts.
pub open spec fn contacts_complete(bodies: Seq<RigidBody>, found: Seq<PairContact>) -> bool {
    forall|i: int, j: int|
        0 <= i < j < bodies.len() && #[trigger] overlapping(bodies[i], bodies[j]) ==> listed(
            found,
            i,
            j,
        )
}

/// The contacts of body `i` with the bodies after it and before `end`, in order.
pub open spec fn row_contacts(bodies: Seq<RigidBody>, i: int, end: int) -> Seq<PairContact>
    decreases end,
{
    if end <= i + 1 || end > bodies.len() || i < 0 {
        Seq::empty()
    } else {
        let earlier = row_contacts(bodies, i, end - 1);
        match detect_spec(bodies[i], bodies[end - 1]) {
            Some(contact) => earlier.push(
                PairContact { first: i as usize, second: (end - 1) as usize, contact },
            ),
            None => earlier,
        }
    }
}

/// The contacts of the bodies before `end` with all bodies after them, in order.
pub open spec fn contacts_up_to(bodies: Seq<RigidBody>, end: int) -> Seq<PairContact>
    decreases end,
{
    if end <= 0 {
        Seq::empty()
    } else {
        contacts_up_to(bodies, end - 1) + row_contacts(bodies, end - 1, bodies.len() as int)
    }
}

/// The contacts of all colliding pairs, in the order of the pairs.
pub open spec fn all_contacts(bodies: Seq<RigidBody>) -> Seq<PairContact> {
    contacts_up_to(bodies, bodies.len() as int)
}

/// The scan over all pairs of bodies: the contact of every colliding pair,
/// each pair once, in the order of the pairs.
pub fn detect_all(bodies: &Vec<RigidBody>) -> (found: Vec<PairContact>)
    ensures
        found@ == all_contacts(bodies@),
        contacts_sound(bodies@, found@),
        contacts_ordered(found@),
        contacts_complete(bodies@, found@),
{
    let mut found: Vec<PairContact> = Vec::new();
    let n: usize = bodies.len();
    let mut i: usize = 0;
    while i < n
        invariant
            n == bodies.len(),
            i <= n,
            contacts_sound(bodies@, found@),
            contacts_ordered(found@),
            contacts_complete_up_to(bodies@, found@, i as int, 0),
            forall|k: int| 0 <= k < found.len() ==> (#[trigger] found[k]).first < i,
            found@ == contacts_up_to(bodies@, i as int),
        decreases n - i,
    {
        let ghost rows = found@;
        let mut j: usize = i + 1;
        while j < n
            invariant
                n == bodies.len(),
                i < n,
                i < j <= n,
                contacts_sound(bodies@, found@),
                contacts_ordered(found@),
                contacts_complete_up_to(bodies@, found@, i as int, j as int),
                forall|k: int|
                    0 <= k < found.len() ==> (#[trigger] found[k]).first < i || (found[k].first == i
                        && found[k].second < j),
                rows == contacts_up_to(bodies@, i as int),
                found@ == rows + row_contacts(bodies@, i as int, j as int),
            decreases n - j,
        {
            let ghost before = found@;
            match detect(&bodies[i], &bodies[j]) {
                Some(contact) => {
                    let entry = PairContact { first: i, second: j, contact };
                    found.push(entry);
                    proof {
                        assert(found@ == before.push(entry));
                        assert forall|p: int, q: int| listed(before, p, q) implies listed(
                            found@,
                            p,
                            q,
                        ) by {
                            let k = choose|k: int|
                                0 <= k < before.len() && (#[trigger] before[k]).first == p
                                    && before[k].second == q;
                            assert(found@[k] == before[k]);
                        }
                        assert(found@[before.len() as int] == entry);
                        assert(listed(found@, i as int, j as int));
                        assert(found@ == rows + row_contacts(bodies@, i as int, j as int).push(entry));
                    }
                },
                None => {},
            }
            j = j + 1;
        }
        i = i + 1;
    }
    found
}

} // verus!
