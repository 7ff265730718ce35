//! The simulation world: the live bodies, the planes they rest on, and the
//! fixed step that advances them.
//!
//! A step runs to its end before anything else touches the bodies. Requests
//! to remove bodies are queued and carried out at the start of the next
//! step, never in the middle of one. Bodies are referred to by handles that
//! stay valid while other bodies come and go.

use vstd::prelude::*;
use crate::body::{MotionClass, PlaneCollider, RigidBody};
use crate::collision::{
    PairContact, PlaneContact, all_contacts, detect_all, detect_plane, detect_plane_spec,
};
use crate::fixed::Fixed;
use crate::integrator::{integrate_all, integrated};
use crate::interactions::ExampleLabel;
use crate::resolver::{
    resolve_pair, resolve_plane, resolved_first, resolved_on_plane, resolved_second,
};
use crate::transform::Transform;
use crate::vector::Vec3;

verus! {

/// A plane together with the node it is attached to.
#[derive(Clone, Copy, Debug, PartialEq, Eq, Structural)]
pub struct PlacedPlane {
    pub plane: PlaneCollider,
    pub placement: Transform,
}

/// A change to the set of bodies that waits for the next step.
#[derive(Clone, Copy, Debug, PartialEq, Eq, Structural)]
pub enum Request {
    /// Remove the body with this handle, if there is one.
    Despawn(u64),
    /// Remove all bodies.
    Reset,
}

/// The simulation world.
pub struct World {
    /// The live bodies, in the order in which they were spawned.
    pub bodies: Vec<RigidBody>,
    /// The handle of each live body, at the same place as the body.
    pub handles: Vec<u64>,
    /// The handle that the next body gets.
    pub next_handle: u64,
    pub planes: Vec<PlacedPlane>,
    pub gravity: Vec3,
    pub damping: Fixed,
    /// The requests that wait for the next step, oldest first.
    pub pending: Vec<Request>,
}

/// The handles are in rising order, so that none occurs twice, and all are
/// below `next`.
pub open spec fn handles_ordered(handles: Seq<u64>, next: u64) -> bool {
    &&& forall|i: int, j: int| 0 <= i < j < handles.len() ==> handles[i] < handles[j]
    &&& forall|i: int| 0 <= i < handles.len() ==> handles[i] < next
}

/// Some body has the handle.
pub open spec fn holds(handles: Seq<u64>, handle: u64) -> bool {
    exists|i: int| 0 <= i < handles.len() && handles[i] == handle
}

/// The place of the body with the handle.
pub open spec fn place_of(handles: Seq<u64>, handle: u64) -> int {
    choose|i: int| 0 <= i < handles.len() && handles[i] == handle
}

/// The labels whose bodies are live, in their order.
pub open spec fn live_labels(handles: Seq<u64>, labels: Seq<ExampleLabel>) -> Seq<ExampleLabel>
    decreases labels.len(),
{
    if labels.len() == 0 {
        Seq::empty()
    } else if holds(handles, labels.last().entity) {
        live_labels(handles, labels.drop_last()).push(labels.last())
    } else {
        live_labels(handles, labels.drop_last())
    }
}

/// The bodies and their handles after one request is carried out.
pub open spec fn after_request(
    bodies: Seq<RigidBody>,
    handles: Seq<u64>,
    request: Request,
) -> (Seq<RigidBody>, Seq<u64>) {
    match request {
        Request::Reset => (Seq::empty(), Seq::empty()),
        Request::Despawn(handle) => if holds(handles, handle) && bodies.len() == handles.len() {
            (bodies.remove(place_of(handles, handle)), handles.remove(place_of(handles, handle)))
        } else {
            (bodies, handles)
        },
    }
}

/// The bodies and their handles after the requests are carried out, oldest first.
pub open spec fn after_requests(
    bodies: Seq<RigidBody>,
    handles: Seq<u64>,
    requests: Seq<Request>,
) -> (Seq<RigidBody>, Seq<u64>)
    decreases requests.len(),
{
    if requests.len() == 0 {
        (bodies, handles)
    } else {
        let earlier = after_requests(bodies, handles, requests.drop_last());
        after_request(earlier.0, earlier.1, requests.last())
    }
}

/// The bodies after one contact is resolved. A contact that names a place
/// outside the list changes nothing.
pub open spec fn resolve_contact(bodies: Seq<RigidBody>, found: PairContact) -> Seq<RigidBody> {
    if found.first < found.second < bodies.len() {
        let a = bodies[found.first as int];
        let b = bodies[found.second as int];
        bodies.update(found.first as int, resolved_first(a, b, found.contact)).update(
            found.second as int,
            resolved_second(a, b, found.contact),
        )
    } else {
        bodies
    }
}

/// The bodies after the contacts are resolved one after the other, each
/// once. A contact is resolved with its normal and depth as they were
/// found, on the bodies as the contacts before it have left them.
pub open spec fn resolve_contacts(bodies: Seq<RigidBody>, found: Seq<PairContact>) -> Seq<RigidBody>
    decreases found.len(),
{
    if found.len() == 0 {
        bodies
    } else {
        resolve_contact(resolve_contacts(bodies, found.drop_last()), found.last())
    }
}

/// The body after it has been held against one plane.
#[verifier::opaque]
pub open spec fn settle_on(body: RigidBody, placed: PlacedPlane) -> RigidBody {
    match detect_plane_spec(body, placed.plane, placed.placement) {
        Some(contact) => resolved_on_plane(body, placed.plane, contact),
        None => body,
    }
}

/// The body after it has been held against each plane in turn.
pub open spec fn settled(body: RigidBody, planes: Seq<PlacedPlane>) -> RigidBody
    decreases planes.len(),
{
    if planes.len() == 0 {
        body
    } else {
        settle_on(settled(body, planes.drop_last()), planes.last())
    }
}

/// The bodies after one step: every body is advanced, then the contacts
/// between the advanced bodies are found and resolved, then every body is
/// held against the planes.
pub open spec fn stepped(
    bodies: Seq<RigidBody>,
    planes: Seq<PlacedPlane>,
    gravity: Vec3,
    damping: Fixed,
    dt: Fixed,
) -> Seq<RigidBody> {
    let moved = Seq::new(bodies.len(), |i: int| integrated(bodies[i], gravity, damping, dt));
    let parted = resolve_contacts(moved, all_contacts(moved));
    Seq::new(parted.len(), |i: int| settled(parted[i], planes))
}

/// Resolves the contacts one after the other.
pub fn resolve_all(bodies: &mut Vec<RigidBody>, found: &Vec<PairContact>)
    ensures
        final(bodies)@ == resolve_contacts(old(bodies)@, found@),
        final(bodies).len() == old(bodies).len(),
{
    let mut k: usize = 0;
    while k < found.len()
        invariant
            k <= found.len(),
            bodies.len() == old(bodies).len(),
            bodies@ == resolve_contacts(old(bodies)@, found@.take(k as int)),
        decreases found.len() - k,
    {
        proof {
            assert(found@.take(k + 1).drop_last() == found@.take(k as int));
        }
        let entry: PairContact = found[k];
        if entry.first < entry.second && entry.second < bodies.len() {
            let mut a: RigidBody = bodies[entry.first];
            let mut b: RigidBody = bodies[entry.second];
            resolve_pair(&mut a, &mut b, &entry.contact);
            bodies.set(entry.first, a);
            bodies.set(entry.second, b);
        }
        k = k + 1;
    }
    proof {
        assert(found@.take(k as int) == found@);
    }
}

/// Holds one body against one plane: if it reaches through, the contact is resolved.
pub fn settle_on_plane(body: &mut RigidBody, placed: &PlacedPlane)
    ensures
        *final(body) == settle_on(*old(body), *placed),
{
    reveal(settle_on);
    let touch: Option<PlaneContact> = detect_plane(body, &placed.plane, &placed.placement);
    match touch {
        Some(contact) => {
            resolve_plane(body, &placed.plane, &contact);
        },
        None => {},
    }
}

/// Holds one body against each plane in turn.
pub fn settle(body: &mut RigidBody, planes: &Vec<PlacedPlane>)
    ensures
        *final(body) == settled(*old(body), planes@),
{
    let mut k: usize = 0;
    while k < planes.len()
        invariant
            k <= planes.len(),
            *body == settled(*old(body), planes@.take(k as int)),
        decreases planes.len() - k,
    {
        proof {
            assert(planes@.take(k + 1).drop_last() == planes@.take(k as int));
        }
        settle_on_plane(body, &planes[k]);
        k = k + 1;
    }
    proof {
        assert(planes@.take(k as int) == planes@);
    }
}

/// Holds every body against each plane in turn.
pub fn settle_all(bodies: &mut Vec<RigidBody>, planes: &Vec<PlacedPlane>)
    ensures
        final(bodies).len() == old(bodies).len(),
        forall|i: int|
            0 <= i < old(bodies).len() ==> #[trigger] final(bodies)[i] == settled(
                old(bodies)[i],
                planes@,
            ),
{
    let n: usize = bodies.len();
    let mut i: usize = 0;
    while i < n
        invariant
            i <= n,
            bodies.len() == n,
            n == old(bodies).len(),
            forall|k: int| 0 <= k < i ==> #[trigger] bodies[k] == settled(old(bodies)[k], planes@),
            forall|k: int| i <= k < n ==> #[trigger] bodies[k] == old(bodies)[k],
        decreases n - i,
    {
        let mut body: RigidBody = bodies[i];
        settle(&mut body, planes);
        bodies.set(i, body);
        i = i + 1;
    }
}

/// Advances the bodies by one step: integration, then the contacts between
/// bodies, then the contacts with the planes.
pub fn step_bodies(
    bodies: &mut Vec<RigidBody>,
    planes: &Vec<PlacedPlane>,
    gravity: Vec3,
    damping: Fixed,
    dt: Fixed,
)
    ensures
        final(bodies)@ == stepped(old(bodies)@, planes@, gravity, damping, dt),
        final(bodies).len() == old(bodies).len(),
{
    integrate_all(bodies, gravity, damping, dt);
    let ghost moved = bodies@;
    assert(moved == Seq::new(
        old(bodies)@.len(),
        |i: int| integrated(old(bodies)@[i], gravity, damping, dt),
    ));
    let found = detect_all(bodies);
    resolve_all(bodies, &found);
    let ghost parted = bodies@;
    settle_all(bodies, planes);
    assert(bodies@ == Seq::new(parted.len(), |i: int| settled(parted[i], planes@)));
}

impl World {
    /// Every body has its handle, the handles are in rising order and below
    /// the next one to be given, and no static body has a velocity.
    pub open spec fn wf(&self) -> bool {
        &&& self.bodies.len() == self.handles.len()
        &&& handles_ordered(self.handles@, self.next_handle)
        &&& forall|i: int| 0 <= i < self.bodies.len() ==> (#[trigger] self.bodies[i]).wf()
    }

    /// A world without bodies or planes.
    pub fn new(gravity: Vec3, damping: Fixed) -> (world: World)
        ensures
            world.wf(),
            world.bodies@ == Seq::<RigidBody>::empty(),
            world.handles@ == Seq::<u64>::empty(),
            world.planes@ == Seq::<PlacedPlane>::empty(),
            world.pending@ == Seq::<Request>::empty(),
            world.next_handle == 0,
            world.gravity == gravity,
            world.damping == damping,
    {
        World {
            bodies: Vec::new(),
            handles: Vec::new(),
            next_handle: 0,
            planes: Vec::new(),
            gravity,
            damping,
            pending: Vec::new(),
        }
    }

    /// Adds a body at the end of the list and returns its handle; `None`,
    /// with the world as it was, once all handles have been given out.
    pub fn spawn(&mut self, body: RigidBody) -> (handle: Option<u64>)
        requires
            old(self).wf(),
            body.wf(),
        ensures
            final(self).wf(),
            final(self).planes == old(self).planes,
            final(self).pending == old(self).pending,
            final(self).gravity == old(self).gravity,
            final(self).damping == old(self).damping,
            handle is None <==> old(self).next_handle == u64::MAX,
            handle is None ==> final(self).bodies == old(self).bodies && final(self).handles == old(
                self,
            ).handles && final(self).next_handle == old(self).next_handle,
            handle matches Some(given) ==> {
                &&& given == old(self).next_handle
                &&& final(self).next_handle == given + 1
                &&& final(self).bodies@ == old(self).bodies@.push(body)
                &&& final(self).handles@ == old(self).handles@.push(given)
            },
    {
        if self.next_handle == u64::MAX {
            return None;
        }
        let given: u64 = self.next_handle;
        self.bodies.push(body);
        self.handles.push(given);
        self.next_handle = given + 1;
        Some(given)
    }

    /// Adds a plane.
    pub fn add_plane(&mut self, plane: PlaneCollider, placement: Transform)
        ensures
            final(self).planes@ == old(self).planes@.push(PlacedPlane { plane, placement }),
            final(self).bodies == old(self).bodies,
            final(self).handles == old(self).handles,
            final(self).next_handle == old(self).next_handle,
            final(self).pending == old(self).pending,
            final(self).gravity == old(self).gravity,
            final(self).damping == old(self).damping,
    {
        self.planes.push(PlacedPlane { plane, placement });
    }

    /// Asks for a body to be removed at the start of the next step.
    pub fn request_despawn(&mut self, handle: u64)
        ensures
            final(self).pending@ == old(self).pending@.push(Request::Despawn(handle)),
            final(self).bodies == old(self).bodies,
            final(self).handles == old(self).handles,
            final(self).next_handle == old(self).next_handle,
            final(self).planes == old(self).planes,
            final(self).gravity == old(self).gravity,
            final(self).damping == old(self).damping,
    {
        self.pending.push(Request::Despawn(handle));
    }

    /// Asks for all bodies to be removed at the start of the next step.
    pub fn request_reset(&mut self)
        ensures
            final(self).pending@ == old(self).pending@.push(Request::Reset),
            final(self).bodies == old(self).bodies,
            final(self).handles == old(self).handles,
            final(self).next_handle == old(self).next_handle,
            final(self).planes == old(self).planes,
            final(self).gravity == old(self).gravity,
            final(self).damping == old(self).damping,
    {
        self.pending.push(Request::Reset);
    }

    /// The place of the body with the handle, if it is live.
    pub fn find(&self, handle: u64) -> (place: Option<usize>)
        requires
            self.wf(),
        ensures
            place is Some <==> holds(self.handles@, handle),
            place matches Some(i) ==> i < self.handles.len() && self.handles[i as int] == handle && i
                == place_of(self.handles@, handle),
    {
        let mut i: usize = 0;
        while i < self.handles.len()
            invariant
                i <= self.handles.len(),
                self.wf(),
                forall|k: int| 0 <= k < i ==> self.handles[k] != handle,
            decreases self.handles.len() - i,
        {
            if self.handles[i] == handle {
                proof {
                    lemma_place_unique(self.handles@, self.next_handle, handle, i as int);
                }
                return Some(i);
            }
            i = i + 1;
        }
        None
    }

    /// The body with the handle, if it is live.
    pub fn body(&self, handle: u64) -> (found: Option<RigidBody>)
        requires
            self.wf(),
        ensures
            found is Some <==> holds(self.handles@, handle),
            found matches Some(body) ==> body == self.bodies[place_of(self.handles@, handle)],
    {
        match self.find(handle) {
            Some(i) => Some(self.bodies[i]),
            None => None,
        }
    }

    /// The body that a label follows, if it is still live.
    pub fn label_target(&self, label: &ExampleLabel) -> (found: Option<RigidBody>)
        requires
            self.wf(),
        ensures
            found is Some <==> holds(self.handles@, label.entity),
            found matches Some(body) ==> body == self.bodies[place_of(self.handles@, label.entity)],
    {
        self.body(label.entity)
    }

    /// Drops the labels whose bodies are gone, and keeps the others in order.
    pub fn retain_live_labels(&self, labels: &mut Vec<ExampleLabel>)
        requires
            self.wf(),
        ensures
            final(labels)@ == live_labels(self.handles@, old(labels)@),
    {
        let mut kept: Vec<ExampleLabel> = Vec::new();
        let mut i: usize = 0;
        while i < labels.len()
            invariant
                i <= labels.len(),
                self.wf(),
                *labels == *old(labels),
                kept@ == live_labels(self.handles@, labels@.take(i as int)),
            decreases labels.len() - i,
        {
            proof {
                assert(labels@.take(i + 1).drop_last() == labels@.take(i as int));
            }
            let label: ExampleLabel = labels[i];
            match self.find(label.entity) {
                Some(_) => {
                    kept.push(label);
                },
                None => {},
            }
            i = i + 1;
        }
        proof {
            assert(labels@.take(i as int) == labels@);
        }
        *labels = kept;
    }

    /// Carries out the requests that have been waiting, oldest first.
    pub fn apply_requests(&mut self)
        requires
            old(self).wf(),
        ensures
            final(self).wf(),
            (final(self).bodies@, final(self).handles@) == after_requests(
                old(self).bodies@,
                old(self).handles@,
                old(self).pending@,
            ),
            final(self).pending@ == Seq::<Request>::empty(),
            final(self).next_handle == old(self).next_handle,
            final(self).planes == old(self).planes,
            final(self).gravity == old(self).gravity,
            final(self).damping == old(self).damping,
    {
        let mut k: usize = 0;
        while k < self.pending.len()
            invariant
                k <= self.pending.len(),
                self.wf(),
                self.pending == old(self).pending,
                self.next_handle == old(self).next_handle,
                self.planes == old(self).planes,
                self.gravity == old(self).gravity,
                self.damping == old(self).damping,
                (self.bodies@, self.handles@) == after_requests(
                    old(self).bodies@,
                    old(self).handles@,
                    self.pending@.take(k as int),
                ),
            decreases self.pending.len() - k,
        {
            proof {
                assert(self.pending@.take(k + 1).drop_last() == self.pending@.take(k as int));
            }
            let request: Request = self.pending[k];
            match request {
                Request::Reset => {
                    self.bodies.clear();
                    self.handles.clear();
                },
                Request::Despawn(handle) => {
                    match self.find(handle) {
                        Some(i) => {
                            proof {
                                lemma_remove_keeps_order(self.handles@, self.next_handle, i as int);
                            }
                            self.bodies.remove(i);
                            self.handles.remove(i);
                        },
                        None => {},
                    }
                },
            }
            k = k + 1;
        }
        proof {
            assert(self.pending@.take(k as int) == self.pending@);
        }
        self.pending.clear();
    }

    /// One fixed step of length `dt`: the waiting requests are carried out,
    /// then the bodies are advanced and their contacts resolved. The step
    /// runs to its end.
    pub fn step(&mut self, dt: Fixed)
        requires
            old(self).wf(),
        ensures
            final(self).wf(),
            final(self).handles@ == after_requests(
                old(self).bodies@,
                old(self).handles@,
                old(self).pending@,
            ).1,
            final(self).bodies@ == stepped(
                after_requests(old(self).bodies@, old(self).handles@, old(self).pending@).0,
                old(self).planes@,
                old(self).gravity,
                old(self).damping,
                dt,
            ),
            final(self).pending@ == Seq::<Request>::empty(),
            final(self).next_handle == old(self).next_handle,
            final(self).planes == old(self).planes,
            final(self).gravity == old(self).gravity,
            final(self).damping == old(self).damping,
    {
        self.apply_requests();
        let ghost before = self.bodies@;
        step_bodies(&mut self.bodies, &self.planes, self.gravity, self.damping, dt);
        proof {
            lemma_step_keeps_wf(before, self.planes@, self.gravity, self.damping, dt);
        }
    }
}

/// In a rising list of handles, a handle stands at one place only.
pub proof fn lemma_place_unique(handles: Seq<u64>, next: u64, handle: u64, i: int)
    requires
        handles_ordered(handles, next),
        0 <= i < handles.len(),
        handles[i] == handle,
    ensures
        holds(handles, handle),
        place_of(handles, handle) == i,
{
    let j = place_of(handles, handle);
    assert(0 <= j < handles.len() && handles[j] == handle);
    if j < i {
        assert(handles[j] < handles[i]);
    } else if i < j {
        assert(handles[i] < handles[j]);
    }
}

/// A rising list of handles is still rising when one is taken out.
pub proof fn lemma_remove_keeps_order(handles: Seq<u64>, next: u64, i: int)
    requires
        handles_ordered(handles, next),
        0 <= i < handles.len(),
    ensures
        handles_ordered(handles.remove(i), next),
{
    let rest = handles.remove(i);
    assert forall|p: int, q: int| 0 <= p < q < rest.len() implies rest[p] < rest[q] by {
        let p0 = if p < i { p } else { p + 1 };
        let q0 = if q < i { q } else { q + 1 };
        assert(rest[p] == handles[p0]);
        assert(rest[q] == handles[q0]);
    }
    assert forall|p: int| 0 <= p < rest.len() implies rest[p] < next by {
        let p0 = if p < i { p } else { p + 1 };
        assert(rest[p] == handles[p0]);
    }
}

/// Resolving contacts leaves every body well formed, and leaves every body
/// that is not dynamic as it is.
pub proof fn lemma_resolve_contacts_keeps(bodies: Seq<RigidBody>, found: Seq<PairContact>)
    ensures
        resolve_contacts(bodies, found).len() == bodies.len(),
        forall|i: int|
            0 <= i < bodies.len() && (#[trigger] bodies[i]).wf() ==> resolve_contacts(bodies, found)[i].wf(),
        forall|i: int|
            0 <= i < bodies.len() ==> resolve_contacts(bodies, found)[i].motion == (#[trigger] bodies[i]).motion,
        forall|i: int|
            0 <= i < bodies.len() && !(#[trigger] bodies[i]).is_dynamic_spec() ==> resolve_contacts(
                bodies,
                found,
            )[i] == bodies[i],
    decreases found.len(),
{
    if found.len() > 0 {
        lemma_resolve_contacts_keeps(bodies, found.drop_last());
    }
}

/// Holding a body against planes leaves it well formed, and leaves a body
/// that is not dynamic as it is.
pub proof fn lemma_settled_keeps(body: RigidBody, planes: Seq<PlacedPlane>)
    ensures
        body.wf() ==> settled(body, planes).wf(),
        settled(body, planes).motion == body.motion,
        !body.is_dynamic_spec() ==> settled(body, planes) == body,
    decreases planes.len(),
{
    reveal(settle_on);
    if planes.len() > 0 {
        lemma_settled_keeps(body, planes.drop_last());
    }
}

/// A step leaves every body well formed.
pub proof fn lemma_step_keeps_wf(
    bodies: Seq<RigidBody>,
    planes: Seq<PlacedPlane>,
    gravity: Vec3,
    damping: Fixed,
    dt: Fixed,
)
    requires
        forall|i: int| 0 <= i < bodies.len() ==> (#[trigger] bodies[i]).wf(),
    ensures
        stepped(bodies, planes, gravity, damping, dt).len() == bodies.len(),
        forall|i: int|
            0 <= i < bodies.len() ==> (#[trigger] stepped(bodies, planes, gravity, damping, dt)[i]).wf(),
{
    let moved = Seq::new(bodies.len(), |i: int| integrated(bodies[i], gravity, damping, dt));
    let parted = resolve_contacts(moved, all_contacts(moved));
    lemma_resolve_contacts_keeps(moved, all_contacts(moved));
    assert forall|i: int| 0 <= i < bodies.len() implies (#[trigger] stepped(
        bodies,
        planes,
        gravity,
        damping,
        dt,
    )[i]).wf() by {
        assert(bodies[i].wf());
        assert(moved[i].wf());
        assert(parted[i].wf());
        lemma_settled_keeps(parted[i], planes);
    }
}

/// A step never moves a static body nor gives it a velocity, and never
/// changes the velocity of a kinematic body, which only moves along with
/// the velocity it was given: gravity, damping, contacts and planes act on
/// dynamic bodies alone. No body changes its motion class, size or restitution.
pub proof fn lemma_step_spares_static_and_kinematic(
    bodies: Seq<RigidBody>,
    planes: Seq<PlacedPlane>,
    gravity: Vec3,
    damping: Fixed,
    dt: Fixed,
    i: int,
)
    requires
        0 <= i < bodies.len(),
    ensures
        stepped(bodies, planes, gravity, damping, dt).len() == bodies.len(),
        stepped(bodies, planes, gravity, damping, dt)[i].motion == bodies[i].motion,
        bodies[i].motion == MotionClass::Static ==> stepped(
            bodies,
            planes,
            gravity,
            damping,
            dt,
        )[i] == bodies[i],
        bodies[i].motion == MotionClass::Kinematic ==> stepped(
            bodies,
            planes,
            gravity,
            damping,
            dt,
        )[i] == (RigidBody {
            position: bodies[i].position.add_spec(bodies[i].velocity.scale_spec(dt)),
            ..bodies[i]
        }),
{
    let moved = Seq::new(bodies.len(), |k: int| integrated(bodies[k], gravity, damping, dt));
    let parted = resolve_contacts(moved, all_contacts(moved));
    lemma_resolve_contacts_keeps(moved, all_contacts(moved));
    assert(moved[i] == integrated(bodies[i], gravity, damping, dt));
    assert(parted[i].motion == moved[i].motion);
    lemma_settled_keeps(parted[i], planes);
}

} // verus!
