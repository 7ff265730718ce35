//! The interactive forces: a blast at the cursor that throws dynamic bodies
//! outward, and a kinematic body that follows the cursor.

use vstd::prelude::*;
use crate::body::{MotionClass, RigidBody};
use crate::fixed::{Fixed, SCALE};
use crate::game::CursorDistance;
use crate::vector::{Vec2, Vec3};

verus! {

/// What the pointer does.
#[derive(Clone, Copy, Debug, PartialEq, Eq, Structural)]
pub enum InteractionModeType {
    /// The pointer only looks around; the wheel moves the camera.
    Click,
    /// A click sets off a blast at the cursor.
    Impulse,
    /// The wrecking body follows the cursor.
    Wrecker,
}

/// The mode that is in force.
#[derive(Clone, Copy, Debug, PartialEq, Eq, Structural)]
pub struct InteractionMode(pub InteractionModeType);

/// The blast: how far it reaches and how hard it pushes at its centre.
#[derive(Clone, Copy, Debug, PartialEq, Eq, Structural)]
pub struct ImpulseSettings {
    pub blast_radius: Fixed,
    pub max_force: Fixed,
}

/// A label on the screen that follows a body. It refers to the body by its
/// handle and owns nothing of it.
#[derive(Clone, Copy, Debug, PartialEq, Eq, Structural)]
pub struct ExampleLabel {
    pub entity: u64,
}

/// The ray from the camera through the pointer, for one frame.
#[derive(Clone, Copy, Debug, PartialEq, Eq, Structural)]
pub struct CursorRay {
    pub origin: Vec3,
    pub direction: Vec3,
}

/// Whether something is drawn.
#[derive(Clone, Copy, Debug, PartialEq, Eq, Structural)]
pub enum Visibility {
    Visible,
    Hidden,
}

/// What runs each frame in a mode.
#[derive(Clone, Copy, Debug, PartialEq, Eq, Structural)]
pub struct ModeSystems {
    /// The wheel moves the camera.
    pub camera_zoom: bool,
    /// The wheel moves the cursor along the ray.
    pub cursor_scroll: bool,
    /// A click sets off a blast.
    pub blast: bool,
    /// The wrecking body follows the cursor.
    pub tracking: bool,
    pub impulse_cursor: Visibility,
    pub wrecker_cursor: Visibility,
}

/// Where a label is put when the point it follows is not on the screen.
pub const LABEL_PARKED: i64 = -100_000_000;

/// How far above the body it follows a label is anchored: 0.5.
pub const LABEL_LIFT: i64 = 500_000;

impl Default for ImpulseSettings {
    /// A blast that reaches 50 and pushes with 100 at its centre.
    fn default() -> (r: ImpulseSettings)
        ensures
            r.blast_radius@ == 50 * SCALE,
            r.max_force@ == 100 * SCALE,
    {
        ImpulseSettings { blast_radius: Fixed { raw: 50_000_000 }, max_force: Fixed { raw: 100_000_000 } }
    }
}

impl InteractionModeType {
    /// The two cursors are never shown together, and of the blast and the
    /// tracking at most one runs.
    pub open spec fn systems_spec(self) -> ModeSystems {
        match self {
            InteractionModeType::Click => ModeSystems {
                camera_zoom: true,
                cursor_scroll: false,
                blast: false,
                tracking: false,
                impulse_cursor: Visibility::Hidden,
                wrecker_cursor: Visibility::Hidden,
            },
            InteractionModeType::Impulse => ModeSystems {
                camera_zoom: false,
                cursor_scroll: true,
                blast: true,
                tracking: false,
                impulse_cursor: Visibility::Visible,
                wrecker_cursor: Visibility::Hidden,
            },
            InteractionModeType::Wrecker => ModeSystems {
                camera_zoom: false,
                cursor_scroll: true,
                blast: false,
                tracking: true,
                impulse_cursor: Visibility::Hidden,
                wrecker_cursor: Visibility::Visible,
            },
        }
    }

    /// What runs each frame while the mode is in force.
    #[verifier::when_used_as_spec(systems_spec)]
    pub fn systems(self) -> (r: ModeSystems)
        ensures
            r == self.systems_spec(),
            !(r.blast && r.tracking),
            r.blast <==> r.impulse_cursor == Visibility::Visible,
            r.tracking <==> r.wrecker_cursor == Visibility::Visible,
            r.camera_zoom != r.cursor_scroll,
    {
        match self {
            InteractionModeType::Click => ModeSystems {
                camera_zoom: true,
                cursor_scroll: false,
                blast: false,
                tracking: false,
                impulse_cursor: Visibility::Hidden,
                wrecker_cursor: Visibility::Hidden,
            },
            InteractionModeType::Impulse => ModeSystems {
                camera_zoom: false,
                cursor_scroll: true,
                blast: true,
                tracking: false,
                impulse_cursor: Visibility::Visible,
                wrecker_cursor: Visibility::Hidden,
            },
            InteractionModeType::Wrecker => ModeSystems {
                camera_zoom: false,
                cursor_scroll: true,
                blast: false,
                tracking: true,
                impulse_cursor: Visibility::Hidden,
                wrecker_cursor: Visibility::Visible,
            },
        }
    }
}

impl CursorRay {
    /// The point at `distance` along the ray.
    pub open spec fn point_at(self, distance: Fixed) -> Vec3 {
        self.origin.add_spec(self.direction.scale_spec(distance))
    }

    /// The point at `distance` along the ray.
    #[verifier::when_used_as_spec(point_at)]
    pub fn get_point(self, distance: Fixed) -> (r: Vec3)
        ensures
            r == self.point_at(distance),
    {
        self.origin.add(self.direction.scale(distance))
    }
}

/// The share of the full force that reaches a body at `distance` from the
/// centre of a blast of the given radius: one at the centre, falling
/// linearly to zero at the radius.
pub open spec fn falloff(distance: Fixed, radius: Fixed) -> Fixed
    recommends
        radius@ != 0,
{
    Fixed::one_spec().sub_spec(distance.div_spec(radius))
}

/// The impulse that a blast at `point` gives to a body at `body_position`:
/// along the line from the point to the body, with the full force scaled by
/// the falloff. A body at the very point, or at the radius or beyond it,
/// gets none.
pub open spec fn blast_impulse_spec(point: Vec3, body_position: Vec3, settings: ImpulseSettings) -> Option<
    Vec3,
> {
    let offset = body_position.sub_spec(point);
    let distance = offset.length_spec();
    if distance@ > 0 && distance@ < settings.blast_radius@ {
        match offset.normalize_spec() {
            Some(direction) => Some(
                direction.scale_spec(settings.max_force).scale_spec(
                    falloff(distance, settings.blast_radius),
                ),
            ),
            None => None,
        }
    } else {
        None
    }
}

/// The impulse that a blast at `point` gives to a body at `body_position`, if it reaches it.
#[verifier::when_used_as_spec(blast_impulse_spec)]
pub fn blast_impulse(point: Vec3, body_position: Vec3, settings: ImpulseSettings) -> (r: Option<Vec3>)
    ensures
        r == blast_impulse_spec(point, body_position, settings),
        r is Some <==> 0 < body_position.sub_spec(point).length_spec()@ < settings.blast_radius@,
{
    let offset = body_position.sub(point);
    let distance = offset.length();
    if distance.raw > 0 && distance.raw < settings.blast_radius.raw {
        match offset.normalize() {
            Some(direction) => {
                let share = Fixed::one().sub(distance.div(settings.blast_radius));
                Some(direction.scale(settings.max_force).scale(share))
            },
            None => None,
        }
    } else {
        None
    }
}

/// The body after a blast at `point`: a dynamic body in reach takes the
/// impulse into its velocity; every other body stays as it is.
pub open spec fn blasted(body: RigidBody, point: Vec3, settings: ImpulseSettings) -> RigidBody {
    if body.is_dynamic_spec() {
        match blast_impulse_spec(point, body.position, settings) {
            Some(impulse) => RigidBody { velocity: body.velocity.add_spec(impulse), ..body },
            None => body,
        }
    } else {
        body
    }
}

/// Whether a blast goes off this frame, and where: the button was pressed
/// in this frame, the pointer is not over the menu, and there is a cursor ray.
pub open spec fn blast_point(
    distance: CursorDistance,
    ray: Option<CursorRay>,
    clicked: bool,
    pointer_over_menu: bool,
) -> Option<Vec3> {
    match ray {
        Some(ray) => if clicked && !pointer_over_menu {
            Some(ray.point_at(distance.0))
        } else {
            None
        },
        None => None,
    }
}

/// Sets off a blast at the cursor if the button was pressed in this frame:
/// once per click, not for as long as the button is held.
pub fn apply_force(
    distance: &CursorDistance,
    forces: &mut Vec<RigidBody>,
    impulse_settings: &ImpulseSettings,
    ray: Option<CursorRay>,
    clicked: bool,
    pointer_over_menu: bool,
)
    ensures
        final(forces).len() == old(forces).len(),
        blast_point(*distance, ray, clicked, pointer_over_menu) is None ==> final(forces)@ == old(
            forces,
        )@,
        blast_point(*distance, ray, clicked, pointer_over_menu) matches Some(point) ==> forall|i: int|
            0 <= i < old(forces).len() ==> #[trigger] final(forces)[i] == blasted(
                old(forces)[i],
                point,
                *impulse_settings,
            ),
        forall|i: int|
            0 <= i < old(forces).len() && old(forces)[i].wf() ==> (#[trigger] final(forces)[i]).wf(),
        forall|i: int|
            0 <= i < old(forces).len() && !old(forces)[i].is_dynamic_spec()
                ==> #[trigger] final(forces)[i] == old(forces)[i],
{
    if pointer_over_menu || !clicked {
        return ;
    }
    let ray = match ray {
        Some(ray) => ray,
        None => {
            return ;
        },
    };
    let point = ray.get_point(distance.0);
    let n: usize = forces.len();
    let mut i: usize = 0;
    while i < n
        invariant
            i <= n,
            forces.len() == n,
            n == old(forces).len(),
            forall|k: int|
                0 <= k < i ==> #[trigger] forces[k] == blasted(old(forces)[k], point, *impulse_settings),
            forall|k: int| i <= k < n ==> #[trigger] forces[k] == old(forces)[k],
        decreases n - i,
    {
        let mut body: RigidBody = forces[i];
        if body.is_dynamic() {
            match blast_impulse(point, body.position, *impulse_settings) {
                Some(impulse) => {
                    body.velocity = body.velocity.add(impulse);
                    forces.set(i, body);
                },
                None => {},
            }
        }
        i = i + 1;
    }
}

/// The wrecking body as the game screen sets it up: a kinematic ball of
/// radius 0.5, at rest at (0, 10, 0).
pub fn wrecker_ball() -> (r: RigidBody)
    ensures
        r.motion == MotionClass::Kinematic,
        r.position == (Vec3 { x: Fixed { raw: 0 }, y: Fixed { raw: 10_000_000 }, z: Fixed { raw: 0 } }),
        r.half_extents == (Vec3 {
            x: Fixed { raw: 500_000 },
            y: Fixed { raw: 500_000 },
            z: Fixed { raw: 500_000 },
        }),
        r.velocity == Vec3::zero_spec(),
        r.restitution@ == 0,
        r.wf(),
{
    let half = Fixed { raw: SCALE / 2 };
    RigidBody::new(
        Vec3 { x: Fixed::zero(), y: Fixed::from_int(10), z: Fixed::zero() },
        Vec3 { x: half, y: half, z: half },
        MotionClass::Kinematic,
        Fixed::zero(),
    )
}

/// The velocity that carries a body from `current` to `target` in one step
/// of length `dt`; zero when there is no target.
pub open spec fn tracking_velocity(target: Option<Vec3>, current: Vec3, dt: Fixed) -> Vec3
    recommends
        dt@ != 0,
{
    match target {
        Some(target) => target.sub_spec(current).shrink_spec(dt),
        None => Vec3::zero_spec(),
    }
}

/// The cursor point of this frame, if the pointer is in the window.
pub open spec fn cursor_point(distance: CursorDistance, ray: Option<CursorRay>) -> Option<Vec3> {
    match ray {
        Some(ray) => Some(ray.point_at(distance.0)),
        None => None,
    }
}

/// Sets the velocity of the wrecking body, which is kinematic, so that the
/// next step of length `dt` carries it to the cursor point. Without a cursor
/// ray the body is stopped. Returns the place of the body, which its label
/// shows, if there is a cursor ray.
pub fn draw_wrecker_cursor(
    distance: &CursorDistance,
    wrecker: &mut RigidBody,
    ray: Option<CursorRay>,
    dt: Fixed,
) -> (shown: Option<Vec3>)
    requires
        old(wrecker).motion == MotionClass::Kinematic,
        dt@ != 0,
    ensures
        final(wrecker).wf(),
        final(wrecker).velocity == tracking_velocity(
            cursor_point(*distance, ray),
            old(wrecker).position,
            dt,
        ),
        *final(wrecker) == (RigidBody { velocity: final(wrecker).velocity, ..*old(wrecker) }),
        ray is None ==> final(wrecker).velocity == Vec3::zero_spec(),
        shown == (if ray is Some { Some(old(wrecker).position) } else { None }),
{
    match ray {
        Some(ray) => {
            let target = ray.get_point(distance.0);
            wrecker.velocity = target.sub(wrecker.position).shrink(dt);
            Some(wrecker.position)
        },
        None => {
            wrecker.velocity = Vec3::zero();
            None
        },
    }
}

/// Puts the blast cursor at the cursor point. Without a cursor ray it stays
/// where it is. Returns the point, which the cursor's label shows.
pub fn draw_impulse_cursor(distance: &CursorDistance, cursor: &mut Vec3, ray: Option<CursorRay>) -> (shown:
    Option<Vec3>)
    ensures
        shown == cursor_point(*distance, ray),
        *final(cursor) == (match shown {
            Some(point) => point,
            None => *old(cursor),
        }),
{
    match ray {
        Some(ray) => {
            let point = ray.get_point(distance.0);
            *cursor = point;
            Some(point)
        },
        None => None,
    }
}

/// The point in the world at which the label of a body is anchored: half a
/// unit above the body.
pub fn label_anchor(translation: Vec3) -> (r: Vec3)
    ensures
        r == translation.add_spec(Vec3::axis_unit_spec(1, true).scale_spec(Fixed { raw: LABEL_LIFT })),
{
    translation.add(Vec3::axis_unit(1, true).scale(Fixed { raw: LABEL_LIFT }))
}

/// Where on the screen a label goes: at the place to which the camera
/// projects its anchor, or off the screen at (-100, -100) if the camera
/// cannot project it.
pub fn label_position(projected: Option<Vec2>) -> (r: Vec2)
    ensures
        r == (match projected {
            Some(at) => at,
            None => Vec2 { x: Fixed { raw: LABEL_PARKED }, y: Fixed { raw: LABEL_PARKED } },
        }),
{
    match projected {
        Some(at) => at,
        None => Vec2 { x: Fixed { raw: LABEL_PARKED }, y: Fixed { raw: LABEL_PARKED } },
    }
}

/// Shows or hides everything that belongs to the blast cursor.
pub fn set_impulse_cursor_visibility<const VISIBLE: bool>(query: &mut Vec<Visibility>)
    ensures
        final(query).len() == old(query).len(),
        forall|i: int|
            0 <= i < final(query).len() ==> #[trigger] final(query)[i] == (if VISIBLE {
                Visibility::Visible
            } else {
                Visibility::Hidden
            }),
{
    set_all_visibility(query, VISIBLE);
}

/// Shows or hides everything that belongs to the wrecking body.
pub fn set_wrecker_cursor_visibility<const VISIBLE: bool>(query: &mut Vec<Visibility>)
    ensures
        final(query).len() == old(query).len(),
        forall|i: int|
            0 <= i < final(query).len() ==> #[trigger] final(query)[i] == (if VISIBLE {
                Visibility::Visible
            } else {
                Visibility::Hidden
            }),
{
    set_all_visibility(query, VISIBLE);
}

fn set_all_visibility(query: &mut Vec<Visibility>, visible: bool)
    ensures
        final(query).len() == old(query).len(),
        forall|i: int|
            0 <= i < final(query).len() ==> #[trigger] final(query)[i] == (if visible {
                Visibility::Visible
            } else {
                Visibility::Hidden
            }),
{
    let value = if visible {
        Visibility::Visible
    } else {
        Visibility::Hidden
    };
    let n: usize = query.len();
    let mut i: usize = 0;
    while i < n
        invariant
            i <= n,
            query.len() == n,
            n == old(query).len(),
            value == (if visible {
                Visibility::Visible
            } else {
                Visibility::Hidden
            }),
            forall|k: int| 0 <= k < i ==> #[trigger] query[k] == value,
        decreases n - i,
    {
        query.set(i, value);
        i = i + 1;
    }
}

} // verus!
