//! The game screen: its states, the frame rate, the fly camera and the
//! distance of the cursor along its ray.

use vstd::prelude::*;
use crate::fixed::{Fixed, SCALE};
use crate::interactions::{ImpulseSettings, InteractionMode, InteractionModeType};
use crate::menus::pause_menu::{InGameMenuState, PauseFromState};
use crate::text::{format_two_places, two_places};
use crate::transform::{Quat, Transform};
use crate::vector::{Vec2, Vec3};

verus! {

/// The screen that the program shows.
#[derive(Clone, Copy, Debug, PartialEq, Eq, Structural)]
pub enum GameState {
    Menu,
    Game,
    Levels,
    Paused,
}

/// Whether a level is running.
#[derive(Clone, Copy, Debug, PartialEq, Eq, Structural)]
pub enum SimulationState {
    Running,
    Paused,
}

/// The frame rate that the player has chosen.
#[derive(Clone, Copy, Debug, PartialEq, Eq, Structural)]
pub enum SetFps {
    Low,
    Medium,
    High,
    Uncapped,
}

/// How the frame rate is held.
#[derive(Clone, Copy, Debug, PartialEq, Eq, Structural)]
pub enum Limiter {
    /// Frames come as fast as they can.
    Off,
    /// Frames come at this rate, in frames per second.
    Manual(u32),
}

/// What a choice of frame rate sets.
#[derive(Clone, Copy, Debug, PartialEq, Eq, Structural)]
pub struct FrameLimit {
    pub limiter: Limiter,
    /// The rate of the fixed step, in steps per second; `None` leaves it as it is.
    pub fixed_hz: Option<u32>,
}

/// The states that change when the pause key is pressed; `None` leaves a state as it is.
#[derive(Clone, Copy, Debug, PartialEq, Eq, Structural)]
pub struct GameTransition {
    pub game_state: Option<GameState>,
    pub menu_state: Option<InGameMenuState>,
    pub pause_from_state: Option<PauseFromState>,
}

/// How fast the camera answers to keys, pointer and wheel.
#[derive(Clone, Copy, Debug, PartialEq, Eq, Structural)]
pub struct CameraSettings {
    pub speed: Fixed,
    pub sensitivity: Fixed,
    pub zoom_speed: Fixed,
}

/// Where the camera looks, as two angles in radians.
#[derive(Clone, Copy, Debug, PartialEq, Eq, Structural)]
pub struct CameraOrientation {
    pub yaw: Fixed,
    pub pitch: Fixed,
}

/// What the game screen starts with.
#[derive(Clone, Copy, Debug, PartialEq, Eq, Structural)]
pub struct GameResources {
    pub camera_settings: CameraSettings,
    pub camera_orientation: CameraOrientation,
    pub cursor_distance: CursorDistance,
    pub impulse_settings: ImpulseSettings,
    pub interaction_mode: InteractionMode,
}

/// The keys that move the camera, each down or up.
#[derive(Clone, Copy, Debug, PartialEq, Eq, Structural)]
pub struct MovementKeys {
    pub forward: bool,
    pub back: bool,
    pub left: bool,
    pub right: bool,
    pub up: bool,
    pub down: bool,
}

/// How far along the cursor ray the cursor point lies.
#[derive(Clone, Copy, Debug, PartialEq, Eq, Structural)]
pub struct CursorDistance(pub Fixed);

/// The nearest the cursor point comes to the camera: 1.
pub const MIN_CURSOR_DISTANCE: i64 = 1_000_000;

/// The farthest the cursor point goes from the camera: 50.
pub const MAX_CURSOR_DISTANCE: i64 = 50_000_000;

/// The steepest the camera looks up, in radians: 1.54.
pub const MAX_PITCH: i64 = 1_540_000;

/// The steepest the camera looks down, in radians: -1.54.
pub const MIN_PITCH: i64 = -1_540_000;

impl Default for GameState {
    fn default() -> (r: GameState)
        ensures
            r == GameState::Menu,
    {
        GameState::Menu
    }
}

impl Default for CameraOrientation {
    fn default() -> (r: CameraOrientation)
        ensures
            r.yaw@ == 0,
            r.pitch@ == 0,
    {
        CameraOrientation { yaw: Fixed { raw: 0 }, pitch: Fixed { raw: 0 } }
    }
}

impl GameResources {
    /// The settings with which the game screen is entered: a camera that
    /// moves at 8 per second, turns by 0.002 per pixel and zooms at 30 per
    /// wheel step and second; the cursor 10 away; the default blast; and
    /// the click mode.
    pub fn initial() -> (r: GameResources)
        ensures
            r.camera_settings == (CameraSettings {
                speed: Fixed { raw: 8_000_000 },
                sensitivity: Fixed { raw: 2_000 },
                zoom_speed: Fixed { raw: 30_000_000 },
            }),
            r.camera_orientation == (CameraOrientation {
                yaw: Fixed { raw: 0 },
                pitch: Fixed { raw: 0 },
            }),
            r.cursor_distance == CursorDistance(Fixed { raw: 10_000_000 }),
            r.impulse_settings == (ImpulseSettings {
                blast_radius: Fixed { raw: 50_000_000 },
                max_force: Fixed { raw: 100_000_000 },
            }),
            r.interaction_mode == InteractionMode(InteractionModeType::Click),
    {
        GameResources {
            camera_settings: CameraSettings {
                speed: Fixed { raw: 8_000_000 },
                sensitivity: Fixed { raw: 2_000 },
                zoom_speed: Fixed { raw: 30_000_000 },
            },
            camera_orientation: CameraOrientation { yaw: Fixed { raw: 0 }, pitch: Fixed { raw: 0 } },
            cursor_distance: CursorDistance(Fixed { raw: 10_000_000 }),
            impulse_settings: ImpulseSettings {
                blast_radius: Fixed { raw: 50_000_000 },
                max_force: Fixed { raw: 100_000_000 },
            },
            interaction_mode: InteractionMode(InteractionModeType::Click),
        }
    }
}

impl SetFps {
    /// Frames per second: 30, 60 or 120, and 0 for no limit.
    pub open spec fn rate_spec(self) -> u32 {
        match self {
            SetFps::Low => 30,
            SetFps::Medium => 60,
            SetFps::High => 120,
            SetFps::Uncapped => 0,
        }
    }

    /// Frames per second; 0 stands for no limit.
    #[verifier::when_used_as_spec(rate_spec)]
    pub fn rate(self) -> (r: u32)
        ensures
            r == self.rate_spec(),
    {
        match self {
            SetFps::Low => 30,
            SetFps::Medium => 60,
            SetFps::High => 120,
            SetFps::Uncapped => 0,
        }
    }
}

/// What the chosen frame rate sets: without a limit the limiter is off
/// and the fixed step keeps its rate; with a limit the frames and the fixed
/// step both run at it.
pub fn set_max_fps(fps_limit: SetFps) -> (r: FrameLimit)
    ensures
        fps_limit == SetFps::Uncapped ==> r == (FrameLimit { limiter: Limiter::Off, fixed_hz: None }),
        fps_limit != SetFps::Uncapped ==> r == (FrameLimit {
            limiter: Limiter::Manual(fps_limit.rate_spec()),
            fixed_hz: Some(fps_limit.rate_spec()),
        }),
{
    match fps_limit {
        SetFps::Uncapped => FrameLimit { limiter: Limiter::Off, fixed_hz: None },
        _ => FrameLimit { limiter: Limiter::Manual(fps_limit.rate()), fixed_hz: Some(fps_limit.rate()) },
    }
}

/// The length of one fixed step at `hz` steps per second, rounded down.
pub fn fixed_timestep(hz: u32) -> (dt: Fixed)
    requires
        hz > 0,
    ensures
        dt@ == (SCALE as int) / (hz as int),
        0 <= dt@ <= SCALE,
{
    Fixed { raw: SCALE / (hz as i64) }
}

/// Shows the smoothed frame rate, with two decimal places, in every text
/// that is there for it. While there is no measurement the texts stay.
pub fn fps_counter(smoothed: Option<Fixed>, spans: &mut Vec<String>)
    ensures
        final(spans).len() == old(spans).len(),
        smoothed is None ==> *final(spans) == *old(spans),
        smoothed matches Some(value) ==> forall|i: int|
            0 <= i < final(spans).len() ==> (#[trigger] final(spans)[i])@ == two_places(value),
{
    match smoothed {
        None => {},
        Some(value) => {
            let n: usize = spans.len();
            let mut i: usize = 0;
            while i < n
                invariant
                    i <= n,
                    spans.len() == n,
                    n == old(spans).len(),
                    forall|k: int| 0 <= k < i ==> (#[trigger] spans[k])@ == two_places(value),
                decreases n - i,
            {
                spans.set(i, format_two_places(value));
                i = i + 1;
            }
        },
    }
}

/// What the pause key does: it pauses a running game, and it resumes a game
/// that was paused from the game screen. Anywhere else, and without the
/// key, nothing changes.
pub open spec fn game_action_spec(
    escape_pressed: bool,
    state: GameState,
    pause_state: PauseFromState,
) -> GameTransition {
    if escape_pressed && state == GameState::Game {
        GameTransition {
            game_state: Some(GameState::Paused),
            menu_state: None,
            pause_from_state: Some(PauseFromState::Game),
        }
    } else if escape_pressed && state == GameState::Paused && pause_state == PauseFromState::Game {
        GameTransition {
            game_state: Some(GameState::Game),
            menu_state: Some(InGameMenuState::Disabled),
            pause_from_state: Some(PauseFromState::Disabled),
        }
    } else {
        GameTransition { game_state: None, menu_state: None, pause_from_state: None }
    }
}

/// What the pause key does on the game screen and on the pause screen.
#[verifier::when_used_as_spec(game_action_spec)]
pub fn game_action(escape_pressed: bool, state: GameState, pause_state: PauseFromState) -> (r:
    GameTransition)
    ensures
        r == game_action_spec(escape_pressed, state, pause_state),
{
    let unchanged = GameTransition { game_state: None, menu_state: None, pause_from_state: None };
    if !escape_pressed {
        return unchanged;
    }
    match state {
        GameState::Game => GameTransition {
            game_state: Some(GameState::Paused),
            menu_state: None,
            pause_from_state: Some(PauseFromState::Game),
        },
        GameState::Paused => match pause_state {
            PauseFromState::Game => GameTransition {
                game_state: Some(GameState::Game),
                menu_state: Some(InGameMenuState::Disabled),
                pause_from_state: Some(PauseFromState::Disabled),
            },
            _ => unchanged,
        },
        _ => unchanged,
    }
}

/// Whether the debug outlines are drawn after the toggle key was or was not pressed.
pub fn toggle_debug_render_state(enabled: bool, key_pressed: bool) -> (r: bool)
    ensures
        r == (enabled != key_pressed),
{
    if key_pressed {
        !enabled
    } else {
        enabled
    }
}

/// Where the camera starts: at (0, 10, 20), looking straight ahead.
pub fn setup_camera(orientation: &mut CameraOrientation) -> (r: Transform)
    ensures
        final(orientation).yaw@ == 0,
        final(orientation).pitch@ == 0,
        r.translation == (Vec3 {
            x: Fixed { raw: 0 },
            y: Fixed { raw: 10_000_000 },
            z: Fixed { raw: 20_000_000 },
        }),
        r.rotation == Quat::identity_spec(),
        r.scale == Transform::identity_spec().scale,
{
    orientation.yaw = Fixed::zero();
    orientation.pitch = Fixed::zero();
    Transform::from_translation(
        Vec3 { x: Fixed::zero(), y: Fixed::from_int(10), z: Fixed::from_int(20) },
    )
}

/// `sum` moved by `step` if the key is down: forward if `along`, back if not.
pub open spec fn nudged(sum: Vec3, step: Vec3, key_down: bool, along: bool) -> Vec3 {
    if !key_down {
        sum
    } else if along {
        sum.add_spec(step)
    } else {
        sum.sub_spec(step)
    }
}

/// The direction in which the keys push the camera, not yet of unit
/// length: along the camera's own forward and right and the world's up.
/// The keys are taken in the order forward, back, left, right, up, down.
pub open spec fn key_direction(keys: MovementKeys, rotation: Quat) -> Vec3 {
    let forward = rotation.rotate_spec(Vec3::axis_unit_spec(2, true)).neg_spec();
    let right = rotation.rotate_spec(Vec3::axis_unit_spec(0, true));
    let up = Vec3::axis_unit_spec(1, true);
    let along = nudged(nudged(Vec3::zero_spec(), forward, keys.forward, true), forward, keys.back, false);
    let across = nudged(nudged(along, right, keys.left, false), right, keys.right, true);
    nudged(nudged(across, up, keys.up, true), up, keys.down, false)
}

/// The camera after the keys have pushed it for one frame of length `dt`:
/// moved by `speed * dt` in the direction of the keys. Keys that cancel
/// each other do not move it.
pub open spec fn keyboard_moved(
    keys: MovementKeys,
    dt: Fixed,
    settings: CameraSettings,
    camera: Transform,
) -> Transform {
    match key_direction(keys, camera.rotation).normalize_spec() {
        Some(direction) => Transform {
            translation: camera.translation.add_spec(
                direction.scale_spec(settings.speed).scale_spec(dt),
            ),
            ..camera
        },
        None => camera,
    }
}

fn nudge(sum: Vec3, step: Vec3, key_down: bool, along: bool) -> (r: Vec3)
    ensures
        r == nudged(sum, step, key_down, along),
{
    if !key_down {
        sum
    } else if along {
        sum.add(step)
    } else {
        sum.sub(step)
    }
}

/// Moves the camera by the keys that are down.
pub fn keyboard_movement(
    keys: MovementKeys,
    dt: Fixed,
    settings: &CameraSettings,
    camera: &mut Transform,
)
    ensures
        *final(camera) == keyboard_moved(keys, dt, *settings, *old(camera)),
        final(camera).rotation == old(camera).rotation,
        final(camera).scale == old(camera).scale,
{
    let forward = camera.rotation.rotate(Vec3::axis_unit(2, true)).neg();
    let right = camera.rotation.rotate(Vec3::axis_unit(0, true));
    let up = Vec3::axis_unit(1, true);
    let along = nudge(nudge(Vec3::zero(), forward, keys.forward, true), forward, keys.back, false);
    let across = nudge(nudge(along, right, keys.left, false), right, keys.right, true);
    let direction = nudge(nudge(across, up, keys.up, true), up, keys.down, false);
    match direction.normalize() {
        Some(unit) => {
            camera.translation = camera.translation.add(unit.scale(settings.speed).scale(dt));
        },
        None => {},
    }
}

/// The sum of the pointer movements of one frame.
pub open spec fn motion_total(events: Seq<Vec2>) -> Vec2
    decreases events.len(),
{
    if events.len() == 0 {
        Vec2 { x: Fixed { raw: 0 }, y: Fixed { raw: 0 } }
    } else {
        let earlier = motion_total(events.drop_last());
        Vec2 { x: earlier.x.add_spec(events.last().x), y: earlier.y.add_spec(events.last().y) }
    }
}

/// The angles of the camera after the pointer has moved by `moved` with
/// the look button down: each angle falls by the movement times the
/// sensitivity, and the pitch is kept between -1.54 and 1.54. Without
/// movement, or with the button up, the angles stay.
pub open spec fn looked(
    moved: Vec2,
    button_down: bool,
    settings: CameraSettings,
    orientation: CameraOrientation,
) -> CameraOrientation {
    if button_down && (moved.x@ != 0 || moved.y@ != 0) {
        CameraOrientation {
            yaw: orientation.yaw.sub_spec(moved.x.mul_spec(settings.sensitivity)),
            pitch: orientation.pitch.sub_spec(moved.y.mul_spec(settings.sensitivity)).clamp_spec(
                Fixed { raw: MIN_PITCH },
                Fixed { raw: MAX_PITCH },
            ),
        }
    } else {
        orientation
    }
}

/// Turns the camera by the pointer movements of one frame. Returns whether
/// the angles were set anew, so that the camera's rotation is to be built
/// from them: first the pitch about the x axis, then the yaw about the y axis.
pub fn mouse_look(
    mouse_events: &Vec<Vec2>,
    button_down: bool,
    settings: &CameraSettings,
    orientation: &mut CameraOrientation,
) -> (turned: bool)
    ensures
        *final(orientation) == looked(
            motion_total(mouse_events@),
            button_down,
            *settings,
            *old(orientation),
        ),
        turned == (button_down && (motion_total(mouse_events@).x@ != 0 || motion_total(
            mouse_events@,
        ).y@ != 0)),
        turned ==> MIN_PITCH <= final(orientation).pitch@ <= MAX_PITCH,
{
    if !button_down {
        return false;
    }
    let mut total = Vec2 { x: Fixed::zero(), y: Fixed::zero() };
    let mut i: usize = 0;
    while i < mouse_events.len()
        invariant
            i <= mouse_events.len(),
            total == motion_total(mouse_events@.take(i as int)),
        decreases mouse_events.len() - i,
    {
        proof {
            assert(mouse_events@.take(i + 1).drop_last() == mouse_events@.take(i as int));
        }
        let event: Vec2 = mouse_events[i];
        total = Vec2 { x: total.x.add(event.x), y: total.y.add(event.y) };
        i = i + 1;
    }
    proof {
        assert(mouse_events@.take(i as int) == mouse_events@);
    }
    if total.x.raw == 0 && total.y.raw == 0 {
        return false;
    }
    orientation.yaw = orientation.yaw.sub(total.x.mul(settings.sensitivity));
    orientation.pitch = orientation.pitch.sub(total.y.mul(settings.sensitivity)).clamp(
        Fixed { raw: MIN_PITCH },
        Fixed { raw: MAX_PITCH },
    );
    true
}

/// The sum of the wheel movements of one frame.
pub open spec fn scroll_total(events: Seq<Fixed>) -> Fixed
    decreases events.len(),
{
    if events.len() == 0 {
        Fixed { raw: 0 }
    } else {
        scroll_total(events.drop_last()).add_spec(events.last())
    }
}

/// The cursor distance after the wheel has moved by `total`: half of the
/// movement is taken off, and the result is kept between 1 and 50. Without
/// movement the distance stays as it is, even outside these bounds.
pub open spec fn scrolled(distance: CursorDistance, total: Fixed) -> CursorDistance {
    if total@ != 0 {
        CursorDistance(
            distance.0.sub_spec(total.half_spec()).clamp_spec(
                Fixed { raw: MIN_CURSOR_DISTANCE },
                Fixed { raw: MAX_CURSOR_DISTANCE },
            ),
        )
    } else {
        distance
    }
}

/// The camera after the wheel has moved by `total` in a frame of length
/// `dt`: moved along its line of sight by `total * zoom_speed * dt`.
pub open spec fn zoomed(total: Fixed, dt: Fixed, settings: CameraSettings, camera: Transform) -> Transform {
    if total@ != 0 {
        let forward = camera.rotation.rotate_spec(Vec3::axis_unit_spec(2, true)).neg_spec();
        Transform {
            translation: camera.translation.add_spec(
                forward.scale_spec(total).scale_spec(settings.zoom_speed).scale_spec(dt),
            ),
            ..camera
        }
    } else {
        camera
    }
}

/// The sum of the wheel movements of one frame.
pub fn sum_scroll(scroll_events: &Vec<Fixed>) -> (total: Fixed)
    ensures
        total == scroll_total(scroll_events@),
{
    let mut total = Fixed::zero();
    let mut i: usize = 0;
    while i < scroll_events.len()
        invariant
            i <= scroll_events.len(),
            total == scroll_total(scroll_events@.take(i as int)),
        decreases scroll_events.len() - i,
    {
        proof {
            assert(scroll_events@.take(i + 1).drop_last() == scroll_events@.take(i as int));
        }
        total = total.add(scroll_events[i]);
        i = i + 1;
    }
    proof {
        assert(scroll_events@.take(i as int) == scroll_events@);
    }
    total
}

/// Moves the camera along its line of sight by the wheel movements of one
/// frame: rolling up moves it forward.
pub fn mouse_scroll(
    scroll_events: &Vec<Fixed>,
    dt: Fixed,
    settings: &CameraSettings,
    camera: &mut Transform,
)
    ensures
        *final(camera) == zoomed(scroll_total(scroll_events@), dt, *settings, *old(camera)),
{
    let total = sum_scroll(scroll_events);
    if total.raw != 0 {
        let forward = camera.rotation.rotate(Vec3::axis_unit(2, true)).neg();
        camera.translation = camera.translation.add(
            forward.scale(total).scale(settings.zoom_speed).scale(dt),
        );
    }
}

/// Moves the cursor along its ray by the wheel movements of one frame.
pub fn scroll_control(scroll_events: &Vec<Fixed>, distance: &mut CursorDistance)
    ensures
        *final(distance) == scrolled(*old(distance), scroll_total(scroll_events@)),
        scroll_total(scroll_events@)@ != 0 ==> MIN_CURSOR_DISTANCE <= final(distance).0@
            <= MAX_CURSOR_DISTANCE,
        MIN_CURSOR_DISTANCE <= old(distance).0@ <= MAX_CURSOR_DISTANCE ==> MIN_CURSOR_DISTANCE
            <= final(distance).0@ <= MAX_CURSOR_DISTANCE,
{
    let total = sum_scroll(scroll_events);
    if total.raw != 0 {
        distance.0 = distance.0.sub(total.half()).clamp(
            Fixed { raw: MIN_CURSOR_DISTANCE },
            Fixed { raw: MAX_CURSOR_DISTANCE },
        );
    }
}

} // verus!
