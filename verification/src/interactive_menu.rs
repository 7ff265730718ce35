//! The interactive menu: what a frame of clicks and keys changes in the
//! interaction mode, the blast and the wrecking body, and which scenes it
//! asks to be spawned or removed.

use vstd::prelude::*;
use crate::fixed::{Fixed, SCALE};
use crate::interactions::{ImpulseSettings, InteractionMode, InteractionModeType};
use crate::vector::Vec3;

verus! {

/// The maps that can be spawned.
#[derive(Clone, Copy, Debug, PartialEq, Eq, Structural)]
pub enum MapTag {
    Flat,
    Ramp,
    RectTank,
}

/// The shapes that can be spawned.
#[derive(Clone, Copy, Debug, PartialEq, Eq, Structural)]
pub enum ShapeTag {
    Cube,
    Sphere,
    Cone,
    Torus,
    Cylinder,
    SMCUBE,
}

/// The structures that can be spawned.
#[derive(Clone, Copy, Debug, PartialEq, Eq, Structural)]
pub enum StructureTag {
    CubeTower,
}

/// The asset file that holds a scene.
#[derive(Clone, Copy, Debug, PartialEq, Eq, Structural)]
pub enum SceneFile {
    Maps,
    Shapes,
    Structures,
}

/// What a spawned scene is tagged as.
#[derive(Clone, Copy, Debug, PartialEq, Eq, Structural)]
pub enum SceneTag {
    OfMap(MapTag),
    OfShape(ShapeTag),
    OfStructure(StructureTag),
}

/// A change to the scenes in the world, to be carried out after the frame.
#[derive(Clone, Copy, Debug, PartialEq, Eq, Structural)]
pub enum SceneCommand {
    DespawnMaps,
    DespawnShapes,
    DespawnStructures,
    /// Spawn scene number `scene` of `file` at `position`, with `tag`.
    Spawn { file: SceneFile, scene: u32, position: Vec3, tag: SceneTag },
}

/// The "-" and "+" of a value, each pressed or not in this frame.
#[derive(Clone, Copy, Debug, PartialEq, Eq, Structural)]
pub struct StepInput {
    pub minus: bool,
    pub plus: bool,
}

/// What the player did in the menu in one frame. A mode counts as chosen
/// when its label was clicked or its key was pressed.
#[derive(Clone, Copy, Debug, PartialEq, Eq, Structural)]
pub struct MenuInput {
    pub click_mode: bool,
    pub impulse_mode: bool,
    pub wrecker_mode: bool,
    pub arrow_down: bool,
    pub arrow_up: bool,
    /// The blast radius as dragged to, if it was dragged.
    pub radius_dragged: Option<Fixed>,
    pub radius: StepInput,
    /// The full force as dragged to, if it was dragged.
    pub force_dragged: Option<Fixed>,
    pub force: StepInput,
    pub scale: StepInput,
    pub map: Option<MapTag>,
    pub shape: Option<ShapeTag>,
    pub delete_shapes: bool,
    pub structure: Option<StructureTag>,
}

impl MapTag {
    /// The number of the map's scene in the maps file.
    pub open spec fn scene_spec(self) -> u32 {
        match self {
            MapTag::Flat => 0,
            MapTag::Ramp => 1,
            MapTag::RectTank => 2,
        }
    }

    /// The tag that the spawned map carries: a tank is tagged as a ramp.
    pub open spec fn tag_spec(self) -> MapTag {
        match self {
            MapTag::Flat => MapTag::Flat,
            MapTag::Ramp => MapTag::Ramp,
            MapTag::RectTank => MapTag::Ramp,
        }
    }

    /// The number of the scene in its file.
    #[verifier::when_used_as_spec(scene_spec)]
    pub fn scene(self) -> (r: u32)
        ensures
            r == self.scene_spec(),
    {
        match self {
            MapTag::Flat => 0,
            MapTag::Ramp => 1,
            MapTag::RectTank => 2,
        }
    }

    /// The tag that the spawned map carries.
    #[verifier::when_used_as_spec(tag_spec)]
    pub fn tag(self) -> (r: MapTag)
        ensures
            r == self.tag_spec(),
    {
        match self {
            MapTag::Flat => MapTag::Flat,
            MapTag::Ramp => MapTag::Ramp,
            MapTag::RectTank => MapTag::Ramp,
        }
    }
}

impl ShapeTag {
    /// The number of the shape's scene in the shapes file.
    pub open spec fn scene_spec(self) -> u32 {
        match self {
            ShapeTag::Cone => 0,
            ShapeTag::Cube => 1,
            ShapeTag::Cylinder => 2,
            ShapeTag::SMCUBE => 3,
            ShapeTag::Sphere => 4,
            ShapeTag::Torus => 6,
        }
    }

    /// The number of the scene in its file.
    #[verifier::when_used_as_spec(scene_spec)]
    pub fn scene(self) -> (r: u32)
        ensures
            r == self.scene_spec(),
    {
        match self {
            ShapeTag::Cone => 0,
            ShapeTag::Cube => 1,
            ShapeTag::Cylinder => 2,
            ShapeTag::SMCUBE => 3,
            ShapeTag::Sphere => 4,
            ShapeTag::Torus => 6,
        }
    }
}

impl StructureTag {
    /// The number of the structure's scene in the structures file.
    pub open spec fn scene_spec(self) -> u32 {
        0
    }

    /// The number of the scene in its file.
    #[verifier::when_used_as_spec(scene_spec)]
    pub fn scene(self) -> (r: u32)
        ensures
            r == self.scene_spec(),
    {
        0
    }
}

/// The mode after the choices of one frame: of several modes chosen at
/// once the wrecker goes before the blast, and the blast before the click.
pub open spec fn selected_mode(mode: InteractionModeType, input: MenuInput) -> InteractionModeType {
    if input.wrecker_mode {
        InteractionModeType::Wrecker
    } else if input.impulse_mode {
        InteractionModeType::Impulse
    } else if input.click_mode {
        InteractionModeType::Click
    } else {
        mode
    }
}

/// A value after its "-" and "+": one less for the "-" or the down arrow,
/// one more for the "+" or the up arrow.
pub open spec fn stepped_value(value: Fixed, step: StepInput, input: MenuInput) -> Fixed {
    let lowered = if step.minus || input.arrow_down {
        value.sub_spec(Fixed::one_spec())
    } else {
        value
    };
    if step.plus || input.arrow_up {
        lowered.add_spec(Fixed::one_spec())
    } else {
        lowered
    }
}

/// A value that was dragged, or left alone.
pub open spec fn dragged_value(value: Fixed, dragged: Option<Fixed>) -> Fixed {
    match dragged {
        Some(to) => to,
        None => value,
    }
}

/// The blast after one frame in the menu. It can be changed only while the
/// blast mode is on.
pub open spec fn adjusted_settings(
    settings: ImpulseSettings,
    mode: InteractionModeType,
    input: MenuInput,
) -> ImpulseSettings {
    if mode == InteractionModeType::Impulse {
        ImpulseSettings {
            blast_radius: stepped_value(
                dragged_value(settings.blast_radius, input.radius_dragged),
                input.radius,
                input,
            ),
            max_force: stepped_value(
                dragged_value(settings.max_force, input.force_dragged),
                input.force,
                input,
            ),
        }
    } else {
        settings
    }
}

/// The size of the wrecking body after one frame in the menu: every axis
/// is stepped alike. It can be changed only while the wrecker mode is on.
pub open spec fn adjusted_scale(scale: Vec3, mode: InteractionModeType, input: MenuInput) -> Vec3 {
    if mode == InteractionModeType::Wrecker {
        Vec3 {
            x: stepped_value(scale.x, input.scale, input),
            y: stepped_value(scale.y, input.scale, input),
            z: stepped_value(scale.z, input.scale, input),
        }
    } else {
        scale
    }
}

/// Where shapes are dropped from: (0, 10, 0).
pub open spec fn drop_point() -> Vec3 {
    Vec3 { x: Fixed { raw: 0 }, y: Fixed { raw: 10_000_000 }, z: Fixed { raw: 0 } }
}

/// Where structures are set down: (0, 0.1, 0).
pub open spec fn structure_point() -> Vec3 {
    Vec3 { x: Fixed { raw: 0 }, y: Fixed { raw: 100_000 }, z: Fixed { raw: 0 } }
}

/// What a click on a map asks for: the maps there are go, the new one comes.
pub open spec fn map_commands(map: Option<MapTag>) -> Seq<SceneCommand> {
    match map {
        Some(tag) => seq![
            SceneCommand::DespawnMaps,
            SceneCommand::Spawn {
                file: SceneFile::Maps,
                scene: tag.scene_spec(),
                position: Vec3::zero_spec(),
                tag: SceneTag::OfMap(tag.tag_spec()),
            },
        ],
        None => Seq::empty(),
    }
}

/// What the clicks on the shapes ask for: a new shape is added to those
/// there are; "delete" removes all, the new one too.
pub open spec fn shape_commands(shape: Option<ShapeTag>, delete_shapes: bool) -> Seq<SceneCommand> {
    let spawned = match shape {
        Some(tag) => seq![
            SceneCommand::Spawn {
                file: SceneFile::Shapes,
                scene: tag.scene_spec(),
                position: drop_point(),
                tag: SceneTag::OfShape(tag),
            },
        ],
        None => Seq::empty(),
    };
    if delete_shapes {
        spawned.push(SceneCommand::DespawnShapes)
    } else {
        spawned
    }
}

/// What a click on a structure asks for: the structures there are go, the new one comes.
pub open spec fn structure_commands(structure: Option<StructureTag>) -> Seq<SceneCommand> {
    match structure {
        Some(tag) => seq![
            SceneCommand::DespawnStructures,
            SceneCommand::Spawn {
                file: SceneFile::Structures,
                scene: tag.scene_spec(),
                position: structure_point(),
                tag: SceneTag::OfStructure(tag),
            },
        ],
        None => Seq::empty(),
    }
}

/// All that one frame in the menu asks for: maps, then shapes, then structures.
pub open spec fn scene_commands(input: MenuInput) -> Seq<SceneCommand> {
    map_commands(input.map) + shape_commands(input.shape, input.delete_shapes) + structure_commands(
        input.structure,
    )
}

fn step_value(value: Fixed, step: StepInput, input: &MenuInput) -> (r: Fixed)
    ensures
        r == stepped_value(value, step, *input),
{
    let lowered = if step.minus || input.arrow_down {
        value.sub(Fixed::one())
    } else {
        value
    };
    if step.plus || input.arrow_up {
        lowered.add(Fixed::one())
    } else {
        lowered
    }
}

fn drag_value(value: Fixed, dragged: Option<Fixed>) -> (r: Fixed)
    ensures
        r == dragged_value(value, dragged),
{
    match dragged {
        Some(to) => to,
        None => value,
    }
}

fn select_mode(mode: InteractionModeType, input: &MenuInput) -> (r: InteractionModeType)
    ensures
        r == selected_mode(mode, *input),
{
    if input.wrecker_mode {
        InteractionModeType::Wrecker
    } else if input.impulse_mode {
        InteractionModeType::Impulse
    } else if input.click_mode {
        InteractionModeType::Click
    } else {
        mode
    }
}

fn adjust_settings(settings: ImpulseSettings, mode: InteractionModeType, input: &MenuInput) -> (r:
    ImpulseSettings)
    ensures
        r == adjusted_settings(settings, mode, *input),
{
    match mode {
        InteractionModeType::Impulse => ImpulseSettings {
            blast_radius: step_value(
                drag_value(settings.blast_radius, input.radius_dragged),
                input.radius,
                input,
            ),
            max_force: step_value(
                drag_value(settings.max_force, input.force_dragged),
                input.force,
                input,
            ),
        },
        _ => settings,
    }
}

fn adjust_scale(scale: Vec3, mode: InteractionModeType, input: &MenuInput) -> (r: Vec3)
    ensures
        r == adjusted_scale(scale, mode, *input),
{
    match mode {
        InteractionModeType::Wrecker => Vec3 {
            x: step_value(scale.x, input.scale, input),
            y: step_value(scale.y, input.scale, input),
            z: step_value(scale.z, input.scale, input),
        },
        _ => scale,
    }
}

fn push_map_commands(commands: &mut Vec<SceneCommand>, map: Option<MapTag>)
    ensures
        final(commands)@ == old(commands)@ + map_commands(map),
{
    match map {
        Some(tag) => {
            commands.push(SceneCommand::DespawnMaps);
            commands.push(
                SceneCommand::Spawn {
                    file: SceneFile::Maps,
                    scene: tag.scene(),
                    position: Vec3::zero(),
                    tag: SceneTag::OfMap(tag.tag()),
                },
            );
        },
        None => {},
    }
    assert(commands@ =~= old(commands)@ + map_commands(map));
}

fn push_shape_commands(commands: &mut Vec<SceneCommand>, shape: Option<ShapeTag>, delete_shapes: bool)
    ensures
        final(commands)@ == old(commands)@ + shape_commands(shape, delete_shapes),
{
    match shape {
        Some(tag) => {
            commands.push(
                SceneCommand::Spawn {
                    file: SceneFile::Shapes,
                    scene: tag.scene(),
                    position: Vec3 { x: Fixed::zero(), y: Fixed::from_int(10), z: Fixed::zero() },
                    tag: SceneTag::OfShape(tag),
                },
            );
        },
        None => {},
    }
    if delete_shapes {
        commands.push(SceneCommand::DespawnShapes);
    }
    assert(commands@ =~= old(commands)@ + shape_commands(shape, delete_shapes));
}

fn push_structure_commands(commands: &mut Vec<SceneCommand>, structure: Option<StructureTag>)
    ensures
        final(commands)@ == old(commands)@ + structure_commands(structure),
{
    match structure {
        Some(tag) => {
            commands.push(SceneCommand::DespawnStructures);
            commands.push(
                SceneCommand::Spawn {
                    file: SceneFile::Structures,
                    scene: tag.scene(),
                    position: Vec3 {
                        x: Fixed::zero(),
                        y: Fixed { raw: SCALE / 10 },
                        z: Fixed::zero(),
                    },
                    tag: SceneTag::OfStructure(tag),
                },
            );
        },
        None => {},
    }
    assert(commands@ =~= old(commands)@ + structure_commands(structure));
}

/// One frame of the interactive menu. The mode is chosen first, and the
/// settings that the menu shows for the chosen mode can be changed in the
/// same frame. Returns the scenes to spawn and remove, in order.
pub fn interactive_menu(
    input: &MenuInput,
    interaction_mode: &mut InteractionMode,
    impulse_settings: &mut ImpulseSettings,
    wrecker_scale: &mut Vec3,
) -> (commands: Vec<SceneCommand>)
    ensures
        final(interaction_mode).0 == selected_mode(old(interaction_mode).0, *input),
        *final(impulse_settings) == adjusted_settings(
            *old(impulse_settings),
            final(interaction_mode).0,
            *input,
        ),
        *final(wrecker_scale) == adjusted_scale(*old(wrecker_scale), final(interaction_mode).0, *input),
        commands@ == scene_commands(*input),
{
    let mode = select_mode(interaction_mode.0, input);
    interaction_mode.0 = mode;
    *impulse_settings = adjust_settings(*impulse_settings, mode, input);
    *wrecker_scale = adjust_scale(*wrecker_scale, mode, input);
    let mut commands: Vec<SceneCommand> = Vec::new();
    push_map_commands(&mut commands, input.map);
    push_shape_commands(&mut commands, input.shape, input.delete_shapes);
    push_structure_commands(&mut commands, input.structure);
    assert(commands@ =~= scene_commands(*input));
    commands
}

} // verus!
