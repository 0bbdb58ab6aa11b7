//! Scene bootstrap: the entities the demo spawns at startup, as exact data.
//!
//! The engine owns the real entity store; each routine here appends records
//! to a [`SceneStore`] that the runtime shell replays against the engine,
//! one spawn per record. Two bootstrap variants exist: the debug variant
//! (camera, then grid plus light) and the demo variant, which adds the
//! textured floor box and records the two texture handles for the sampler
//! fixup.

use vstd::prelude::*;
use crate::geometry::ColorMilli;
use crate::geometry::Vec3Milli;
use crate::geometry::spec_camera_spawn;
use crate::geometry::spec_clear_color;
use crate::geometry::spec_demo_coordinates;
use crate::geometry::spec_floor_scale;
use crate::geometry::spec_light_spawn;
use crate::geometry::spec_lime_green;

verus! {

/// Identity of an engine-managed texture asset. The engine hands out
/// opaque handles; the demo only ever compares them by identity, which
/// this model carries as a plain number. Identity 0 is the default
/// (not-yet-loaded) handle.
#[derive(Clone, Copy, Debug, PartialEq, Eq, Structural)]
pub struct TextureHandle {
    pub id: u64,
}

impl Default for TextureHandle {
    /// The default handle, matching the engine's default (identity 0).
    fn default() -> (h: Self)
        ensures
            h.id == 0,
    {
        TextureHandle { id: 0 }
    }
}

/// The two grid textures of the prototype floor.
#[derive(Clone, Copy, Debug, PartialEq, Eq, Structural)]
pub struct DebugAssets {
    pub debug_grid_texture_c: TextureHandle,
    pub debug_grid_texture_n: TextureHandle,
}

impl Default for DebugAssets {
    fn default() -> (a: Self)
        ensures
            a.debug_grid_texture_c.id == 0,
            a.debug_grid_texture_n.id == 0,
    {
        DebugAssets { debug_grid_texture_c: TextureHandle { id: 0 }, debug_grid_texture_n: TextureHandle { id: 0 } }
    }
}

/// Process-wide record of the demo's tracked assets, created default at
/// application init and written once by the demo bootstrap.
#[derive(Clone, Copy, Debug, PartialEq, Eq, Structural)]
pub struct DodgeballAssets {
    pub debug_assets: DebugAssets,
}

impl Default for DodgeballAssets {
    fn default() -> (a: Self)
        ensures
            a.debug_assets.debug_grid_texture_c.id == 0,
            a.debug_assets.debug_grid_texture_n.id == 0,
    {
        DodgeballAssets {
            debug_assets: DebugAssets {
                debug_grid_texture_c: TextureHandle { id: 0 },
                debug_grid_texture_n: TextureHandle { id: 0 },
            },
        }
    }
}

/// How a material blends with what is behind it.
#[derive(Clone, Copy, Debug, PartialEq, Eq, Structural)]
pub enum AlphaMode {
    Opaque,
    Blend,
}

/// A standard material: base colour and normal-map textures plus blend mode.
#[derive(Clone, Copy, Debug, PartialEq, Eq)]
pub struct MaterialRecord {
    pub base_color_texture: Option<TextureHandle>,
    pub normal_map_texture: Option<TextureHandle>,
    pub alpha_mode: AlphaMode,
}

/// The fly camera: spawn point, aim target, clear colour, and the two tags
/// the controller and grid plugins look for.
#[derive(Clone, Copy, Debug, PartialEq, Eq, Structural)]
pub struct CameraRecord {
    pub position: Vec3Milli,
    /// The camera is oriented to look at this point (with world Y up).
    pub look_target: Vec3Milli,
    pub clear_color: ColorMilli,
    /// Tagged as the free-fly-controlled camera.
    pub fly_controlled: bool,
    /// Tagged as the shadow-casting reference camera for the grid renderer.
    pub grid_shadow_source: bool,
}

/// A directional light with default intensity and shadow settings, aimed
/// from a fixed offset toward a target (with world Y up).
#[derive(Clone, Copy, Debug, PartialEq, Eq, Structural)]
pub struct LightRecord {
    pub position: Vec3Milli,
    pub look_target: Vec3Milli,
}

/// The infinite reference grid and its fixed settings.
#[derive(Clone, Copy, Debug, PartialEq, Eq, Structural)]
pub struct GridRecord {
    /// Distance at which the grid fades out, in thousandths (500.0).
    pub fadeout_distance_milli: u64,
    /// Dot fade-out strength, in thousandths (0.15).
    pub dot_fadeout_strength_milli: u64,
    /// The grid casts no shadow.
    pub shadow_disabled: bool,
    pub x_axis_color: ColorMilli,
    pub z_axis_color: ColorMilli,
}

/// The floor box: a unit cube mesh, scaled and placed, with the prototype
/// grid material.
#[derive(Clone, Copy, Debug, PartialEq, Eq)]
pub struct FloorRecord {
    /// Edge length of the cube mesh, in thousandths (1.0).
    pub cube_size_milli: u64,
    pub position: Vec3Milli,
    pub scale: Vec3Milli,
    pub material: MaterialRecord,
}

/// One entity the bootstrap spawns.
#[derive(Clone, Copy, Debug, PartialEq, Eq)]
pub enum EntityRecord {
    Camera(CameraRecord),
    Light(LightRecord),
    Grid(GridRecord),
    Floor(FloorRecord),
}

/// The four kinds of entity the bootstrap can spawn.
#[derive(Clone, Copy, Debug, PartialEq, Eq, Structural)]
pub enum EntityKind {
    CameraKind,
    LightKind,
    GridKind,
    FloorKind,
}

pub open spec fn kind_of(e: EntityRecord) -> EntityKind {
    match e {
        EntityRecord::Camera(_) => EntityKind::CameraKind,
        EntityRecord::Light(_) => EntityKind::LightKind,
        EntityRecord::Grid(_) => EntityKind::GridKind,
        EntityRecord::Floor(_) => EntityKind::FloorKind,
    }
}

/// How many entities of the given kind a scene holds.
pub open spec fn count_kind(s: Seq<EntityRecord>, k: EntityKind) -> int
    decreases s.len(),
{
    if s.len() == 0 {
        0
    } else {
        count_kind(s.drop_last(), k) + if kind_of(s.last()) == k {
            1int
        } else {
            0int
        }
    }
}

/// The demo's scene store: the entities spawned so far, in spawn order.
/// The runtime shell replays each record as one engine spawn.
#[derive(Clone, Debug, PartialEq, Eq)]
pub struct SceneStore {
    pub entities: Vec<EntityRecord>,
}

impl SceneStore {
    pub fn new() -> (s: SceneStore)
        ensures
            s.entities@ == Seq::<EntityRecord>::empty(),
    {
        SceneStore { entities: Vec::new() }
    }
}

/// The camera entity of both bootstrap variants: spawned at the fixed
/// camera point, looking at the demo origin, clearing to dark grey, tagged
/// for the fly controller and as the grid's shadow camera.
pub open spec fn spec_camera_record() -> EntityRecord {
    EntityRecord::Camera(
        CameraRecord {
            position: spec_camera_spawn(),
            look_target: spec_demo_coordinates(),
            clear_color: spec_clear_color(),
            fly_controlled: true,
            grid_shadow_source: true,
        },
    )
}

/// The directional light: aimed at the origin from the fixed offset.
pub open spec fn spec_light_record() -> EntityRecord {
    EntityRecord::Light(
        LightRecord { position: spec_light_spawn(), look_target: spec_demo_coordinates() },
    )
}

/// The infinite grid with its fixed fade-out, lime-green axes, shadow off.
pub open spec fn spec_grid_record() -> EntityRecord {
    EntityRecord::Grid(
        GridRecord {
            fadeout_distance_milli: 500000,
            dot_fadeout_strength_milli: 150,
            shadow_disabled: true,
            x_axis_color: spec_lime_green(),
            z_axis_color: spec_lime_green(),
        },
    )
}

/// The prototype grid material: both loaded textures, blend alpha.
pub open spec fn spec_floor_material(color_texture: TextureHandle, normal_texture: TextureHandle) -> MaterialRecord {
    MaterialRecord {
        base_color_texture: Some(color_texture),
        normal_map_texture: Some(normal_texture),
        alpha_mode: AlphaMode::Blend,
    }
}

/// The floor: a unit cube at the demo origin, scaled to (1.0, 0.3, 1.0).
pub open spec fn spec_floor_record(color_texture: TextureHandle, normal_texture: TextureHandle) -> EntityRecord {
    EntityRecord::Floor(
        FloorRecord {
            cube_size_milli: 1000,
            position: spec_demo_coordinates(),
            scale: spec_floor_scale(),
            material: spec_floor_material(color_texture, normal_texture),
        },
    )
}

/// Relative asset path of the floor's colour texture.
pub open spec fn spec_color_texture_path() -> Seq<char> {
    "../../data/prototype/grid_C.png"@
}

/// Relative asset path of the floor's normal-map texture.
pub open spec fn spec_normal_texture_path() -> Seq<char> {
    "../../data/prototype/grid_N.png"@
}

/// Path the shell asks the engine's asset server to load the colour
/// texture from.
pub fn color_texture_path() -> (p: &'static str)
    ensures
        p@ == spec_color_texture_path(),
{
    "../../data/prototype/grid_C.png"
}

/// Path the shell asks the engine's asset server to load the normal-map
/// texture from.
pub fn normal_texture_path() -> (p: &'static str)
    ensures
        p@ == spec_normal_texture_path(),
{
    "../../data/prototype/grid_N.png"
}

/// Spawns the fly camera.
pub fn setup_debug_flycam(scene: &mut SceneStore)
    ensures
        final(scene).entities@ == old(scene).entities@.push(spec_camera_record()),
{
    let camera = EntityRecord::Camera(
        CameraRecord {
            position: Vec3Milli { x: 0, y: 4370, z: 14770 },
            look_target: Vec3Milli { x: 0, y: 0, z: 0 },
            clear_color: ColorMilli { r: 100, g: 100, b: 100 },
            fly_controlled: true,
            grid_shadow_source: true,
        },
    );
    scene.entities.push(camera);
}

/// Spawns the infinite reference grid.
pub fn spawn_grid(scene: &mut SceneStore)
    ensures
        final(scene).entities@ == old(scene).entities@.push(spec_grid_record()),
{
    let grid = EntityRecord::Grid(
        GridRecord {
            fadeout_distance_milli: 500000,
            dot_fadeout_strength_milli: 150,
            shadow_disabled: true,
            x_axis_color: ColorMilli { r: 200, g: 800, b: 200 },
            z_axis_color: ColorMilli { r: 200, g: 800, b: 200 },
        },
    );
    scene.entities.push(grid);
}

/// Spawns the directional light.
pub fn spawn_demo_light(scene: &mut SceneStore)
    ensures
        final(scene).entities@ == old(scene).entities@.push(spec_light_record()),
{
    let light = EntityRecord::Light(
        LightRecord {
            position: Vec3Milli { x: 15000, y: 20000, z: 0 },
            look_target: Vec3Milli { x: 0, y: 0, z: 0 },
        },
    );
    scene.entities.push(light);
}

/// Debug-variant bootstrap routine: the grid and a directional light.
pub fn setup_debug_grid(scene: &mut SceneStore)
    ensures
        final(scene).entities@ == old(scene).entities@.push(spec_grid_record()).push(
            spec_light_record(),
        ),
{
    spawn_grid(scene);
    spawn_demo_light(scene);
}

/// Demo-variant bootstrap routine: spawns the directional light and the
/// textured floor box, and records the two texture handles (already
/// requested from the asset server by the shell) for the sampler fixup.
pub fn setup_demo_area(
    scene: &mut SceneStore,
    game_assets: &mut DodgeballAssets,
    color_texture: TextureHandle,
    normal_texture: TextureHandle,
)
    ensures
        final(scene).entities@ == old(scene).entities@.push(spec_light_record()).push(
            spec_floor_record(color_texture, normal_texture),
        ),
        final(game_assets).debug_assets.debug_grid_texture_c == color_texture,
        final(game_assets).debug_assets.debug_grid_texture_n == normal_texture,
{
    spawn_demo_light(scene);
    let floor = EntityRecord::Floor(
        FloorRecord {
            cube_size_milli: 1000,
            position: Vec3Milli { x: 0, y: 0, z: 0 },
            scale: Vec3Milli { x: 1000, y: 300, z: 1000 },
            material: MaterialRecord {
                base_color_texture: Some(color_texture),
                normal_map_texture: Some(normal_texture),
                alpha_mode: AlphaMode::Blend,
            },
        },
    );
    scene.entities.push(floor);
    game_assets.debug_assets.debug_grid_texture_c = color_texture;
    game_assets.debug_assets.debug_grid_texture_n = normal_texture;
}

/// The whole debug scene: camera, grid, light, in spawn order.
pub open spec fn spec_debug_scene() -> Seq<EntityRecord> {
    seq![spec_camera_record(), spec_grid_record(), spec_light_record()]
}

/// Debug-variant bootstrap, run once at startup: spawns the camera and
/// then the grid and light into a fresh scene. No floor, no textures.
pub fn debug_bootstrap() -> (scene: SceneStore)
    ensures
        scene.entities@ == spec_debug_scene(),
{
    let mut scene = SceneStore::new();
    setup_debug_flycam(&mut scene);
    setup_debug_grid(&mut scene);
    proof {
        assert(scene.entities@ =~= spec_debug_scene());
    }
    scene
}

/// The whole demo scene: camera, grid, light, floor, in spawn order.
pub open spec fn spec_demo_scene(color_texture: TextureHandle, normal_texture: TextureHandle) -> Seq<EntityRecord> {
    seq![
        spec_camera_record(),
        spec_grid_record(),
        spec_light_record(),
        spec_floor_record(color_texture, normal_texture),
    ]
}

/// Demo-variant bootstrap, run once at startup: spawns the camera, the
/// grid, the light and the floor into a fresh scene, and fills the
/// demo-asset record with the two texture handles.
pub fn demo_bootstrap(color_texture: TextureHandle, normal_texture: TextureHandle) -> (r: (
    SceneStore,
    DodgeballAssets,
))
    ensures
        r.0.entities@ == spec_demo_scene(color_texture, normal_texture),
        r.1.debug_assets.debug_grid_texture_c == color_texture,
        r.1.debug_assets.debug_grid_texture_n == normal_texture,
{
    let mut scene = SceneStore::new();
    let mut game_assets = DodgeballAssets::default();
    setup_debug_flycam(&mut scene);
    spawn_grid(&mut scene);
    setup_demo_area(&mut scene, &mut game_assets, color_texture, normal_texture);
    proof {
        assert(scene.entities@ =~= spec_demo_scene(color_texture, normal_texture));
    }
    (scene, game_assets)
}

/// Appending one entity raises the count of its kind by one and leaves
/// the other counts unchanged.
pub proof fn lemma_count_kind_push(s: Seq<EntityRecord>, e: EntityRecord, k: EntityKind)
    ensures
        count_kind(s.push(e), k) == count_kind(s, k) + if kind_of(e) == k {
            1int
        } else {
            0int
        },
{
    assert(s.push(e).drop_last() =~= s);
}

/// Running the demo bootstrap once leaves exactly one camera, one light,
/// one grid and one floor in the scene store.
pub proof fn lemma_demo_scene_spawns_each_once(color_texture: TextureHandle, normal_texture: TextureHandle)
    ensures
        count_kind(spec_demo_scene(color_texture, normal_texture), EntityKind::CameraKind) == 1,
        count_kind(spec_demo_scene(color_texture, normal_texture), EntityKind::GridKind) == 1,
        count_kind(spec_demo_scene(color_texture, normal_texture), EntityKind::LightKind) == 1,
        count_kind(spec_demo_scene(color_texture, normal_texture), EntityKind::FloorKind) == 1,
{
    let s0 = Seq::<EntityRecord>::empty();
    let s1 = s0.push(spec_camera_record());
    let s2 = s1.push(spec_grid_record());
    let s3 = s2.push(spec_light_record());
    let s4 = s3.push(spec_floor_record(color_texture, normal_texture));
    assert(spec_demo_scene(color_texture, normal_texture) =~= s4);
    assert forall|k: EntityKind| count_kind(s0, k) == 0 by {
    }
    assert forall|k: EntityKind| #[trigger] count_kind(s4, k) == count_kind(s0, k) + if k
        == EntityKind::CameraKind {
        1int
    } else {
        0int
    } + if k == EntityKind::GridKind {
        1int
    } else {
        0int
    } + if k == EntityKind::LightKind {
        1int
    } else {
        0int
    } + if k == EntityKind::FloorKind {
        1int
    } else {
        0int
    } by {
        lemma_count_kind_push(s0, spec_camera_record(), k);
        lemma_count_kind_push(s1, spec_grid_record(), k);
        lemma_count_kind_push(s2, spec_light_record(), k);
        lemma_count_kind_push(s3, spec_floor_record(color_texture, normal_texture), k);
    }
}

/// The debug-variant bootstrap, too, spawns exactly one camera (and one
/// grid and one light, and no floor).
pub proof fn lemma_debug_scene_spawns_each_once()
    ensures
        count_kind(spec_debug_scene(), EntityKind::CameraKind) == 1,
        count_kind(spec_debug_scene(), EntityKind::GridKind) == 1,
        count_kind(spec_debug_scene(), EntityKind::LightKind) == 1,
        count_kind(spec_debug_scene(), EntityKind::FloorKind) == 0,
{
    let s0 = Seq::<EntityRecord>::empty();
    let s1 = s0.push(spec_camera_record());
    let s2 = s1.push(spec_grid_record());
    let s3 = s2.push(spec_light_record());
    assert(spec_debug_scene() =~= s3);
    assert forall|k: EntityKind| count_kind(s0, k) == 0 by {
    }
    assert forall|k: EntityKind| #[trigger] count_kind(s3, k) == count_kind(s0, k) + if k
        == EntityKind::CameraKind {
        1int
    } else {
        0int
    } + if k == EntityKind::GridKind {
        1int
    } else {
        0int
    } + if k == EntityKind::LightKind {
        1int
    } else {
        0int
    } by {
        lemma_count_kind_push(s0, spec_camera_record(), k);
        lemma_count_kind_push(s1, spec_grid_record(), k);
        lemma_count_kind_push(s2, spec_light_record(), k);
    }
}

/// Every floor entity of the demo scene has scale (1.0, 0.3, 1.0) and sits
/// at the demo origin.
pub proof fn lemma_demo_scene_floor_placement(color_texture: TextureHandle, normal_texture: TextureHandle)
    ensures
        forall|i: int|
            0 <= i < spec_demo_scene(color_texture, normal_texture).len() ==> (#[trigger] spec_demo_scene(
                color_texture,
                normal_texture,
            )[i] matches EntityRecord::Floor(f) ==> f.scale == spec_floor_scale() && f.position
                == spec_demo_coordinates()),
{
}

/// Every camera entity of the demo scene sits at the fixed spawn point and
/// is oriented to look at the demo origin.
pub proof fn lemma_demo_scene_camera_placement(color_texture: TextureHandle, normal_texture: TextureHandle)
    ensures
        forall|i: int|
            0 <= i < spec_demo_scene(color_texture, normal_texture).len() ==> (#[trigger] spec_demo_scene(
                color_texture,
                normal_texture,
            )[i] matches EntityRecord::Camera(c) ==> c.position == spec_camera_spawn()
                && c.look_target == spec_demo_coordinates()),
{
}

} // verus!
