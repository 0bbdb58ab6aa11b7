//! Plugin assembly: what registering the dodgeball unit adds to the host
//! application.
//!
//! The engine's application builder is opaque; [`AppPlan`] records exactly
//! what the unit registers with it — plugins, resources, and the systems
//! of each phase — and the runtime shell performs the same registrations
//! on the real builder. Registration is infallible by construction.

use vstd::prelude::*;

verus! {

/// A key the camera controller can be bound to.
#[derive(Clone, Copy, Debug, PartialEq, Eq, Structural)]
pub enum KeyCode {
    W,
    A,
    S,
    D,
    Q,
    E,
    Space,
    LShift,
    Escape,
}

/// Key bindings of the free-fly camera controller.
#[derive(Clone, Copy, Debug, PartialEq, Eq, Structural)]
pub struct KeyBindings {
    pub move_forward: KeyCode,
    pub move_backward: KeyCode,
    pub move_left: KeyCode,
    pub move_right: KeyCode,
    pub move_ascend: KeyCode,
    pub move_descend: KeyCode,
    pub toggle_grab_cursor: KeyCode,
}

/// The controller's stock bindings: WASD movement, space and left shift
/// for ascend and descend, escape to release the cursor.
pub open spec fn spec_default_key_bindings() -> KeyBindings {
    KeyBindings {
        move_forward: KeyCode::W,
        move_backward: KeyCode::S,
        move_left: KeyCode::A,
        move_right: KeyCode::D,
        move_ascend: KeyCode::Space,
        move_descend: KeyCode::LShift,
        toggle_grab_cursor: KeyCode::Escape,
    }
}

/// The demo's bindings: stock, with ascend and descend remapped to E and
/// Q to mimic a common editor control scheme.
pub open spec fn spec_demo_key_bindings() -> KeyBindings {
    KeyBindings {
        move_ascend: KeyCode::E,
        move_descend: KeyCode::Q,
        ..spec_default_key_bindings()
    }
}

impl Default for KeyBindings {
    fn default() -> (kb: Self)
        ensures
            kb == spec_default_key_bindings(),
    {
        KeyBindings {
            move_forward: KeyCode::W,
            move_backward: KeyCode::S,
            move_left: KeyCode::A,
            move_right: KeyCode::D,
            move_ascend: KeyCode::Space,
            move_descend: KeyCode::LShift,
            toggle_grab_cursor: KeyCode::Escape,
        }
    }
}

/// The demo's key bindings.
pub fn demo_key_bindings() -> (kb: KeyBindings)
    ensures
        kb == spec_demo_key_bindings(),
{
    let mut kb = KeyBindings::default();
    kb.move_ascend = KeyCode::E;
    kb.move_descend = KeyCode::Q;
    kb
}

/// Movement settings of the camera controller, in exact sub-units: mouse
/// sensitivity in millionths and speed in thousandths of a world unit.
#[derive(Clone, Copy, Debug, PartialEq, Eq, Structural)]
pub struct MovementSettings {
    pub sensitivity_micro: u64,
    pub speed_milli: u64,
}

/// The controller's stock movement settings: sensitivity 0.000120,
/// speed 12.0.
pub open spec fn spec_default_movement_settings() -> MovementSettings {
    MovementSettings { sensitivity_micro: 120, speed_milli: 12000 }
}

impl Default for MovementSettings {
    fn default() -> (m: Self)
        ensures
            m == spec_default_movement_settings(),
    {
        MovementSettings { sensitivity_micro: 120, speed_milli: 12000 }
    }
}

/// A plugin the assembly registers with the host application.
#[derive(Clone, Copy, Debug, PartialEq, Eq, Structural)]
pub enum PluginId {
    /// The infinite-grid rendering plugin.
    InfiniteGrid,
    /// The free-fly camera controller (the variant that spawns no camera
    /// of its own).
    FlyCameraController,
}

/// A routine the assembly schedules on the host application.
#[derive(Clone, Copy, Debug, PartialEq, Eq, Structural)]
pub enum SystemId {
    FixupImages,
    SetupDebugFlycam,
    SpawnGrid,
    SetupDemoArea,
}

/// What has been registered with the host application builder so far.
#[derive(Clone, Debug, PartialEq, Eq)]
pub struct AppPlan {
    pub plugins: Vec<PluginId>,
    /// Movement settings resource, if inserted.
    pub movement_settings: Option<MovementSettings>,
    /// Key bindings resource, if inserted.
    pub key_bindings: Option<KeyBindings>,
    /// Whether the demo-asset resource has been initialized (default-valued).
    pub assets_initialized: bool,
    /// Systems that run once at startup, in registration order.
    pub startup_systems: Vec<SystemId>,
    /// Systems that run every tick, in registration order.
    pub update_systems: Vec<SystemId>,
}

impl AppPlan {
    /// A fresh application builder: nothing registered yet.
    pub fn new() -> (p: AppPlan)
        ensures
            p.plugins@ == Seq::<PluginId>::empty(),
            p.movement_settings is None,
            p.key_bindings is None,
            !p.assets_initialized,
            p.startup_systems@ == Seq::<SystemId>::empty(),
            p.update_systems@ == Seq::<SystemId>::empty(),
    {
        AppPlan {
            plugins: Vec::new(),
            movement_settings: None,
            key_bindings: None,
            assets_initialized: false,
            startup_systems: Vec::new(),
            update_systems: Vec::new(),
        }
    }
}

/// The dodgeball unit: grid rendering, fly camera, the demo-asset
/// resource, the per-tick sampler fixup and the startup bootstrap.
pub struct DodgeballPlugin;

impl DodgeballPlugin {
    /// Registers the unit with the host application: the grid plugin, the
    /// camera controller with stock movement settings and the editor-style
    /// key bindings, the default-initialized demo-asset resource, the
    /// sampler fixup as a per-tick system, and the demo bootstrap —
    /// camera, grid, then the demo area — as startup systems. Run once
    /// each, those three routines produce exactly the demo scene (one
    /// camera, one grid, one light, one floor): the composition is the
    /// same as `scene::demo_bootstrap`, whose scene
    /// `scene::lemma_demo_scene_spawns_each_once` counts.
    pub fn build(&self, app: &mut AppPlan)
        ensures
            final(app).plugins@ == old(app).plugins@.push(PluginId::InfiniteGrid).push(
                PluginId::FlyCameraController,
            ),
            final(app).movement_settings == Some(spec_default_movement_settings()),
            final(app).key_bindings == Some(spec_demo_key_bindings()),
            final(app).assets_initialized,
            final(app).startup_systems@ == old(app).startup_systems@.push(
                SystemId::SetupDebugFlycam,
            ).push(SystemId::SpawnGrid).push(SystemId::SetupDemoArea),
            final(app).update_systems@ == old(app).update_systems@.push(SystemId::FixupImages),
    {
        app.plugins.push(PluginId::InfiniteGrid);
        app.plugins.push(PluginId::FlyCameraController);
        app.movement_settings = Some(MovementSettings::default());
        app.key_bindings = Some(demo_key_bindings());
        app.assets_initialized = true;
        app.update_systems.push(SystemId::FixupImages);
        app.startup_systems.push(SystemId::SetupDebugFlycam);
        app.startup_systems.push(SystemId::SpawnGrid);
        app.startup_systems.push(SystemId::SetupDemoArea);
    }
}

} // verus!
