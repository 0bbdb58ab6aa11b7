use dodgeball_core::fixup::AddressMode;
use dodgeball_core::fixup::AssetEvent;
use dodgeball_core::fixup::ImageRecord;
use dodgeball_core::fixup::ImageStore;
use dodgeball_core::fixup::SamplerSpec;
use dodgeball_core::fixup::created_event_matches;
use dodgeball_core::fixup::fixup_images;
use dodgeball_core::fixup::repeat_sampler;
use dodgeball_core::geometry::Vec3Milli;
use dodgeball_core::geometry::camera_spawn;
use dodgeball_core::geometry::demo_coordinates;
use dodgeball_core::geometry::floor_scale;
use dodgeball_core::geometry::light_spawn;
use dodgeball_core::logging::BuildMode;
use dodgeball_core::logging::LogConfig;
use dodgeball_core::logging::LogLevel;
use dodgeball_core::logging::init_logging;
use dodgeball_core::plugin::AppPlan;
use dodgeball_core::plugin::DodgeballPlugin;
use dodgeball_core::plugin::KeyBindings;
use dodgeball_core::plugin::KeyCode;
use dodgeball_core::plugin::MovementSettings;
use dodgeball_core::plugin::PluginId;
use dodgeball_core::plugin::SystemId;
use dodgeball_core::scene::AlphaMode;
use dodgeball_core::scene::CameraRecord;
use dodgeball_core::scene::DodgeballAssets;
use dodgeball_core::scene::EntityRecord;
use dodgeball_core::scene::SceneStore;
use dodgeball_core::scene::TextureHandle;
use dodgeball_core::scene::color_texture_path;
use dodgeball_core::scene::debug_bootstrap;
use dodgeball_core::scene::demo_bootstrap;
use dodgeball_core::scene::normal_texture_path;
use dodgeball_core::scene::setup_debug_flycam;
use dodgeball_core::scene::spawn_grid;
use dodgeball_core::scene::setup_debug_grid;
use dodgeball_core::scene::setup_demo_area;

fn tracked_assets(c: u64, n: u64) -> DodgeballAssets {
    let mut scene = SceneStore::new();
    let mut assets = DodgeballAssets::default();
    setup_demo_area(
        &mut scene,
        &mut assets,
        TextureHandle { id: c },
        TextureHandle { id: n },
    );
    assets
}

fn clamp_sampler() -> SamplerSpec {
    SamplerSpec::default()
}

#[test]
fn demo_bootstrap_spawns_each_entity_once() {
    let (scene, _) = demo_bootstrap(TextureHandle { id: 1 }, TextureHandle { id: 2 });
    assert_eq!(scene.entities.len(), 4);
    let cameras = scene
        .entities
        .iter()
        .filter(|e| matches!(e, EntityRecord::Camera(_)))
        .count();
    let lights = scene
        .entities
        .iter()
        .filter(|e| matches!(e, EntityRecord::Light(_)))
        .count();
    let grids = scene
        .entities
        .iter()
        .filter(|e| matches!(e, EntityRecord::Grid(_)))
        .count();
    let floors = scene
        .entities
        .iter()
        .filter(|e| matches!(e, EntityRecord::Floor(_)))
        .count();
    assert_eq!(cameras, 1);
    assert_eq!(lights, 1);
    assert_eq!(grids, 1);
    assert_eq!(floors, 1);
}

#[test]
fn demo_bootstrap_places_floor_exactly() {
    let (scene, _) = demo_bootstrap(TextureHandle { id: 1 }, TextureHandle { id: 2 });
    let floor = scene
        .entities
        .iter()
        .find_map(|e| match e {
            EntityRecord::Floor(f) => Some(*f),
            _ => None,
        })
        .expect("demo scene has a floor");
    assert_eq!(floor.scale, floor_scale());
    assert_eq!(floor.scale, Vec3Milli { x: 1000, y: 300, z: 1000 });
    assert_eq!(floor.position, demo_coordinates());
    assert_eq!(floor.cube_size_milli, 1000);
    assert_eq!(floor.material.base_color_texture, Some(TextureHandle { id: 1 }));
    assert_eq!(floor.material.normal_map_texture, Some(TextureHandle { id: 2 }));
    assert_eq!(floor.material.alpha_mode, AlphaMode::Blend);
}

#[test]
fn demo_bootstrap_places_camera_exactly() {
    let (scene, _) = demo_bootstrap(TextureHandle { id: 1 }, TextureHandle { id: 2 });
    let camera: CameraRecord = scene
        .entities
        .iter()
        .find_map(|e| match e {
            EntityRecord::Camera(c) => Some(*c),
            _ => None,
        })
        .expect("demo scene has a camera");
    assert_eq!(camera.position, camera_spawn());
    assert_eq!(camera.position, Vec3Milli { x: 0, y: 4370, z: 14770 });
    assert_eq!(camera.look_target, demo_coordinates());
    assert!(camera.fly_controlled);
    assert!(camera.grid_shadow_source);
    assert_eq!(camera.clear_color.r, 100);
    assert_eq!(camera.clear_color.g, 100);
    assert_eq!(camera.clear_color.b, 100);
}

#[test]
fn demo_bootstrap_records_texture_handles() {
    let (_, assets) = demo_bootstrap(TextureHandle { id: 21 }, TextureHandle { id: 22 });
    assert_eq!(assets.debug_assets.debug_grid_texture_c, TextureHandle { id: 21 });
    assert_eq!(assets.debug_assets.debug_grid_texture_n, TextureHandle { id: 22 });
}

#[test]
fn debug_variant_spawns_camera_then_grid_and_light() {
    let mut scene = SceneStore::new();
    setup_debug_flycam(&mut scene);
    setup_debug_grid(&mut scene);
    assert_eq!(scene.entities.len(), 3);
    assert!(matches!(scene.entities[0], EntityRecord::Camera(_)));
    assert!(matches!(scene.entities[1], EntityRecord::Grid(_)));
    assert!(matches!(scene.entities[2], EntityRecord::Light(_)));
    let grid = match scene.entities[1] {
        EntityRecord::Grid(g) => g,
        _ => unreachable!(),
    };
    assert_eq!(grid.fadeout_distance_milli, 500_000);
    assert_eq!(grid.dot_fadeout_strength_milli, 150);
    assert!(grid.shadow_disabled);
    assert_eq!(grid.x_axis_color, grid.z_axis_color);
    assert_eq!(grid.x_axis_color.r, 200);
    assert_eq!(grid.x_axis_color.g, 800);
    assert_eq!(grid.x_axis_color.b, 200);
    let light = match scene.entities[2] {
        EntityRecord::Light(l) => l,
        _ => unreachable!(),
    };
    assert_eq!(light.position, light_spawn());
    assert_eq!(light.position, Vec3Milli::new(15000, 20000, 0));
    assert_eq!(light.look_target, demo_coordinates());
}

#[test]
fn debug_bootstrap_spawns_camera_grid_light_only() {
    let scene = debug_bootstrap();
    assert_eq!(scene.entities.len(), 3);
    assert!(matches!(scene.entities[0], EntityRecord::Camera(_)));
    assert!(matches!(scene.entities[1], EntityRecord::Grid(_)));
    assert!(matches!(scene.entities[2], EntityRecord::Light(_)));
    assert!(!scene
        .entities
        .iter()
        .any(|e| matches!(e, EntityRecord::Floor(_))));
}

#[test]
fn texture_paths_are_fixed() {
    assert_eq!(color_texture_path(), "../../data/prototype/grid_C.png");
    assert_eq!(normal_texture_path(), "../../data/prototype/grid_N.png");
}

#[test]
fn created_event_for_tracked_handle_sets_repeat_sampler() {
    let assets = tracked_assets(7, 8);
    let mut store = ImageStore::new();
    store.insert_image(TextureHandle { id: 7 }, clamp_sampler());
    store.insert_image(TextureHandle { id: 99 }, clamp_sampler());
    let events = vec![AssetEvent::Created { handle: TextureHandle { id: 7 } }];
    fixup_images(&events, &mut store, &assets);
    assert_eq!(store.images[0].sampler, repeat_sampler());
    assert_eq!(store.images[0].sampler.address_mode_u, AddressMode::Repeat);
    assert_eq!(store.images[0].sampler.address_mode_v, AddressMode::Repeat);
    assert_eq!(store.images[0].sampler.address_mode_w, AddressMode::Repeat);
    assert_eq!(store.images[1].sampler, clamp_sampler());
}

#[test]
fn created_event_for_unrelated_handle_changes_nothing() {
    let assets = tracked_assets(7, 8);
    let mut store = ImageStore::new();
    store.insert_image(TextureHandle { id: 7 }, clamp_sampler());
    store.insert_image(TextureHandle { id: 99 }, clamp_sampler());
    let events = vec![AssetEvent::Created { handle: TextureHandle { id: 99 } }];
    fixup_images(&events, &mut store, &assets);
    assert_eq!(store.images[0].sampler, clamp_sampler());
    assert_eq!(store.images[1].sampler, clamp_sampler());
}

#[test]
fn modified_and_removed_events_change_nothing() {
    let assets = tracked_assets(7, 8);
    let mut store = ImageStore::new();
    store.insert_image(TextureHandle { id: 7 }, clamp_sampler());
    store.insert_image(TextureHandle { id: 8 }, clamp_sampler());
    let before = store.clone();
    let events = vec![
        AssetEvent::Modified { handle: TextureHandle { id: 7 } },
        AssetEvent::Removed { handle: TextureHandle { id: 8 } },
        AssetEvent::Modified { handle: TextureHandle { id: 8 } },
    ];
    fixup_images(&events, &mut store, &assets);
    assert_eq!(store, before);
}

#[test]
fn created_event_with_no_backing_image_is_skipped() {
    let assets = tracked_assets(7, 8);
    let mut store = ImageStore::new();
    store.insert_image(TextureHandle { id: 8 }, clamp_sampler());
    let events = vec![AssetEvent::Created { handle: TextureHandle { id: 7 } }];
    fixup_images(&events, &mut store, &assets);
    assert_eq!(store.images.len(), 1);
    assert_eq!(store.images[0], ImageRecord { handle: TextureHandle { id: 8 }, sampler: clamp_sampler() });
}

#[test]
fn empty_event_batch_changes_nothing() {
    let assets = tracked_assets(7, 8);
    let mut store = ImageStore::new();
    store.insert_image(TextureHandle { id: 7 }, clamp_sampler());
    let before = store.clone();
    fixup_images(&Vec::new(), &mut store, &assets);
    assert_eq!(store, before);
}

#[test]
fn both_tracked_handles_equal_still_fixed_once_loaded() {
    let assets = tracked_assets(7, 7);
    let mut store = ImageStore::new();
    store.insert_image(TextureHandle { id: 7 }, clamp_sampler());
    let events = vec![AssetEvent::Created { handle: TextureHandle { id: 7 } }];
    fixup_images(&events, &mut store, &assets);
    assert_eq!(store.images[0].sampler, repeat_sampler());
}

#[test]
fn default_assets_track_nothing_but_default_handles() {
    let assets = DodgeballAssets::default();
    assert!(created_event_matches(&assets, TextureHandle { id: 0 }));
    assert!(!created_event_matches(&assets, TextureHandle { id: 5 }));
}

#[test]
fn debug_profile_is_verbose_with_gpu_subsystems_pinned() {
    let cfg: LogConfig = init_logging(BuildMode::DebugBuild);
    assert_eq!(cfg.level, LogLevel::DebugLevel);
    assert_eq!(cfg.filter, "debug,wgpu_core=warn,wgpu_hal=warn,mygame=debug");
    assert!(cfg.filter.contains("debug"));
    assert!(cfg.filter.contains("wgpu_core=warn"));
    assert!(cfg.filter.contains("wgpu_hal=warn"));
}

#[test]
fn release_profile_is_terse_with_gpu_subsystems_pinned() {
    let cfg: LogConfig = init_logging(BuildMode::ReleaseBuild);
    assert_eq!(cfg.level, LogLevel::InfoLevel);
    assert_eq!(cfg.filter, "info,wgpu_core=warn,wgpu_hal=warn");
    assert!(cfg.filter.starts_with("info"));
    assert!(cfg.filter.contains("wgpu_core=warn"));
    assert!(cfg.filter.contains("wgpu_hal=warn"));
}

#[test]
fn plugin_build_registers_the_whole_unit() {
    let mut app = AppPlan::new();
    DodgeballPlugin.build(&mut app);
    assert_eq!(app.plugins, vec![PluginId::InfiniteGrid, PluginId::FlyCameraController]);
    assert_eq!(app.movement_settings, Some(MovementSettings::default()));
    let kb = app.key_bindings.expect("key bindings inserted");
    assert_eq!(kb.move_ascend, KeyCode::E);
    assert_eq!(kb.move_descend, KeyCode::Q);
    assert_eq!(kb.move_forward, KeyCode::W);
    assert_eq!(kb.move_backward, KeyCode::S);
    assert_eq!(kb.move_left, KeyCode::A);
    assert_eq!(kb.move_right, KeyCode::D);
    assert_eq!(kb.toggle_grab_cursor, KeyCode::Escape);
    assert!(app.assets_initialized);
    assert_eq!(
        app.startup_systems,
        vec![SystemId::SetupDebugFlycam, SystemId::SpawnGrid, SystemId::SetupDemoArea]
    );
    assert_eq!(app.update_systems, vec![SystemId::FixupImages]);
}

#[test]
fn plugin_startup_plan_produces_the_demo_scene_with_one_light() {
    let mut app = AppPlan::new();
    DodgeballPlugin.build(&mut app);
    let mut scene = SceneStore::new();
    let mut assets = DodgeballAssets::default();
    for system in &app.startup_systems {
        match system {
            SystemId::SetupDebugFlycam => setup_debug_flycam(&mut scene),
            SystemId::SpawnGrid => spawn_grid(&mut scene),
            SystemId::SetupDemoArea => setup_demo_area(
                &mut scene,
                &mut assets,
                TextureHandle { id: 1 },
                TextureHandle { id: 2 },
            ),
            SystemId::FixupImages => {}
        }
    }
    let lights = scene
        .entities
        .iter()
        .filter(|e| matches!(e, EntityRecord::Light(_)))
        .count();
    assert_eq!(lights, 1);
    let (expected, expected_assets) =
        demo_bootstrap(TextureHandle { id: 1 }, TextureHandle { id: 2 });
    assert_eq!(scene, expected);
    assert_eq!(assets, expected_assets);
}

#[test]
fn plugin_build_keeps_earlier_registrations() {
    let mut app = AppPlan::new();
    app.plugins.push(PluginId::InfiniteGrid);
    app.startup_systems.push(SystemId::SpawnGrid);
    DodgeballPlugin.build(&mut app);
    assert_eq!(app.plugins.len(), 3);
    assert_eq!(app.plugins[0], PluginId::InfiniteGrid);
    assert_eq!(app.startup_systems.len(), 4);
    assert_eq!(app.startup_systems[0], SystemId::SpawnGrid);
}

#[test]
fn default_key_bindings_are_stock_controls() {
    let kb = KeyBindings::default();
    assert_eq!(kb.move_forward, KeyCode::W);
    assert_eq!(kb.move_backward, KeyCode::S);
    assert_eq!(kb.move_left, KeyCode::A);
    assert_eq!(kb.move_right, KeyCode::D);
    assert_eq!(kb.move_ascend, KeyCode::Space);
    assert_eq!(kb.move_descend, KeyCode::LShift);
    assert_eq!(kb.toggle_grab_cursor, KeyCode::Escape);
    let m = MovementSettings::default();
    assert_eq!(m.sensitivity_micro, 120);
    assert_eq!(m.speed_milli, 12000);
}
