use fluid::compute::{ComputeKernel, CudaBackend, GpuComputeBackend, KernelArgs, RocmBackend};
use fluid::import::{importer_for, mesh_name, ImportFormat, MeshSource};
use fluid::input::{parse_key, KeyName};
use fluid::plugin::ComponentManifest;
use fluid::prefs::UserPrefs;
use fluid::sim_bridge::{detect_tier, tier_dir, SimBridge, SimTier};
use fluid::threading::{RayonPool, ThreadPool};
use fluid::ui::{AppTheme, Palette, Panel, ACCENT, BG_BASE};
use fluid::viewport::{
    clip_to_scissor_rect, drag_update, CameraCommand, DragState, MouseButton, MouseEvent,
    ScissorRect, ViewportProgram, ViewportState,
};
use fluid::debugger::DebugError;

#[test]
fn panel_titles() {
    assert_eq!(Panel::SceneOutliner.title(), "Scene");
    assert_eq!(Panel::Viewport3D.title(), "Viewport");
    assert_eq!(Panel::SimSetup.title(), "Simulation");
}

#[test]
fn dark_theme_palette() {
    let t = AppTheme::dark();
    assert_eq!(t.palette.bg_base, [0x0f, 0x0f, 0x13]);
    assert_eq!(t.palette.accent, ACCENT);
    assert_eq!(Palette::default().bg_base, BG_BASE);
    assert_eq!(t.palette.text_muted, [0x88, 0x92, 0xa4]);
}

#[test]
fn import_format_by_extension() {
    assert_eq!(ImportFormat::from_path("models/ship.GLB"), Some(ImportFormat::GlTF));
    assert_eq!(ImportFormat::from_path("a/b/part.obj"), Some(ImportFormat::Obj));
    assert_eq!(ImportFormat::from_path("scan.Stl"), Some(ImportFormat::Stl));
    assert_eq!(ImportFormat::from_path("rig.fbx"), Some(ImportFormat::Fbx));
    assert_eq!(ImportFormat::from_path("notes.txt"), None);
    assert_eq!(ImportFormat::from_path("README"), None);
    assert_eq!(ImportFormat::from_path("gltf"), None);
    assert_eq!(ImportFormat::from_path(".obj"), None);
    assert_eq!(ImportFormat::from_path("mesh."), None);
    assert_eq!(ImportFormat::from_path("scan.tar.STL"), Some(ImportFormat::Stl));
    assert_eq!(ImportFormat::from_path("part.step"), None);
    assert_eq!(ImportFormat::from_extension(Some("GlTf")), Some(ImportFormat::GlTF));
    assert_eq!(ImportFormat::from_extension(None), None);
}

#[test]
fn import_format_uses_the_file_name_of_a_path() {
    assert_eq!(ImportFormat::from_path("/home/user/models/ship.GLB"), Some(ImportFormat::GlTF));
    assert_eq!(ImportFormat::from_path("a/b/./c.stl"), Some(ImportFormat::Stl));
    assert_eq!(ImportFormat::from_path("a//b.obj"), Some(ImportFormat::Obj));
    assert_eq!(ImportFormat::from_path("assets/mesh.obj/"), Some(ImportFormat::Obj));
    assert_eq!(ImportFormat::from_path("assets/mesh.obj/."), Some(ImportFormat::Obj));
    assert_eq!(ImportFormat::from_path("x.obj/.."), None);
    assert_eq!(ImportFormat::from_path("dir/.obj"), None);
    assert_eq!(ImportFormat::from_path("v1.2/model"), None);
    assert_eq!(ImportFormat::from_path("a/b/"), None);
    assert_eq!(ImportFormat::from_path("/"), None);
    assert_eq!(ImportFormat::from_path(""), None);
    assert_eq!(ImportFormat::from_path("./"), None);
}

#[test]
fn importer_chosen_by_extension() {
    assert_eq!(importer_for("scenes/ship.glb", "Some(\"glb\")"), Ok(MeshSource::GlTF));
    assert_eq!(importer_for("part.OBJ", "Some(\"OBJ\")"), Ok(MeshSource::Obj));
    assert_eq!(importer_for("/scans/scan.stl", "Some(\"stl\")"), Ok(MeshSource::Stl));
    assert_eq!(
        importer_for("rig.fbx", "Some(\"fbx\")"),
        Err("FBX import not yet implemented (fbxcel-dom maturity concerns \u{2014} see DEC-003)".to_string())
    );
    assert_eq!(
        importer_for("notes.txt", "Some(\"txt\")"),
        Err("unrecognised file extension: Some(\"txt\")".to_string())
    );
    assert_eq!(importer_for("README", "None"), Err("unrecognised file extension: None".to_string()));
}

#[test]
fn key_names() {
    assert_eq!(parse_key("Enter").unwrap(), KeyName::Return);
    assert_eq!(parse_key("PageDown").unwrap(), KeyName::PageDown);
    assert_eq!(parse_key("F12").unwrap(), KeyName::F12);
    match parse_key("Hyper") {
        Err(DebugError::NotImplemented(m)) => {
            assert_eq!(m, "unknown key name: Hyper \u{2014} add to input.rs::parse_key()")
        }
        _ => panic!("expected an unknown key"),
    }
}

#[test]
fn viewport_points_and_scissor() {
    assert_eq!(ViewportProgram { entity_count: 3 }.point_count(), 3);
    assert_eq!(ViewportProgram { entity_count: 1000 }.point_count(), 256);
    assert_eq!(ViewportProgram { entity_count: (1u64 << 32) + 5 }.point_count(), 5);
    assert_eq!(ViewportState::default().entity_count, 0);
    let r = clip_to_scissor_rect(&ScissorRect { x: 4, y: 5, width: 0, height: 30 });
    assert_eq!(r, ScissorRect { x: 4, y: 5, width: 1, height: 30 });
}

#[test]
fn drag_state_machine() {
    let mut d: DragState<(i32, i32)> = DragState::Idle;
    assert!(matches!(drag_update(&mut d, MouseEvent::Moved((1, 1))), CameraCommand::Ignore));
    assert!(matches!(drag_update(&mut d, MouseEvent::Pressed(MouseButton::Left, Some((0, 0)))), CameraCommand::Capture));
    match drag_update(&mut d, MouseEvent::Moved((3, 4))) {
        CameraCommand::Orbit(a, b) => assert_eq!((a, b), ((0, 0), (3, 4))),
        _ => panic!("expected an orbit"),
    }
    assert!(matches!(drag_update(&mut d, MouseEvent::Released), CameraCommand::Capture));
    assert!(matches!(d, DragState::Idle));
    assert!(matches!(drag_update(&mut d, MouseEvent::Released), CameraCommand::Ignore));
    assert!(matches!(drag_update(&mut d, MouseEvent::Pressed(MouseButton::Right, Some((1, 1)))), CameraCommand::Capture));
    assert!(matches!(drag_update(&mut d, MouseEvent::Moved((2, 2))), CameraCommand::Pan((1, 1), (2, 2))));
    assert!(matches!(drag_update(&mut d, MouseEvent::Wheel), CameraCommand::Zoom));
    assert!(matches!(drag_update(&mut d, MouseEvent::Pressed(MouseButton::Other, Some((0, 0)))), CameraCommand::Ignore));
}

#[test]
fn compute_stubs_accept_every_dispatch() {
    let k = ComputeKernel { id: 1 };
    let a = KernelArgs { data: vec![1, 2, 3], work_groups: [1, 1, 1] };
    assert!(CudaBackend { device: 0 }.dispatch_kernel(&k, &a).is_ok());
    assert!(RocmBackend { device: 0 }.dispatch_kernel(&k, &a).is_ok());
}

#[test]
fn defaults() {
    let p = UserPrefs::default();
    assert_eq!(p.autosave_interval_secs, 300);
    assert_eq!(p.theme, "dark");
    assert_eq!(p.language, "en");
    assert!(p.tier_override.is_none());
    assert!(ComponentManifest::default().component.is_empty());
    assert!(SimBridge::default().active_tier.is_none());
    assert_eq!(detect_tier(), SimTier::Tier0);
    assert_eq!(tier_dir(SimTier::Tier3), "tier3");
}

#[test]
fn rayon_pool_runs_work() {
    let pool = RayonPool::new();
    let (tx, rx) = std::sync::mpsc::channel();
    pool.spawn(move || {
        tx.send(7u32).unwrap();
    });
    assert_eq!(rx.recv().unwrap(), 7);
}

#[test]
fn imported_mesh_names() {
    assert_eq!(mesh_name(MeshSource::GlTF, Some("Wing"), 3), "Wing");
    assert_eq!(mesh_name(MeshSource::GlTF, None, 3), "Mesh_3");
    assert_eq!(mesh_name(MeshSource::Obj, Some("Hull"), 0), "Hull");
    assert_eq!(mesh_name(MeshSource::Obj, Some(""), 2), "OBJ_Mesh_2");
    assert_eq!(mesh_name(MeshSource::Obj, None, 12), "OBJ_Mesh_12");
    assert_eq!(mesh_name(MeshSource::Stl, Some("bracket"), 0), "bracket");
    assert_eq!(mesh_name(MeshSource::Stl, None, 0), "STL_Mesh");
}
