use fluid::app_state::MenuTarget;
use fluid::ecs::EntityId;
use fluid::menus::{
    empty_outliner_text, no_selection_text, outliner_rows, play_glyph, preset_buttons, tick_label,
    tier_label, with_axis, OutlinerRow, PresetButton,
};
use fluid::app_state::CoreMsg;
use fluid::menus::{command_message, shortcut_message};
use fluid::menus::{
    keyboard_shortcut, menu_bar, no_scene_title, scene_title, KeyPress, MenuButton, Shortcut,
};
use fluid::menus::{
    frame_label, menu_items, objects_label, preset_hint, sim_label, MenuCommand, MenuContext,
    MenuItem,
};
use fluid::scene::Scene;
use fluid::viewport::{mouse_interaction, CursorKind, DragState};

fn context(undo: Option<&str>, selection: bool, running: bool, presets: &[&str]) -> MenuContext {
    MenuContext {
        undo_label: undo.map(|s| s.to_string()),
        redo_label: None,
        has_selection: selection,
        running,
        presets: presets.iter().map(|s| s.to_string()).collect(),
    }
}

fn action(label: &str, shortcut: &str, command: MenuCommand) -> MenuItem {
    MenuItem::Action { label: label.to_string(), shortcut: shortcut.to_string(), command }
}

fn disabled(label: &str, shortcut: &str) -> MenuItem {
    MenuItem::Disabled { label: label.to_string(), shortcut: shortcut.to_string() }
}

#[test]
fn file_menu_items() {
    let items = menu_items(MenuTarget::File, &context(None, false, false, &[]));
    assert_eq!(
        items,
        vec![
            action("New Scene", "Ctrl+N", MenuCommand::NewScene),
            action("Open...", "Ctrl+O", MenuCommand::OpenFile),
            action("Import...", "Ctrl+I", MenuCommand::ImportFile),
            MenuItem::Separator,
            action("Save", "Ctrl+S", MenuCommand::Save),
            action("Save As...", "", MenuCommand::Save),
        ]
    );
}

#[test]
fn edit_menu_without_history_or_selection() {
    let items = menu_items(MenuTarget::Edit, &context(None, false, false, &[]));
    assert_eq!(
        items,
        vec![
            disabled("Undo", "Ctrl+Z"),
            disabled("Redo", "Ctrl+Y"),
            MenuItem::Separator,
            action("Spawn Object", "", MenuCommand::SpawnObject),
            disabled("Delete Object", "Del"),
        ]
    );
}

#[test]
fn edit_menu_names_the_command_to_undo() {
    let items = menu_items(MenuTarget::Edit, &context(Some("Rename"), true, false, &[]));
    assert_eq!(items[0], action("Undo Rename", "Ctrl+Z", MenuCommand::Undo));
    assert_eq!(items[1], disabled("Redo", "Ctrl+Y"));
    assert_eq!(items[4], action("Delete Object", "Del", MenuCommand::DeleteObject));
}

#[test]
fn simulation_menu_lists_presets() {
    let items = menu_items(MenuTarget::Simulation, &context(None, false, true, &["Water", "Steel"]));
    assert_eq!(items.len(), 7);
    assert_eq!(items[0], action("|| Pause", "Space", MenuCommand::SimToggle));
    assert_eq!(items[1], action(">> Step", "", MenuCommand::SimStep));
    assert_eq!(items[2], action("[] Reset", "", MenuCommand::SimReset));
    assert_eq!(items[3], MenuItem::Separator);
    assert_eq!(items[4], MenuItem::Heading("Material presets:".to_string()));
    assert_eq!(
        items[5],
        action("Apply \"Water\"", "", MenuCommand::ApplyPreset("Water".to_string()))
    );
    assert_eq!(
        items[6],
        action("Apply \"Steel\"", "", MenuCommand::ApplyPreset("Steel".to_string()))
    );
}

#[test]
fn simulation_menu_without_presets() {
    let items = menu_items(MenuTarget::Simulation, &context(None, false, false, &[]));
    assert_eq!(items.len(), 6);
    assert_eq!(items[0], action("> Run", "Space", MenuCommand::SimToggle));
    assert_eq!(items[5], disabled("No presets loaded", ""));
}

#[test]
fn view_and_help_menus_are_greyed_out() {
    let view = menu_items(MenuTarget::View, &context(None, false, false, &[]));
    assert_eq!(view.len(), 5);
    assert_eq!(view[0], disabled("Grid (always on)", ""));
    assert_eq!(view[2], MenuItem::Separator);
    assert_eq!(view[4], disabled("Reset Layout (v2)", ""));
    let help = menu_items(MenuTarget::Help, &context(None, false, false, &[]));
    assert_eq!(help.len(), 4);
    assert_eq!(help[3], disabled("About Fluid", ""));
}

#[test]
fn status_bar_labels() {
    assert_eq!(objects_label(0), "0 objects");
    assert_eq!(objects_label(1), "1 object");
    assert_eq!(objects_label(2), "2 objects");
    assert_eq!(frame_label(0), "Frame 0");
    assert_eq!(frame_label(1234), "Frame 1234");
    assert_eq!(sim_label(true), "\u{25b6} Running");
    assert_eq!(sim_label(false), "\u{23f8} Paused");
    assert_eq!(preset_hint(true), "Click preset to apply to selected object.");
    assert_eq!(preset_hint(false), "Select an object to apply a preset.");
}

#[test]
fn cursor_follows_the_drag() {
    assert_eq!(mouse_interaction(&DragState::<(i32, i32)>::Idle), CursorKind::Crosshair);
    assert_eq!(mouse_interaction(&DragState::Orbiting { last: (1, 2) }), CursorKind::Grab);
    assert_eq!(
        mouse_interaction(&DragState::Panning { last: (1, 2) }),
        CursorKind::ResizingHorizontally
    );
}

#[test]
fn positions_of_outliner_objects() {
    let mut s: Scene<(i32, i32)> = Scene::new();
    let a = s.spawn_object("A".to_string());
    let b = s.spawn_object("B".to_string());
    let c = s.spawn_object("C".to_string());
    s.set_position(b, (4, 5));
    let all = s.entity_positions(10, &(0, 0));
    assert_eq!(all, vec![(a, (0, 0)), (b, (4, 5)), (c, (0, 0))]);
    let first: Vec<(EntityId, (i32, i32))> = s.entity_positions(2, &(9, 9));
    assert_eq!(first, vec![(a, (9, 9)), (b, (4, 5))]);
}

#[test]
fn outliner_lists_root_objects_and_marks_the_selection() {
    let mut s: Scene<()> = Scene::new();
    assert!(outliner_rows(&s, None).is_empty());
    let a = s.spawn_object("Cube".to_string());
    let b = s.spawn_object("Sphere".to_string());
    let rows = outliner_rows(&s, Some(b));
    assert_eq!(
        rows,
        vec![
            OutlinerRow { entity: a, label: "  \u{25b8} Cube".to_string(), selected: false },
            OutlinerRow { entity: b, label: "  \u{25b8} Sphere".to_string(), selected: true },
        ]
    );
    assert_eq!(empty_outliner_text(), "No objects in scene.");
    assert_eq!(no_selection_text(), "Select an object to view its properties.");
}

#[test]
fn position_field_replaces_one_axis() {
    assert_eq!(with_axis([1, 2, 3], 0, 9), [9, 2, 3]);
    assert_eq!(with_axis([1, 2, 3], 2, 7), [1, 2, 7]);
}

#[test]
fn preset_buttons_follow_the_selection() {
    let names = vec!["Water".to_string(), "Oil".to_string()];
    assert_eq!(
        preset_buttons(&names, true),
        vec![
            PresetButton { name: "Water".to_string(), enabled: true },
            PresetButton { name: "Oil".to_string(), enabled: true },
        ]
    );
    assert!(preset_buttons(&names, false).iter().all(|b| !b.enabled));
}

#[test]
fn timeline_and_tier_labels() {
    assert_eq!(play_glyph(true), "\u{23f8}");
    assert_eq!(play_glyph(false), "\u{25b6}");
    assert_eq!(tick_label(0), "#0");
    assert_eq!(tick_label(42), "#42");
    assert_eq!(tier_label(Some(2)), "Tier 2");
    assert_eq!(tier_label(None), "Tier ?");
}

#[test]
fn menu_bar_highlights_the_open_menu() {
    let bar = menu_bar(Some(MenuTarget::Edit));
    let labels: Vec<&str> = bar.iter().map(|b| b.label.as_str()).collect();
    assert_eq!(labels, vec!["File", "Edit", "Simulation", "View", "Help"]);
    assert_eq!(
        bar[1],
        MenuButton { label: "Edit".to_string(), target: MenuTarget::Edit, open: true }
    );
    assert_eq!(bar.iter().filter(|b| b.open).count(), 1);
    assert!(menu_bar(None).iter().all(|b| !b.open));
}

#[test]
fn scene_title_marks_unsaved_changes() {
    assert_eq!(scene_title("Untitled", false), "  Untitled  ");
    assert_eq!(scene_title("Wing", true), "  Wing \u{25cf}  ");
    assert_eq!(no_scene_title(), "  Fluid  ");
}

#[test]
fn keyboard_shortcuts() {
    assert_eq!(keyboard_shortcut(KeyPress::Char('z'), true, false), Some(Shortcut::Undo));
    assert_eq!(keyboard_shortcut(KeyPress::Char('z'), true, true), Some(Shortcut::Redo));
    assert_eq!(keyboard_shortcut(KeyPress::Char('y'), true, false), Some(Shortcut::Redo));
    assert_eq!(keyboard_shortcut(KeyPress::Char('n'), true, false), Some(Shortcut::NewScene));
    assert_eq!(keyboard_shortcut(KeyPress::Char('o'), true, false), Some(Shortcut::OpenFile));
    assert_eq!(keyboard_shortcut(KeyPress::Char('s'), true, false), Some(Shortcut::Save));
    assert_eq!(keyboard_shortcut(KeyPress::Char('i'), true, false), Some(Shortcut::ImportFile));
    assert_eq!(keyboard_shortcut(KeyPress::Char('q'), true, false), None);
    assert_eq!(keyboard_shortcut(KeyPress::Delete, false, false), Some(Shortcut::DeleteObject));
    assert_eq!(keyboard_shortcut(KeyPress::Escape, false, false), Some(Shortcut::CloseMenu));
    assert_eq!(keyboard_shortcut(KeyPress::Char(' '), false, false), Some(Shortcut::SimToggle));
    assert_eq!(keyboard_shortcut(KeyPress::Char('z'), false, false), None);
    assert_eq!(keyboard_shortcut(KeyPress::Delete, true, false), None);
}

#[test]
fn every_shown_shortcut_is_honoured() {
    // "Ctrl+S" on Save, "Del" on Delete Object, "Space" on Run.
    let file = menu_items(MenuTarget::File, &context(None, true, false, &[]));
    assert_eq!(file[4], action("Save", "Ctrl+S", MenuCommand::Save));
    assert_eq!(keyboard_shortcut(KeyPress::Char('s'), true, false), Some(Shortcut::Save));
    let edit = menu_items(MenuTarget::Edit, &context(None, true, false, &[]));
    assert_eq!(edit[4], action("Delete Object", "Del", MenuCommand::DeleteObject));
    assert_eq!(keyboard_shortcut(KeyPress::Delete, false, false), Some(Shortcut::DeleteObject));
    let sim = menu_items(MenuTarget::Simulation, &context(None, false, false, &[]));
    assert_eq!(sim[0], action("> Run", "Space", MenuCommand::SimToggle));
    assert_eq!(keyboard_shortcut(KeyPress::Char(' '), false, false), Some(Shortcut::SimToggle));
}

#[test]
fn commands_and_shortcuts_send_messages() {
    let m: Option<CoreMsg<u8>> = command_message(&MenuCommand::SpawnObject);
    assert!(matches!(m, Some(CoreMsg::SpawnEntity)));
    let m: Option<CoreMsg<u8>> = command_message(&MenuCommand::DeleteObject);
    assert!(matches!(m, Some(CoreMsg::DeleteEntity)));
    let m: Option<CoreMsg<u8>> = command_message(&MenuCommand::Save);
    assert!(matches!(m, Some(CoreMsg::SaveFileDialog)));
    let m: Option<CoreMsg<u8>> = command_message(&MenuCommand::ApplyPreset("Water".to_string()));
    assert!(m.is_none());
    let m: CoreMsg<u8> = shortcut_message(Shortcut::CloseMenu);
    assert!(matches!(m, CoreMsg::MenuClose));
    let m: CoreMsg<u8> = shortcut_message(Shortcut::DeleteObject);
    assert!(matches!(m, CoreMsg::DeleteEntity));
    let m: CoreMsg<u8> = shortcut_message(Shortcut::Undo);
    assert!(matches!(m, CoreMsg::Undo));
}
