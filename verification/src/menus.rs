//! The contents of the application's drop-down menus, side panels and status
//! bar: which items each menu offers, with which labels and shortcuts, which
//! are greyed out, and what choosing one does; the rows of the outliner and
//! of the preset list; the labels of the timeline and the status bar.
use vstd::prelude::*;
use crate::app_state::{CoreMsg, MenuTarget};
use crate::text::ascii_lower;
use crate::ecs::EntityId;
use crate::scene::{ObjectMeta, Scene};
use crate::text::{decimal, owned, push_decimal};

verus! {

/// What choosing a menu item does.
#[derive(Debug, Clone, PartialEq, Eq)]
pub enum MenuCommand {
    NewScene,
    OpenFile,
    ImportFile,
    Save,
    Undo,
    Redo,
    SpawnObject,
    DeleteObject,
    SimToggle,
    SimStep,
    SimReset,
    /// Apply the material preset of this name to the selected object.
    ApplyPreset(String),
}

/// One row of an open menu.
#[derive(Debug, Clone, PartialEq, Eq)]
pub enum MenuItem {
    /// A choosable item: label, keyboard shortcut (empty for none), command.
    Action { label: String, shortcut: String, command: MenuCommand },
    /// A greyed-out item: label and shortcut (empty for none).
    Disabled { label: String, shortcut: String },
    /// A section heading.
    Heading(String),
    /// A dividing line.
    Separator,
}

/// A menu command as text-free data: the preset name as its characters.
pub enum CommandView {
    NewScene,
    OpenFile,
    ImportFile,
    Save,
    Undo,
    Redo,
    SpawnObject,
    DeleteObject,
    SimToggle,
    SimStep,
    SimReset,
    ApplyPreset(Seq<char>),
}

/// A menu row as data: labels and shortcuts as their characters.
pub enum ItemView {
    Action(Seq<char>, Seq<char>, CommandView),
    Disabled(Seq<char>, Seq<char>),
    Heading(Seq<char>),
    Separator,
}

/// The data of a command.
pub open spec fn command_view(c: MenuCommand) -> CommandView {
    match c {
        MenuCommand::NewScene => CommandView::NewScene,
        MenuCommand::OpenFile => CommandView::OpenFile,
        MenuCommand::ImportFile => CommandView::ImportFile,
        MenuCommand::Save => CommandView::Save,
        MenuCommand::Undo => CommandView::Undo,
        MenuCommand::Redo => CommandView::Redo,
        MenuCommand::SpawnObject => CommandView::SpawnObject,
        MenuCommand::DeleteObject => CommandView::DeleteObject,
        MenuCommand::SimToggle => CommandView::SimToggle,
        MenuCommand::SimStep => CommandView::SimStep,
        MenuCommand::SimReset => CommandView::SimReset,
        MenuCommand::ApplyPreset(n) => CommandView::ApplyPreset(n@),
    }
}

/// The data of a menu row.
pub open spec fn item_view(i: MenuItem) -> ItemView {
    match i {
        MenuItem::Action { label, shortcut, command } => ItemView::Action(
            label@,
            shortcut@,
            command_view(command),
        ),
        MenuItem::Disabled { label, shortcut } => ItemView::Disabled(label@, shortcut@),
        MenuItem::Heading(t) => ItemView::Heading(t@),
        MenuItem::Separator => ItemView::Separator,
    }
}

/// The data of a list of menu rows.
pub open spec fn items_view(s: Seq<MenuItem>) -> Seq<ItemView> {
    s.map_values(|i: MenuItem| item_view(i))
}

/// What the menus depend on: the labels of the commands that can be undone
/// and redone next (none when there is nothing), whether an object is
/// selected, whether the simulation runs, and the names of the presets.
pub struct MenuContext {
    pub undo_label: Option<String>,
    pub redo_label: Option<String>,
    pub has_selection: bool,
    pub running: bool,
    pub presets: Vec<String>,
}

/// The preset rows of the simulation menu, one per preset name.
pub open spec fn preset_rows(names: Seq<String>) -> Seq<ItemView> {
    names.map_values(
        |n: String|
            ItemView::Action(
                "Apply \""@ + n@ + "\""@,
                Seq::empty(),
                CommandView::ApplyPreset(n@),
            ),
    )
}

/// The rows of menu `t` in context `c`.
pub open spec fn menu_rows(t: MenuTarget, c: MenuContext) -> Seq<ItemView> {
    match t {
        MenuTarget::File => seq![
            ItemView::Action("New Scene"@, "Ctrl+N"@, CommandView::NewScene),
            ItemView::Action("Open..."@, "Ctrl+O"@, CommandView::OpenFile),
            ItemView::Action("Import..."@, "Ctrl+I"@, CommandView::ImportFile),
            ItemView::Separator,
            ItemView::Action("Save"@, "Ctrl+S"@, CommandView::Save),
            ItemView::Action("Save As..."@, Seq::empty(), CommandView::Save),
        ],
        MenuTarget::Edit => seq![
            match c.undo_label {
                Some(l) => ItemView::Action("Undo "@ + l@, "Ctrl+Z"@, CommandView::Undo),
                None => ItemView::Disabled("Undo"@, "Ctrl+Z"@),
            },
            match c.redo_label {
                Some(l) => ItemView::Action("Redo "@ + l@, "Ctrl+Y"@, CommandView::Redo),
                None => ItemView::Disabled("Redo"@, "Ctrl+Y"@),
            },
            ItemView::Separator,
            ItemView::Action("Spawn Object"@, Seq::empty(), CommandView::SpawnObject),
            if c.has_selection {
                ItemView::Action("Delete Object"@, "Del"@, CommandView::DeleteObject)
            } else {
                ItemView::Disabled("Delete Object"@, "Del"@)
            },
        ],
        MenuTarget::Simulation => seq![
            ItemView::Action(
                if c.running {
                    "|| Pause"@
                } else {
                    "> Run"@
                },
                "Space"@,
                CommandView::SimToggle,
            ),
            ItemView::Action(">> Step"@, Seq::empty(), CommandView::SimStep),
            ItemView::Action("[] Reset"@, Seq::empty(), CommandView::SimReset),
            ItemView::Separator,
            ItemView::Heading("Material presets:"@),
        ] + if c.presets@.len() == 0 {
            seq![ItemView::Disabled("No presets loaded"@, Seq::empty())]
        } else {
            preset_rows(c.presets@)
        },
        MenuTarget::View => seq![
            ItemView::Disabled("Grid (always on)"@, Seq::empty()),
            ItemView::Disabled("Axes (always on)"@, Seq::empty()),
            ItemView::Separator,
            ItemView::Disabled("Detach Panel (v2)"@, Seq::empty()),
            ItemView::Disabled("Reset Layout (v2)"@, Seq::empty()),
        ],
        MenuTarget::Help => seq![
            ItemView::Disabled("Documentation (v2)"@, Seq::empty()),
            ItemView::Disabled("Report Issue (v2)"@, Seq::empty()),
            ItemView::Separator,
            ItemView::Disabled("About Fluid"@, Seq::empty()),
        ],
    }
}

fn action(label: String, shortcut: &str, command: MenuCommand) -> (i: MenuItem)
    ensures
        item_view(i) == ItemView::Action(label@, shortcut@, command_view(command)),
{
    MenuItem::Action { label, shortcut: owned(shortcut), command }
}

fn disabled(label: &str, shortcut: &str) -> (i: MenuItem)
    ensures
        item_view(i) == ItemView::Disabled(label@, shortcut@),
{
    MenuItem::Disabled { label: owned(label), shortcut: owned(shortcut) }
}

fn prefixed(prefix: &str, s: &String) -> (r: String)
    ensures
        r@ == prefix@ + s@,
{
    let mut r = owned(prefix);
    r.append(s.as_str());
    r
}

proof fn lemma_empty_text()
    ensures
        ""@ == Seq::<char>::empty(),
{
    reveal_strlit("");
}

/// The rows of menu `t` in context `c`.
pub fn menu_items(t: MenuTarget, c: &MenuContext) -> (r: Vec<MenuItem>)
    ensures
        items_view(r@) == menu_rows(t, *c),
{
    proof {
        lemma_empty_text();
    }
    let mut r: Vec<MenuItem> = Vec::new();
    match t {
        MenuTarget::File => {
            r.push(action(owned("New Scene"), "Ctrl+N", MenuCommand::NewScene));
            r.push(action(owned("Open..."), "Ctrl+O", MenuCommand::OpenFile));
            r.push(action(owned("Import..."), "Ctrl+I", MenuCommand::ImportFile));
            r.push(MenuItem::Separator);
            r.push(action(owned("Save"), "Ctrl+S", MenuCommand::Save));
            r.push(action(owned("Save As..."), "", MenuCommand::Save));
        },
        MenuTarget::Edit => {
            match &c.undo_label {
                Some(l) => r.push(action(prefixed("Undo ", l), "Ctrl+Z", MenuCommand::Undo)),
                None => r.push(disabled("Undo", "Ctrl+Z")),
            }
            match &c.redo_label {
                Some(l) => r.push(action(prefixed("Redo ", l), "Ctrl+Y", MenuCommand::Redo)),
                None => r.push(disabled("Redo", "Ctrl+Y")),
            }
            r.push(MenuItem::Separator);
            r.push(action(owned("Spawn Object"), "", MenuCommand::SpawnObject));
            if c.has_selection {
                r.push(action(owned("Delete Object"), "Del", MenuCommand::DeleteObject));
            } else {
                r.push(disabled("Delete Object", "Del"));
            }
        },
        MenuTarget::Simulation => {
            let play = if c.running {
                owned("|| Pause")
            } else {
                owned("> Run")
            };
            r.push(action(play, "Space", MenuCommand::SimToggle));
            r.push(action(owned(">> Step"), "", MenuCommand::SimStep));
            r.push(action(owned("[] Reset"), "", MenuCommand::SimReset));
            r.push(MenuItem::Separator);
            r.push(MenuItem::Heading(owned("Material presets:")));
            let ghost head = r@;
            if c.presets.len() == 0 {
                r.push(disabled("No presets loaded", ""));
                proof {
                    assert(items_view(r@) =~= items_view(head) + seq![
                        ItemView::Disabled("No presets loaded"@, Seq::empty()),
                    ]);
                }
            } else {
                let n = c.presets.len();
                let mut i: usize = 0;
                while i < n
                    invariant
                        n == c.presets@.len(),
                        i <= n,
                        items_view(r@) == items_view(head) + preset_rows(c.presets@.take(i as int)),
                    decreases n - i,
                {
                    let name = &c.presets[i];
                    let mut label = prefixed("Apply \"", name);
                    label.append("\"");
                    let item = action(label, "", MenuCommand::ApplyPreset(name.clone()));
                    let ghost before = r@;
                    r.push(item);
                    proof {
                        lemma_empty_text();
                        assert(items_view(r@) =~= items_view(before).push(item_view(item)));
                        assert(preset_rows(c.presets@.take(i + 1)) =~= preset_rows(
                            c.presets@.take(i as int),
                        ).push(item_view(item)));
                    }
                    i = i + 1;
                }
                proof {
                    assert(c.presets@.take(n as int) =~= c.presets@);
                }
            }
        },
        MenuTarget::View => {
            r.push(disabled("Grid (always on)", ""));
            r.push(disabled("Axes (always on)", ""));
            r.push(MenuItem::Separator);
            r.push(disabled("Detach Panel (v2)", ""));
            r.push(disabled("Reset Layout (v2)", ""));
        },
        MenuTarget::Help => {
            r.push(disabled("Documentation (v2)", ""));
            r.push(disabled("Report Issue (v2)", ""));
            r.push(MenuItem::Separator);
            r.push(disabled("About Fluid", ""));
        },
    }
    proof {
        assert(items_view(r@) =~= menu_rows(t, *c));
    }
    r
}

// ── Side panels ──────────────────────────────────────────────────────────────

/// One row of the scene outliner.
#[derive(Debug, Clone, PartialEq, Eq)]
pub struct OutlinerRow {
    pub entity: EntityId,
    pub label: String,
    /// The row is the selected object.
    pub selected: bool,
}

/// The text of an outliner row: an arrow and the object's name, `Entity` for
/// an object without metadata.
pub open spec fn outliner_text(metas: Map<u64, ObjectMeta>, e: EntityId) -> Seq<char> {
    "  \u{25b8} "@ + if metas.contains_key(e.0) {
        metas[e.0].name@
    } else {
        "Entity"@
    }
}

/// The outliner rows: one per root object, in outliner order, the selected
/// one marked.
pub fn outliner_rows<V>(scene: &Scene<V>, selected: Option<EntityId>) -> (r: Vec<OutlinerRow>)
    ensures
        r@.len() == scene.roots().len(),
        forall|i: int|
            0 <= i < r@.len() ==> {
                let e = scene.roots()[i];
                &&& (#[trigger] r@[i]).entity == e
                &&& r@[i].label@ == outliner_text(scene.metas(), e)
                &&& r@[i].selected == (selected == Some(e))
            },
{
    let roots = scene.root_entities();
    let n = roots.len();
    let mut r: Vec<OutlinerRow> = Vec::new();
    let mut i: usize = 0;
    while i < n
        invariant
            n == roots@.len(),
            roots@ == scene.roots(),
            i <= n,
            r@.len() == i,
            forall|k: int|
                0 <= k < i ==> {
                    let e = scene.roots()[k];
                    &&& (#[trigger] r@[k]).entity == e
                    &&& r@[k].label@ == outliner_text(scene.metas(), e)
                    &&& r@[k].selected == (selected == Some(e))
                },
        decreases n - i,
    {
        let e = roots[i];
        let mut label = owned("  \u{25b8} ");
        match scene.meta(e) {
            Some(m) => label.append(m.name.as_str()),
            None => label.append("Entity"),
        }
        let is_selected = match selected {
            Some(s) => s == e,
            None => false,
        };
        r.push(OutlinerRow { entity: e, label, selected: is_selected });
        i = i + 1;
    }
    r
}

/// The outliner's text when the scene holds no object.
pub fn empty_outliner_text() -> (r: &'static str)
    ensures
        r@ == "No objects in scene."@,
{
    "No objects in scene."
}

/// The properties panel's hint while no object is selected.
pub fn no_selection_text() -> (r: &'static str)
    ensures
        r@ == "Select an object to view its properties."@,
{
    "Select an object to view its properties."
}

/// A position with the coordinate on axis `axis` (0, 1, 2 for X, Y, Z)
/// replaced by `v`, as a position field of the properties panel edits it.
pub fn with_axis<T: Copy>(pos: [T; 3], axis: usize, v: T) -> (r: [T; 3])
    requires
        axis < 3,
    ensures
        r@ == pos@.update(axis as int, v),
{
    let mut r = pos;
    r.set(axis, v);
    r
}

/// One button of the simulation panel's preset list.
#[derive(Debug, Clone, PartialEq, Eq)]
pub struct PresetButton {
    pub name: String,
    /// The button can be pressed: an object is selected.
    pub enabled: bool,
}

/// The preset buttons of the simulation panel, one per preset name, enabled
/// exactly while an object is selected.
pub fn preset_buttons(names: &Vec<String>, has_selection: bool) -> (r: Vec<PresetButton>)
    ensures
        r@.len() == names@.len(),
        forall|i: int|
            0 <= i < r@.len() ==> (#[trigger] r@[i]).name@ == names@[i]@ && r@[i].enabled
                == has_selection,
{
    let n = names.len();
    let mut r: Vec<PresetButton> = Vec::new();
    let mut i: usize = 0;
    while i < n
        invariant
            n == names@.len(),
            i <= n,
            r@.len() == i,
            forall|k: int|
                0 <= k < i ==> (#[trigger] r@[k]).name@ == names@[k]@ && r@[k].enabled
                    == has_selection,
        decreases n - i,
    {
        let name = names[i].clone();
        r.push(PresetButton { name, enabled: has_selection });
        i = i + 1;
    }
    r
}

// ── Timeline and status bar ──────────────────────────────────────────────────

/// The play button of the timeline: a pause sign while running, a play sign
/// otherwise.
pub fn play_glyph(running: bool) -> (r: &'static str)
    ensures
        r@ == if running {
            "\u{23f8}"@
        } else {
            "\u{25b6}"@
        },
{
    if running {
        "\u{23f8}"
    } else {
        "\u{25b6}"
    }
}

/// The tick counter of the timeline: `#<tick>`.
pub fn tick_label(tick: u64) -> (r: String)
    ensures
        r@ == "#"@ + decimal(tick as nat),
{
    let mut r = owned("#");
    push_decimal(&mut r, tick);
    r
}

/// The tier of the status bar: `Tier <n>`, or `Tier ?` while the state
/// snapshot cannot be read.
pub fn tier_label(tier: Option<u32>) -> (r: String)
    ensures
        r@ == match tier {
            Some(t) => "Tier "@ + decimal(t as nat),
            None => "Tier ?"@,
        },
{
    match tier {
        Some(t) => {
            let mut r = owned("Tier ");
            push_decimal(&mut r, t as u64);
            r
        },
        None => owned("Tier ?"),
    }
}

// ── Menu bar and keyboard ────────────────────────────────────────────────────

/// One button of the menu bar: its label, the menu it opens, and whether that
/// menu is the open one (drawn highlighted).
#[derive(Debug, Clone, PartialEq, Eq)]
pub struct MenuButton {
    pub label: String,
    pub target: MenuTarget,
    pub open: bool,
}

/// The menus of the bar, left to right, with their labels.
pub open spec fn menu_bar_targets() -> Seq<(Seq<char>, MenuTarget)> {
    seq![
        ("File"@, MenuTarget::File),
        ("Edit"@, MenuTarget::Edit),
        ("Simulation"@, MenuTarget::Simulation),
        ("View"@, MenuTarget::View),
        ("Help"@, MenuTarget::Help),
    ]
}

fn menu_button(label: &str, target: MenuTarget, open: Option<MenuTarget>) -> (b: MenuButton)
    ensures
        b.label@ == label@,
        b.target == target,
        b.open == (open == Some(target)),
{
    let is_open = match open {
        Some(t) => t == target,
        None => false,
    };
    MenuButton { label: owned(label), target, open: is_open }
}

/// The buttons of the menu bar, the open menu's highlighted.
pub fn menu_bar(open: Option<MenuTarget>) -> (r: Vec<MenuButton>)
    ensures
        r@.len() == 5,
        forall|i: int|
            0 <= i < 5 ==> (#[trigger] r@[i]).label@ == menu_bar_targets()[i].0 && r@[i].target
                == menu_bar_targets()[i].1 && r@[i].open == (open == Some(r@[i].target)),
{
    let r = vec![
        menu_button("File", MenuTarget::File, open),
        menu_button("Edit", MenuTarget::Edit, open),
        menu_button("Simulation", MenuTarget::Simulation, open),
        menu_button("View", MenuTarget::View, open),
        menu_button("Help", MenuTarget::Help, open),
    ];
    r
}

/// The scene title at the right of the menu bar: the scene's name, with a dot
/// while it has unsaved changes.
pub fn scene_title(name: &str, dirty: bool) -> (r: String)
    ensures
        r@ == "  "@ + name@ + (if dirty {
            " \u{25cf}"@
        } else {
            ""@
        }) + "  "@,
{
    let mut r = owned("  ");
    r.append(name);
    if dirty {
        r.append(" \u{25cf}");
    } else {
        r.append("");
    }
    r.append("  ");
    r
}

/// The menu bar's title while no scene is open.
pub fn no_scene_title() -> (r: &'static str)
    ensures
        r@ == "  Fluid  "@,
{
    "  Fluid  "
}

/// A key press as the keyboard handler sees it.
#[derive(Debug, Clone, Copy, PartialEq, Eq, Structural)]
pub enum KeyPress {
    /// A key that types this character.
    Char(char),
    Delete,
    Escape,
    Other,
}

/// What a keyboard shortcut does.
#[derive(Debug, Clone, Copy, PartialEq, Eq, Structural)]
pub enum Shortcut {
    NewScene,
    OpenFile,
    ImportFile,
    Save,
    Undo,
    Redo,
    DeleteObject,
    CloseMenu,
    SimToggle,
}

/// The shortcut of a key press, with the command key (Ctrl) and shift held or
/// not: Ctrl+Z undoes (redoes with shift), Ctrl+Y redoes, Ctrl+N, Ctrl+O,
/// Ctrl+S and Ctrl+I make, open, save and import scenes; without Ctrl, Delete
/// deletes the selected object, Escape closes the menus and the space bar
/// runs or pauses the simulation.
pub open spec fn shortcut_of(key: KeyPress, command: bool, shift: bool) -> Option<Shortcut> {
    if command {
        match key {
            KeyPress::Char('z') => if shift {
                Some(Shortcut::Redo)
            } else {
                Some(Shortcut::Undo)
            },
            KeyPress::Char('y') => Some(Shortcut::Redo),
            KeyPress::Char('n') => Some(Shortcut::NewScene),
            KeyPress::Char('o') => Some(Shortcut::OpenFile),
            KeyPress::Char('s') => Some(Shortcut::Save),
            KeyPress::Char('i') => Some(Shortcut::ImportFile),
            _ => None,
        }
    } else {
        match key {
            KeyPress::Delete => Some(Shortcut::DeleteObject),
            KeyPress::Escape => Some(Shortcut::CloseMenu),
            KeyPress::Char(' ') => Some(Shortcut::SimToggle),
            _ => None,
        }
    }
}

/// The shortcut of a key press.
pub fn keyboard_shortcut(key: KeyPress, command: bool, shift: bool) -> (r: Option<Shortcut>)
    ensures
        r == shortcut_of(key, command, shift),
{
    if command {
        match key {
            KeyPress::Char('z') => if shift {
                Some(Shortcut::Redo)
            } else {
                Some(Shortcut::Undo)
            },
            KeyPress::Char('y') => Some(Shortcut::Redo),
            KeyPress::Char('n') => Some(Shortcut::NewScene),
            KeyPress::Char('o') => Some(Shortcut::OpenFile),
            KeyPress::Char('s') => Some(Shortcut::Save),
            KeyPress::Char('i') => Some(Shortcut::ImportFile),
            _ => None,
        }
    } else {
        match key {
            KeyPress::Delete => Some(Shortcut::DeleteObject),
            KeyPress::Escape => Some(Shortcut::CloseMenu),
            KeyPress::Char(' ') => Some(Shortcut::SimToggle),
            _ => None,
        }
    }
}

/// The keys a shortcut label names, with whether Ctrl is part of it:
/// `Ctrl+<letter>`, `Del` or `Space`.
pub open spec fn shown_key(label: Seq<char>) -> Option<(KeyPress, bool)> {
    if label.len() == 6 && label.subrange(0, 5) == "Ctrl+"@ {
        Some((KeyPress::Char(ascii_lower(label[5])), true))
    } else if label == "Del"@ {
        Some((KeyPress::Delete, false))
    } else if label == "Space"@ {
        Some((KeyPress::Char(' '), false))
    } else {
        None
    }
}

/// The message choosing a menu command sends; applying a preset sends the
/// preset the caller looks up by name, so it has none here.
pub open spec fn command_msg<V>(c: CommandView) -> Option<CoreMsg<V>> {
    match c {
        CommandView::NewScene => Some(CoreMsg::NewScene),
        CommandView::OpenFile => Some(CoreMsg::OpenFileDialog),
        CommandView::ImportFile => Some(CoreMsg::ImportFileDialog),
        CommandView::Save => Some(CoreMsg::SaveFileDialog),
        CommandView::Undo => Some(CoreMsg::Undo),
        CommandView::Redo => Some(CoreMsg::Redo),
        CommandView::SpawnObject => Some(CoreMsg::SpawnEntity),
        CommandView::DeleteObject => Some(CoreMsg::DeleteEntity),
        CommandView::SimToggle => Some(CoreMsg::SimToggle),
        CommandView::SimStep => Some(CoreMsg::SimStep),
        CommandView::SimReset => Some(CoreMsg::SimReset),
        CommandView::ApplyPreset(_) => None,
    }
}

/// The message a menu command sends (none for a preset, which the caller
/// looks up by name).
pub fn command_message<V>(c: &MenuCommand) -> (m: Option<CoreMsg<V>>)
    ensures
        m == command_msg::<V>(command_view(*c)),
{
    match c {
        MenuCommand::NewScene => Some(CoreMsg::NewScene),
        MenuCommand::OpenFile => Some(CoreMsg::OpenFileDialog),
        MenuCommand::ImportFile => Some(CoreMsg::ImportFileDialog),
        MenuCommand::Save => Some(CoreMsg::SaveFileDialog),
        MenuCommand::Undo => Some(CoreMsg::Undo),
        MenuCommand::Redo => Some(CoreMsg::Redo),
        MenuCommand::SpawnObject => Some(CoreMsg::SpawnEntity),
        MenuCommand::DeleteObject => Some(CoreMsg::DeleteEntity),
        MenuCommand::SimToggle => Some(CoreMsg::SimToggle),
        MenuCommand::SimStep => Some(CoreMsg::SimStep),
        MenuCommand::SimReset => Some(CoreMsg::SimReset),
        MenuCommand::ApplyPreset(_) => None,
    }
}

/// The message a keyboard shortcut sends.
pub open spec fn shortcut_msg<V>(s: Shortcut) -> CoreMsg<V> {
    match s {
        Shortcut::NewScene => CoreMsg::NewScene,
        Shortcut::OpenFile => CoreMsg::OpenFileDialog,
        Shortcut::ImportFile => CoreMsg::ImportFileDialog,
        Shortcut::Save => CoreMsg::SaveFileDialog,
        Shortcut::Undo => CoreMsg::Undo,
        Shortcut::Redo => CoreMsg::Redo,
        Shortcut::DeleteObject => CoreMsg::DeleteEntity,
        Shortcut::CloseMenu => CoreMsg::MenuClose,
        Shortcut::SimToggle => CoreMsg::SimToggle,
    }
}

/// The message a keyboard shortcut sends.
pub fn shortcut_message<V>(s: Shortcut) -> (m: CoreMsg<V>)
    ensures
        m == shortcut_msg::<V>(s),
{
    match s {
        Shortcut::NewScene => CoreMsg::NewScene,
        Shortcut::OpenFile => CoreMsg::OpenFileDialog,
        Shortcut::ImportFile => CoreMsg::ImportFileDialog,
        Shortcut::Save => CoreMsg::SaveFileDialog,
        Shortcut::Undo => CoreMsg::Undo,
        Shortcut::Redo => CoreMsg::Redo,
        Shortcut::DeleteObject => CoreMsg::DeleteEntity,
        Shortcut::CloseMenu => CoreMsg::MenuClose,
        Shortcut::SimToggle => CoreMsg::SimToggle,
    }
}

/// The shortcut that gives a menu command, if one does.
pub open spec fn command_shortcut(c: CommandView) -> Option<Shortcut> {
    match c {
        CommandView::NewScene => Some(Shortcut::NewScene),
        CommandView::OpenFile => Some(Shortcut::OpenFile),
        CommandView::ImportFile => Some(Shortcut::ImportFile),
        CommandView::Save => Some(Shortcut::Save),
        CommandView::Undo => Some(Shortcut::Undo),
        CommandView::Redo => Some(Shortcut::Redo),
        CommandView::DeleteObject => Some(Shortcut::DeleteObject),
        CommandView::SimToggle => Some(Shortcut::SimToggle),
        _ => None,
    }
}

/// The shortcut a menu item shows is the one the keyboard honours: pressing
/// the keys of a choosable item's shortcut label gives that item's command,
/// and sends the message that choosing the item sends.
pub proof fn lemma_shown_shortcuts_work<V>(t: MenuTarget, c: MenuContext, i: int)
    requires
        0 <= i < menu_rows(t, c).len(),
    ensures
        menu_rows(t, c)[i] matches ItemView::Action(_, sc, cmd) ==> (sc.len() > 0 ==> {
            &&& shown_key(sc) matches Some((key, ctrl))
            &&& shortcut_of(key, ctrl, false) == command_shortcut(cmd)
            &&& command_shortcut(cmd) matches Some(s)
            &&& command_msg::<V>(cmd) == Some(shortcut_msg::<V>(s))
        }),
{
    reveal_strlit("Ctrl+N");
    reveal_strlit("Ctrl+O");
    reveal_strlit("Ctrl+I");
    reveal_strlit("Ctrl+S");
    reveal_strlit("Ctrl+Z");
    reveal_strlit("Ctrl+Y");
    reveal_strlit("Ctrl+");
    reveal_strlit("Del");
    reveal_strlit("Space");
    reveal_strlit("");
    assert("Ctrl+N"@.subrange(0, 5) =~= "Ctrl+"@);
    assert("Ctrl+O"@.subrange(0, 5) =~= "Ctrl+"@);
    assert("Ctrl+I"@.subrange(0, 5) =~= "Ctrl+"@);
    assert("Ctrl+S"@.subrange(0, 5) =~= "Ctrl+"@);
    assert("Ctrl+Z"@.subrange(0, 5) =~= "Ctrl+"@);
    assert("Ctrl+Y"@.subrange(0, 5) =~= "Ctrl+"@);
    if t == MenuTarget::Simulation && i >= 5 {
        let head = seq![
            ItemView::Action(
                if c.running {
                    "|| Pause"@
                } else {
                    "> Run"@
                },
                "Space"@,
                CommandView::SimToggle,
            ),
            ItemView::Action(">> Step"@, Seq::empty(), CommandView::SimStep),
            ItemView::Action("[] Reset"@, Seq::empty(), CommandView::SimReset),
            ItemView::Separator,
            ItemView::Heading("Material presets:"@),
        ];
        if c.presets@.len() > 0 {
            assert(menu_rows(t, c)[i] == preset_rows(c.presets@)[i - 5]);
        }
    }
}

/// The object count of the status bar: `1 object`, else `<n> objects`.
pub open spec fn objects_text(n: nat) -> Seq<char> {
    decimal(n) + if n == 1 {
        " object"@
    } else {
        " objects"@
    }
}

/// The object count of the status bar.
pub fn objects_label(n: u64) -> (r: String)
    ensures
        r@ == objects_text(n as nat),
{
    let mut r = String::new();
    push_decimal(&mut r, n);
    if n == 1 {
        r.append(" object");
    } else {
        r.append(" objects");
    }
    r
}

/// The frame counter of the status bar: `Frame <n>`.
pub fn frame_label(n: u64) -> (r: String)
    ensures
        r@ == "Frame "@ + decimal(n as nat),
{
    let mut r = owned("Frame ");
    push_decimal(&mut r, n);
    r
}

/// The simulation state of the status bar.
pub fn sim_label(running: bool) -> (r: &'static str)
    ensures
        r@ == if running {
            "\u{25b6} Running"@
        } else {
            "\u{23f8} Paused"@
        },
{
    if running {
        "\u{25b6} Running"
    } else {
        "\u{23f8} Paused"
    }
}

/// The hint of the simulation panel.
pub fn preset_hint(has_selection: bool) -> (r: &'static str)
    ensures
        r@ == if has_selection {
            "Click preset to apply to selected object."@
        } else {
            "Select an object to apply a preset."@
        },
{
    if has_selection {
        "Click preset to apply to selected object."
    } else {
        "Select an object to apply a preset."
    }
}

} // verus!
