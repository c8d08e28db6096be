//! Panel identities of the tiled layout and the colour palette of the dark
//! theme.
use vstd::prelude::*;

verus! {

/// Panel identity in the tiled layout.
#[derive(Debug, Clone, Copy, PartialEq, Eq, Structural)]
pub enum Panel {
    SceneOutliner,
    Viewport3D,
    Properties,
    SimSetup,
    Timeline,
}

/// The title shown in a panel's header bar.
pub open spec fn panel_title(p: Panel) -> Seq<char> {
    match p {
        Panel::SceneOutliner => "Scene"@,
        Panel::Viewport3D => "Viewport"@,
        Panel::Properties => "Properties"@,
        Panel::SimSetup => "Simulation"@,
        Panel::Timeline => "Timeline"@,
    }
}

impl Panel {
    /// The human-readable panel title for the header bar.
    pub fn title(&self) -> (r: &'static str)
        ensures
            r@ == panel_title(*self),
    {
        match self {
            Panel::SceneOutliner => "Scene",
            Panel::Viewport3D => "Viewport",
            Panel::Properties => "Properties",
            Panel::SimSetup => "Simulation",
            Panel::Timeline => "Timeline",
        }
    }
}

/// Main background, the darkest surface: #0f0f13.
pub const BG_BASE: [u8; 3] = [0x0f, 0x0f, 0x13];

/// Card and panel surface: #1a1a24.
pub const BG_SURFACE: [u8; 3] = [0x1a, 0x1a, 0x24];

/// Border and separator: #2d2d3d.
pub const BORDER: [u8; 3] = [0x2d, 0x2d, 0x3d];

/// Primary accent, indigo: #6366f1.
pub const ACCENT: [u8; 3] = [0x63, 0x66, 0xf1];

/// Success: #22c55e.
pub const SUCCESS: [u8; 3] = [0x22, 0xc5, 0x5e];

/// Warning: #f59e0b.
pub const WARNING: [u8; 3] = [0xf5, 0x9e, 0x0b];

/// Error: #ef4444.
pub const ERROR: [u8; 3] = [0xef, 0x44, 0x44];

/// Primary text: #e2e8f0.
pub const TEXT: [u8; 3] = [0xe2, 0xe8, 0xf0];

/// Muted text: #8892a4.
pub const TEXT_MUTED: [u8; 3] = [0x88, 0x92, 0xa4];

/// The application's colour palette, as RGB triples.
#[derive(Debug, Clone, Copy)]
pub struct Palette {
    pub bg_base: [u8; 3],
    pub bg_surface: [u8; 3],
    pub border: [u8; 3],
    pub accent: [u8; 3],
    pub success: [u8; 3],
    pub warning: [u8; 3],
    pub error: [u8; 3],
    pub text: [u8; 3],
    pub text_muted: [u8; 3],
}

/// The dark palette: every colour is its named constant.
pub open spec fn is_dark_palette(p: Palette) -> bool {
    &&& p.bg_base@ == seq![0x0fu8, 0x0fu8, 0x13u8]
    &&& p.bg_surface@ == seq![0x1au8, 0x1au8, 0x24u8]
    &&& p.border@ == seq![0x2du8, 0x2du8, 0x3du8]
    &&& p.accent@ == seq![0x63u8, 0x66u8, 0xf1u8]
    &&& p.success@ == seq![0x22u8, 0xc5u8, 0x5eu8]
    &&& p.warning@ == seq![0xf5u8, 0x9eu8, 0x0bu8]
    &&& p.error@ == seq![0xefu8, 0x44u8, 0x44u8]
    &&& p.text@ == seq![0xe2u8, 0xe8u8, 0xf0u8]
    &&& p.text_muted@ == seq![0x88u8, 0x92u8, 0xa4u8]
}

impl Default for Palette {
    /// The dark palette.
    fn default() -> (p: Self)
        ensures
            is_dark_palette(p),
    {
        let p = Palette {
            bg_base: BG_BASE,
            bg_surface: BG_SURFACE,
            border: BORDER,
            accent: ACCENT,
            success: SUCCESS,
            warning: WARNING,
            error: ERROR,
            text: TEXT,
            text_muted: TEXT_MUTED,
        };
        assert(p.bg_base@ =~= seq![0x0fu8, 0x0fu8, 0x13u8]);
        assert(p.bg_surface@ =~= seq![0x1au8, 0x1au8, 0x24u8]);
        assert(p.border@ =~= seq![0x2du8, 0x2du8, 0x3du8]);
        assert(p.accent@ =~= seq![0x63u8, 0x66u8, 0xf1u8]);
        assert(p.success@ =~= seq![0x22u8, 0xc5u8, 0x5eu8]);
        assert(p.warning@ =~= seq![0xf5u8, 0x9eu8, 0x0bu8]);
        assert(p.error@ =~= seq![0xefu8, 0x44u8, 0x44u8]);
        assert(p.text@ =~= seq![0xe2u8, 0xe8u8, 0xf0u8]);
        assert(p.text_muted@ =~= seq![0x88u8, 0x92u8, 0xa4u8]);
        p
    }
}

/// Theme state: the palette.
#[derive(Debug, Clone, Copy)]
pub struct AppTheme {
    pub palette: Palette,
}

impl AppTheme {
    /// The dark theme.
    pub fn dark() -> (t: Self)
        ensures
            is_dark_palette(t.palette),
    {
        AppTheme { palette: Palette::default() }
    }
}

impl Default for AppTheme {
    /// The dark theme.
    fn default() -> (t: Self)
        ensures
            is_dark_palette(t.palette),
    {
        AppTheme::dark()
    }
}

} // verus!
