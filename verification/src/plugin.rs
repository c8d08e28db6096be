//! The component plugin manifest: which simulation components exist, how they
//! are shown and which tier they need.
use vstd::prelude::*;

verus! {

/// One component of the manifest.
#[derive(Debug, Clone)]
pub struct ComponentEntry {
    /// Crate and feature name.
    pub id: String,
    /// Display name.
    pub label: String,
    /// Subprocess binary name, without extension.
    pub binary: String,
    /// Minimum capability tier.
    pub min_tier: u32,
    /// Help text.
    pub description: String,
    /// Hidden and never launched when false.
    pub enabled: bool,
}

/// The loaded manifest.
#[derive(Debug)]
pub struct ComponentManifest {
    pub component: Vec<ComponentEntry>,
}

impl Default for ComponentManifest {
    /// A manifest without components (what a missing or broken file gives).
    fn default() -> (m: Self)
        ensures
            m.component@.len() == 0,
    {
        ComponentManifest { component: Vec::new() }
    }
}

} // verus!
