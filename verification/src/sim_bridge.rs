//! Simulation tiers: which one runs and where the binary of each lives.
use vstd::prelude::*;

verus! {

/// Simulation execution tier.
#[derive(Debug, Clone, Copy, PartialEq, Eq, Structural)]
pub enum SimTier {
    /// In-process thread pool; always available.
    Tier0,
    /// Subprocess.
    Tier1,
    /// Subprocess.
    Tier2,
    /// Subprocess on a compute cluster.
    Tier3,
}

/// The active tier, if one was chosen.
#[derive(Debug)]
pub struct SimBridge {
    pub active_tier: Option<SimTier>,
}

impl Default for SimBridge {
    /// No tier chosen.
    fn default() -> (b: Self)
        ensures
            b.active_tier is None,
    {
        SimBridge { active_tier: None }
    }
}

/// The highest tier the hardware supports; detection is not implemented, so
/// this is the always-available Tier 0.
pub fn detect_tier() -> (t: SimTier)
    ensures
        t == SimTier::Tier0,
{
    SimTier::Tier0
}

/// The directory name under `bin/` that holds a tier's binary.
pub open spec fn tier_dir_name(t: SimTier) -> Seq<char> {
    match t {
        SimTier::Tier0 => "tier0"@,
        SimTier::Tier1 => "tier1"@,
        SimTier::Tier2 => "tier2"@,
        SimTier::Tier3 => "tier3"@,
    }
}

/// The directory name under `bin/` that holds a tier's binary.
pub fn tier_dir(t: SimTier) -> (r: &'static str)
    ensures
        r@ == tier_dir_name(t),
{
    match t {
        SimTier::Tier0 => "tier0",
        SimTier::Tier1 => "tier1",
        SimTier::Tier2 => "tier2",
        SimTier::Tier3 => "tier3",
    }
}

} // verus!
