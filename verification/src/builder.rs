//! Build orchestration: flag configuration, the cargo invocation a flag and
//! component selection amounts to, the build session state and its output
//! buffer, component dependency checks, and elapsed-time display.
use vstd::prelude::*;
use crate::text::{decimal, owned, push_char, push_decimal, str_eq, str_starts_with};

verus! {

// ── Flags ────────────────────────────────────────────────────────────────────

/// One flag of the builder's flag file.
#[derive(Debug, Clone)]
pub struct FlagEntry {
    /// Machine name: env var name, cargo flag or feature name.
    pub name: String,
    /// Kind: "env", "cargo_flag" or "feature".
    pub kind: String,
    /// Label shown in the UI.
    pub label: String,
    /// Tooltip text.
    pub description: String,
    /// Render type: "select", "bool" or "string".
    pub flag_type: String,
    /// Allowed values for "select".
    pub options: Vec<String>,
    /// Default value.
    pub default: String,
}

/// Two flag entries hold the same texts.
pub open spec fn same_entry(a: FlagEntry, b: FlagEntry) -> bool {
    &&& a.name == b.name
    &&& a.kind == b.kind
    &&& a.label == b.label
    &&& a.description == b.description
    &&& a.flag_type == b.flag_type
    &&& a.options@ == b.options@
    &&& a.default == b.default
}

impl FlagEntry {
    /// A copy of the entry.
    pub fn clone_entry(&self) -> (c: Self)
        ensures
            same_entry(c, *self),
    {
        FlagEntry {
            name: self.name.clone(),
            kind: self.kind.clone(),
            label: self.label.clone(),
            description: self.description.clone(),
            flag_type: self.flag_type.clone(),
            options: clone_strings(&self.options),
            default: self.default.clone(),
        }
    }
}

/// A copy of a list of strings.
pub fn clone_strings(v: &Vec<String>) -> (r: Vec<String>)
    ensures
        r@ == v@,
{
    let mut r: Vec<String> = Vec::new();
    let mut i: usize = 0;
    while i < v.len()
        invariant
            i <= v@.len(),
            r@ == v@.take(i as int),
        decreases v@.len() - i,
    {
        r.push(v[i].clone());
        proof {
            assert(r@ =~= v@.take(i + 1));
        }
        i = i + 1;
    }
    proof {
        assert(v@.take(v@.len() as int) =~= v@);
    }
    r
}

/// The parsed flag file.
#[derive(Debug, Clone)]
pub struct BuilderConfig {
    pub flags: Vec<FlagEntry>,
}

impl BuilderConfig {
    /// A configuration without flags, so the UI can start without a flag file.
    pub fn empty() -> (c: BuilderConfig)
        ensures
            c.flags@.len() == 0,
    {
        BuilderConfig { flags: Vec::new() }
    }
}

/// A flag with the value the user has entered.
#[derive(Debug, Clone)]
pub struct FlagState {
    pub entry: FlagEntry,
    pub current_value: String,
}

impl FlagState {
    /// A flag whose current value is its default.
    pub fn from_entry(entry: FlagEntry) -> (s: Self)
        ensures
            s.entry == entry,
            s.current_value == entry.default,
    {
        let current_value = entry.default.clone();
        FlagState { entry, current_value }
    }
}

// ── Components ───────────────────────────────────────────────────────────────

/// A selectable simulation component.
#[derive(Debug, Clone)]
pub struct ComponentEntry {
    /// Feature name.
    pub name: String,
    /// Label shown in the UI.
    pub label: String,
    /// Feature names this component requires.
    pub requirements: Vec<String>,
    pub selected: bool,
}

fn component(name: &str, label: &str) -> (c: ComponentEntry)
    ensures
        c.name@ == name@,
        c.label@ == label@,
        c.requirements@.len() == 0,
        !c.selected,
{
    ComponentEntry { name: owned(name), label: owned(label), requirements: Vec::new(), selected: false }
}

/// The five simulation components, none selected and without requirements.
pub fn default_components() -> (r: Vec<ComponentEntry>)
    ensures
        r@.len() == 5,
        r@[0].name@ == "fluid_simulator"@ && r@[0].label@ == "Fluid Simulator"@,
        r@[1].name@ == "aerodynamic_simulator"@ && r@[1].label@ == "Aerodynamic Simulator"@,
        r@[2].name@ == "motion_force_simulator"@ && r@[2].label@ == "Motion & Force Simulator"@,
        r@[3].name@ == "thermodynamic_simulator"@ && r@[3].label@ == "Thermodynamic Simulator"@,
        r@[4].name@ == "fem_structural"@ && r@[4].label@ == "FEM Structural"@,
        forall|i: int| 0 <= i < 5 ==> !(#[trigger] r@[i]).selected && r@[i].requirements@.len() == 0,
{
    let mut v: Vec<ComponentEntry> = Vec::new();
    v.push(component("fluid_simulator", "Fluid Simulator"));
    v.push(component("aerodynamic_simulator", "Aerodynamic Simulator"));
    v.push(component("motion_force_simulator", "Motion & Force Simulator"));
    v.push(component("thermodynamic_simulator", "Thermodynamic Simulator"));
    v.push(component("fem_structural", "FEM Structural"));
    v
}

/// `name` is selected: a selected component has that name, or the flag
/// selections mark it as on (the first entry for that name decides).
pub open spec fn is_selected(
    name: Seq<char>,
    flags: Seq<(String, bool)>,
    components: Seq<ComponentEntry>,
) -> bool {
    ||| exists|i: int|
        0 <= i < components.len() && components[i].selected && components[i].name@ == name
    ||| exists|i: int|
        0 <= i < flags.len() && flags[i].0@ == name && flags[i].1 && forall|j: int|
            0 <= j < i ==> flags[j].0@ != name
}

/// The requirements of a component that are not selected, in order.
pub open spec fn unmet(
    needed: Seq<String>,
    flags: Seq<(String, bool)>,
    components: Seq<ComponentEntry>,
) -> Seq<Seq<char>>
    decreases needed.len(),
{
    if needed.len() == 0 {
        Seq::empty()
    } else {
        unmet(needed.drop_last(), flags, components) + if is_selected(
            needed.last()@,
            flags,
            components,
        ) {
            Seq::empty()
        } else {
            seq![needed.last()@]
        }
    }
}

fn selected_by_flags(name: &String, flags: &Vec<(String, bool)>) -> (r: bool)
    ensures
        r == exists|i: int|
            0 <= i < flags@.len() && flags@[i].0@ == name@ && flags@[i].1 && forall|j: int|
                0 <= j < i ==> flags@[j].0@ != name@,
{
    let n = flags.len();
    let mut i: usize = 0;
    while i < n
        invariant
            n == flags@.len(),
            i <= n,
            forall|j: int| 0 <= j < i ==> flags@[j].0@ != name@,
        decreases n - i,
    {
        if str_eq(flags[i].0.as_str(), name.as_str()) {
            let r = flags[i].1;
            proof {
                if !r {
                    assert forall|k: int|
                        0 <= k < flags@.len() && flags@[k].0@ == name@ && flags@[k].1 implies !(
                        forall|j: int| 0 <= j < k ==> flags@[j].0@ != name@) by {
                        if k > i {
                            assert(flags@[i as int].0@ == name@);
                        }
                    }
                }
            }
            return r;
        }
        i = i + 1;
    }
    false
}

fn selected_component(name: &String, components: &Vec<ComponentEntry>) -> (r: bool)
    ensures
        r == exists|i: int|
            0 <= i < components@.len() && components@[i].selected && components@[i].name@
                == name@,
{
    let n = components.len();
    let mut i: usize = 0;
    while i < n
        invariant
            n == components@.len(),
            i <= n,
            forall|j: int|
                0 <= j < i ==> !(components@[j].selected && components@[j].name@ == name@),
        decreases n - i,
    {
        if components[i].selected && str_eq(components[i].name.as_str(), name.as_str()) {
            return true;
        }
        i = i + 1;
    }
    false
}

/// The requirements of `comp` that are neither a selected component nor a flag
/// switched on, in the order the component lists them.
pub fn blocked_by(
    comp: &ComponentEntry,
    flags: &Vec<(String, bool)>,
    components: &Vec<ComponentEntry>,
) -> (r: Vec<String>)
    ensures
        r@.map_values(|s: String| s@) == unmet(comp.requirements@, flags@, components@),
{
    let mut out: Vec<String> = Vec::new();
    let n = comp.requirements.len();
    let mut i: usize = 0;
    while i < n
        invariant
            n == comp.requirements@.len(),
            i <= n,
            out@.map_values(|s: String| s@) == unmet(comp.requirements@.take(i as int), flags@, components@),
        decreases n - i,
    {
        let req = &comp.requirements[i];
        let on = selected_component(req, components) || selected_by_flags(req, flags);
        if !on {
            out.push(req.clone());
        }
        proof {
            let t = comp.requirements@.take(i + 1);
            assert(t.drop_last() =~= comp.requirements@.take(i as int));
            assert(t.last() == comp.requirements@[i as int]);
            assert(out@.map_values(|s: String| s@) =~= unmet(t, flags@, components@));
        }
        i = i + 1;
    }
    assert(comp.requirements@.take(n as int) =~= comp.requirements@);
    out
}

/// The texts of `parts` joined with `sep` between consecutive ones.
pub open spec fn joined(parts: Seq<Seq<char>>, sep: Seq<char>) -> Seq<char>
    decreases parts.len(),
{
    if parts.len() == 0 {
        Seq::empty()
    } else if parts.len() == 1 {
        parts[0]
    } else {
        joined(parts.drop_last(), sep) + sep + parts.last()
    }
}

/// The strings of `parts` joined with `sep` (std's `join`).
pub fn join_strings(parts: &Vec<String>, sep: &str) -> (r: String)
    ensures
        r@ == joined(parts@.map_values(|s: String| s@), sep@),
{
    let ghost views = parts@.map_values(|s: String| s@);
    let mut r = String::new();
    let n = parts.len();
    let mut i: usize = 0;
    while i < n
        invariant
            n == parts@.len(),
            i <= n,
            views == parts@.map_values(|s: String| s@),
            r@ == joined(views.take(i as int), sep@),
        decreases n - i,
    {
        proof {
            let t = views.take(i + 1);
            assert(t.drop_last() =~= views.take(i as int));
            assert(t.last() == parts@[i as int]@);
            if i == 0 {
                assert(views.take(0) =~= Seq::<Seq<char>>::empty());
            }
        }
        if i > 0 {
            r.append(sep);
        }
        r.append(parts[i].as_str());
        proof {
            if i == 0 {
                assert(r@ =~= joined(views.take(1), sep@));
            }
        }
        i = i + 1;
    }
    assert(views.take(n as int) =~= views);
    r
}

/// The warning shown when a component is switched on while requirements are
/// missing: `'<label>' requires: <requirements joined by ", ">`.
pub fn requirement_warning(label: &String, blocked: &Vec<String>) -> (r: String)
    ensures
        r@ == "'"@ + label@ + "' requires: "@ + joined(blocked@.map_values(|s: String| s@), ", "@),
{
    let mut r = owned("'");
    r.append(label.as_str());
    r.append("' requires: ");
    r.append(join_strings(blocked, ", ").as_str());
    r
}

// ── The cargo invocation ─────────────────────────────────────────────────────

/// The cargo arguments and environment a build uses, in the order they are set
/// (a later environment entry for the same variable wins).
#[derive(Debug)]
pub struct BuildPlan {
    pub args: Vec<String>,
    pub envs: Vec<(String, String)>,
}

/// The value is the text `true`.
pub open spec fn is_true(v: Seq<char>) -> bool {
    v == "true"@
}

/// Arguments a flag contributes: `--release` for the release flag set to true,
/// `--<name>` for another cargo flag set to true.
pub open spec fn flag_args(f: FlagState) -> Seq<Seq<char>> {
    if f.entry.kind@ == "cargo_flag"@ && is_true(f.current_value@) {
        if f.entry.name@ == "release"@ {
            seq!["--release"@]
        } else {
            seq!["--"@ + f.entry.name@]
        }
    } else {
        Seq::empty()
    }
}

/// Environment entries a flag contributes: its name and value, for env flags.
pub open spec fn flag_envs(f: FlagState) -> Seq<(Seq<char>, Seq<char>)> {
    if f.entry.kind@ == "env"@ {
        seq![(f.entry.name@, f.current_value@)]
    } else {
        Seq::empty()
    }
}

/// Features a flag contributes: its name, for feature flags set to true.
pub open spec fn flag_features(f: FlagState) -> Seq<Seq<char>> {
    if f.entry.kind@ == "feature"@ && is_true(f.current_value@) {
        seq![f.entry.name@]
    } else {
        Seq::empty()
    }
}

/// All arguments contributed by flags, in flag order.
pub open spec fn all_flag_args(fs: Seq<FlagState>) -> Seq<Seq<char>>
    decreases fs.len(),
{
    if fs.len() == 0 {
        Seq::empty()
    } else {
        all_flag_args(fs.drop_last()) + flag_args(fs.last())
    }
}

/// All environment entries contributed by flags, in flag order.
pub open spec fn all_flag_envs(fs: Seq<FlagState>) -> Seq<(Seq<char>, Seq<char>)>
    decreases fs.len(),
{
    if fs.len() == 0 {
        Seq::empty()
    } else {
        all_flag_envs(fs.drop_last()) + flag_envs(fs.last())
    }
}

/// All features contributed by flags, in flag order.
pub open spec fn all_flag_features(fs: Seq<FlagState>) -> Seq<Seq<char>>
    decreases fs.len(),
{
    if fs.len() == 0 {
        Seq::empty()
    } else {
        all_flag_features(fs.drop_last()) + flag_features(fs.last())
    }
}

/// Names of the selected components, in order.
pub open spec fn selected_names(cs: Seq<ComponentEntry>) -> Seq<Seq<char>>
    decreases cs.len(),
{
    if cs.len() == 0 {
        Seq::empty()
    } else {
        selected_names(cs.drop_last()) + if cs.last().selected {
            seq![cs.last().name@]
        } else {
            Seq::empty()
        }
    }
}

/// Some cargo flag named `release` is set to true.
pub open spec fn release_requested(fs: Seq<FlagState>) -> bool
    decreases fs.len(),
{
    if fs.len() == 0 {
        false
    } else {
        release_requested(fs.drop_last()) || (fs.last().entry.kind@ == "cargo_flag"@
            && fs.last().entry.name@ == "release"@ && is_true(fs.last().current_value@))
    }
}

/// The tier that the flags ask for: the value of the last `FLUID_TIER` env
/// flag, or "0".
pub open spec fn requested_tier(fs: Seq<FlagState>) -> Seq<char>
    decreases fs.len(),
{
    if fs.len() == 0 {
        "0"@
    } else if fs.last().entry.kind@ == "env"@ && fs.last().entry.name@ == "FLUID_TIER"@ {
        fs.last().current_value@
    } else {
        requested_tier(fs.drop_last())
    }
}

/// The effective tier: "2" for a release build that asks for tier "0",
/// otherwise the requested one.
pub open spec fn effective_tier(fs: Seq<FlagState>) -> Seq<char> {
    if release_requested(fs) && requested_tier(fs) == "0"@ {
        "2"@
    } else {
        requested_tier(fs)
    }
}

/// The whole invocation: `build`, the flag arguments, `--features <list>` when
/// any feature is on, the flag environment and finally `FLUID_TIER`.
pub open spec fn plan_args(fs: Seq<FlagState>, cs: Seq<ComponentEntry>) -> Seq<Seq<char>> {
    let features = all_flag_features(fs) + selected_names(cs);
    seq!["build"@] + all_flag_args(fs) + if features.len() > 0 {
        seq!["--features"@, joined(features, ","@)]
    } else {
        Seq::empty()
    }
}

/// The environment of the invocation, in the order it is set.
pub open spec fn plan_envs(fs: Seq<FlagState>) -> Seq<(Seq<char>, Seq<char>)> {
    all_flag_envs(fs).push(("FLUID_TIER"@, effective_tier(fs)))
}

/// The texts of a sequence of strings.
pub open spec fn string_views(s: Seq<String>) -> Seq<Seq<char>> {
    s.map_values(|x: String| x@)
}

proof fn lemma_views_push(s: Seq<String>, x: String)
    ensures
        string_views(s.push(x)) == string_views(s).push(x@),
{
    assert(string_views(s.push(x)) =~= string_views(s).push(x@));
}

/// The texts of a sequence of string pairs.
pub open spec fn pair_views(s: Seq<(String, String)>) -> Seq<(Seq<char>, Seq<char>)> {
    s.map_values(|p: (String, String)| (p.0@, p.1@))
}

proof fn lemma_kinds_differ()
    ensures
        "env"@ != "cargo_flag"@,
        "env"@ != "feature"@,
        "cargo_flag"@ != "feature"@,
{
    reveal_strlit("env");
    reveal_strlit("cargo_flag");
    reveal_strlit("feature");
    assert("env"@.len() == 3);
    assert("cargo_flag"@.len() == 10);
    assert("feature"@.len() == 7);
}

/// The cargo arguments and environment for the given flags and components.
pub fn build_plan(flags: &Vec<FlagState>, components: &Vec<ComponentEntry>) -> (p: BuildPlan)
    ensures
        string_views(p.args@) == plan_args(flags@, components@),
        pair_views(p.envs@) == plan_envs(flags@),
{
    proof {
        lemma_kinds_differ();
    }
    let mut args: Vec<String> = Vec::new();
    args.push(owned("build"));
    let mut envs: Vec<(String, String)> = Vec::new();
    let mut features: Vec<String> = Vec::new();
    let mut is_release = false;
    let mut tier = owned("0");
    let n = flags.len();
    let mut i: usize = 0;
    while i < n
        invariant
            n == flags@.len(),
            i <= n,
            string_views(args@) == seq!["build"@] + all_flag_args(flags@.take(i as int)),
            pair_views(envs@) == all_flag_envs(flags@.take(i as int)),
            string_views(features@) == all_flag_features(flags@.take(i as int)),
            is_release == release_requested(flags@.take(i as int)),
            tier@ == requested_tier(flags@.take(i as int)),
            "env"@ != "cargo_flag"@ && "env"@ != "feature"@ && "cargo_flag"@ != "feature"@,
        decreases n - i,
    {
        let f = &flags[i];
        let ghost a0 = args@;
        let ghost e0 = envs@;
        let ghost x0 = features@;
        if str_eq(f.entry.kind.as_str(), "env") {
            if str_eq(f.entry.name.as_str(), "FLUID_TIER") {
                tier = f.current_value.clone();
            }
            envs.push((f.entry.name.clone(), f.current_value.clone()));
        } else if str_eq(f.entry.kind.as_str(), "cargo_flag") {
            if str_eq(f.entry.name.as_str(), "release") && str_eq(f.current_value.as_str(), "true") {
                args.push(owned("--release"));
                is_release = true;
            } else if str_eq(f.current_value.as_str(), "true") {
                let mut a = owned("--");
                a.append(f.entry.name.as_str());
                args.push(a);
            }
        } else if str_eq(f.entry.kind.as_str(), "feature") {
            if str_eq(f.current_value.as_str(), "true") {
                features.push(f.entry.name.clone());
            }
        }
        proof {
            let t = flags@.take(i + 1);
            assert(t.drop_last() =~= flags@.take(i as int));
            assert(t.last() == flags@[i as int]);
            if args@.len() > a0.len() {
                lemma_views_push(a0, args@.last());
                assert(args@ =~= a0.push(args@.last()));
            }
            assert(string_views(args@) =~= seq!["build"@] + all_flag_args(t));
            assert(pair_views(envs@) =~= all_flag_envs(t));
            assert(string_views(features@) =~= all_flag_features(t));
        }
        i = i + 1;
    }
    proof {
        assert(flags@.take(n as int) =~= flags@);
    }
    let ghost ff = features@;
    let m = components.len();
    let mut j: usize = 0;
    while j < m
        invariant
            m == components@.len(),
            j <= m,
            string_views(features@) == string_views(ff) + selected_names(components@.take(j as int)),
        decreases m - j,
    {
        let ghost x0 = features@;
        if components[j].selected {
            features.push(components[j].name.clone());
            proof {
                lemma_views_push(x0, features@.last());
                assert(features@ =~= x0.push(features@.last()));
            }
        }
        proof {
            let t = components@.take(j + 1);
            assert(t.drop_last() =~= components@.take(j as int));
            assert(t.last() == components@[j as int]);
            assert(string_views(features@) =~= string_views(ff) + selected_names(t));
        }
        j = j + 1;
    }
    proof {
        assert(components@.take(m as int) =~= components@);
    }
    let ghost a1 = args@;
    if features.len() > 0 {
        args.push(owned("--features"));
        args.push(join_strings(&features, ","));
    }
    proof {
        assert(string_views(args@) =~= plan_args(flags@, components@));
    }
    let eff = if is_release && str_eq(tier.as_str(), "0") {
        owned("2")
    } else {
        tier
    };
    envs.push((owned("FLUID_TIER"), eff));
    proof {
        assert(pair_views(envs@) =~= plan_envs(flags@));
    }
    BuildPlan { args, envs }
}

/// The value of the first flag named `release` is `true`; false when there is none.
pub open spec fn release_flag_on(fs: Seq<FlagState>) -> bool {
    exists|i: int|
        0 <= i < fs.len() && fs[i].entry.name@ == "release"@ && is_true(fs[i].current_value@)
            && forall|j: int| 0 <= j < i ==> fs[j].entry.name@ != "release"@
}

/// Whether the release flag is switched on.
pub fn is_release(flags: &Vec<FlagState>) -> (r: bool)
    ensures
        r == release_flag_on(flags@),
{
    let n = flags.len();
    let mut i: usize = 0;
    while i < n
        invariant
            n == flags@.len(),
            i <= n,
            forall|j: int| 0 <= j < i ==> flags@[j].entry.name@ != "release"@,
        decreases n - i,
    {
        if str_eq(flags[i].entry.name.as_str(), "release") {
            let r = str_eq(flags[i].current_value.as_str(), "true");
            proof {
                if !r {
                    assert forall|k: int|
                        0 <= k < flags@.len() && flags@[k].entry.name@ == "release"@ && is_true(
                            flags@[k].current_value@,
                        ) implies !(forall|j: int|
                        0 <= j < k ==> flags@[j].entry.name@ != "release"@) by {
                        if k > i {
                            assert(flags@[i as int].entry.name@ == "release"@);
                        }
                    }
                }
            }
            return r;
        }
        i = i + 1;
    }
    false
}

// ── Durations and build status ───────────────────────────────────────────────

/// A span of time: whole seconds and nanoseconds below one second.
#[derive(Debug, Clone, Copy, PartialEq, Eq, Structural)]
pub struct Span {
    pub secs: u64,
    pub nanos: u32,
}

/// Nanoseconds below one second.
pub open spec fn span_ok(s: Span) -> bool {
    s.nanos < 1_000_000_000
}

/// The length of a span in nanoseconds.
pub open spec fn span_nanos(s: Span) -> int {
    s.secs * 1_000_000_000 + s.nanos
}

/// `a - b`, or zero when `b` is later than `a`.
pub fn span_since(a: Span, b: Span) -> (r: Span)
    requires
        span_ok(a),
        span_ok(b),
    ensures
        span_ok(r),
        span_nanos(r) == if span_nanos(a) >= span_nanos(b) {
            span_nanos(a) - span_nanos(b)
        } else {
            0
        },
{
    if a.secs < b.secs || (a.secs == b.secs && a.nanos < b.nanos) {
        Span { secs: 0, nanos: 0 }
    } else if a.nanos >= b.nanos {
        Span { secs: a.secs - b.secs, nanos: a.nanos - b.nanos }
    } else {
        Span { secs: a.secs - b.secs - 1, nanos: 1_000_000_000 - b.nanos + a.nanos }
    }
}

/// Per-component build status; times are spans on the builder's clock.
#[derive(Debug, Clone, PartialEq, Eq, Structural)]
pub enum ComponentStatus {
    /// Not scheduled.
    Pending,
    /// Building since the given time.
    Building { started_at: Span },
    /// Completed successfully.
    Succeeded { elapsed: Span },
    /// Failed with an exit code, if any.
    Failed { exit_code: Option<i32>, elapsed: Span },
    /// Cancelled by the user.
    Cancelled,
}

impl ComponentStatus {
    /// Succeeded, failed and cancelled are final.
    pub fn is_terminal(&self) -> (r: bool)
        ensures
            r == (self is Succeeded || self is Failed || self is Cancelled),
    {
        match self {
            ComponentStatus::Succeeded { .. } => true,
            ComponentStatus::Failed { .. } => true,
            ComponentStatus::Cancelled => true,
            _ => false,
        }
    }

    /// Elapsed time at time `now`: time since the start while building, the
    /// recorded time once finished, none otherwise.
    pub fn elapsed(&self, now: Span) -> (r: Option<Span>)
        requires
            span_ok(now),
            *self matches ComponentStatus::Building { started_at } ==> span_ok(started_at),
        ensures
            match *self {
                ComponentStatus::Building { started_at } => r matches Some(d) && span_ok(d)
                    && span_nanos(d) == if span_nanos(now) >= span_nanos(started_at) {
                    span_nanos(now) - span_nanos(started_at)
                } else {
                    0
                },
                ComponentStatus::Succeeded { elapsed } => r == Some(elapsed),
                ComponentStatus::Failed { elapsed, .. } => r == Some(elapsed),
                _ => r is None,
            },
    {
        match self {
            ComponentStatus::Building { started_at } => Some(span_since(now, *started_at)),
            ComponentStatus::Succeeded { elapsed } => Some(*elapsed),
            ComponentStatus::Failed { elapsed, .. } => Some(*elapsed),
            _ => None,
        }
    }
}

/// Seconds with one decimal, as std formats `{:.1}` of the span's seconds in
/// `f32`.
pub uninterp spec fn tenths_text(secs: u64, nanos: u32) -> Seq<char>;

/// std's `{:.1}` formatting of a duration's seconds in `f32`.
#[verifier::external_body]
fn tenths_of(secs: u64, nanos: u32) -> (r: String)
    requires
        nanos < 1_000_000_000,
    ensures
        r@ == tenths_text(secs, nanos),
{
    format!("{:.1}", std::time::Duration::new(secs, nanos).as_secs_f32())
}

/// Two-digit, zero-padded decimal rendering of `n < 100`.
pub open spec fn two_digits(n: nat) -> Seq<char> {
    if n < 10 {
        seq!['0'] + decimal(n)
    } else {
        decimal(n)
    }
}

/// How an elapsed time is shown: `3.2s` below a minute, `1m 04s` from a
/// minute on.
pub open spec fn elapsed_text(d: Span) -> Seq<char> {
    if d.secs < 60 {
        tenths_text(d.secs, d.nanos) + "s"@
    } else {
        decimal((d.secs / 60) as nat) + "m "@ + two_digits((d.secs % 60) as nat) + "s"@
    }
}

/// Formats an elapsed time for the component list.
pub fn format_elapsed(d: Span) -> (r: String)
    requires
        span_ok(d),
    ensures
        r@ == elapsed_text(d),
{
    let total_secs = d.secs;
    if total_secs < 60 {
        let mut r = tenths_of(d.secs, d.nanos);
        r.append("s");
        r
    } else {
        let mins = total_secs / 60;
        let secs = total_secs % 60;
        let mut r = String::new();
        push_decimal(&mut r, mins);
        r.append("m ");
        if secs < 10 {
            push_char(&mut r, '0');
        }
        push_decimal(&mut r, secs);
        r.append("s");
        proof {
            assert(r@ =~= elapsed_text(d));
        }
        r
    }
}

// ── Build session ────────────────────────────────────────────────────────────

/// Overall build session state.
#[derive(Debug, Clone, Copy, PartialEq, Eq, Structural)]
pub enum BuildSessionState {
    Idle,
    Running,
    Finished,
    Cancelled,
}

/// A line of cargo output.
#[derive(Debug, Clone)]
pub enum OutputLine {
    Stdout(String),
    Stderr(String),
}

/// The text of an output line.
pub open spec fn line_text(l: OutputLine) -> String {
    match l {
        OutputLine::Stdout(s) => s,
        OutputLine::Stderr(s) => s,
    }
}

/// How a cargo process ended: whether it succeeded and its exit code, if any.
#[derive(Debug, Clone, Copy)]
pub struct ExitInfo {
    pub success: bool,
    pub code: Option<i32>,
}

/// Most output lines kept.
pub const MAX_OUTPUT_LINES: usize = 10000;

/// Lines dropped from the front when the buffer overflows.
pub const OUTPUT_DROP_LINES: usize = 1000;

/// The output buffer after appending `line`: when it then holds more than
/// the maximum, the oldest lines are dropped.
pub open spec fn appended<T>(lines: Seq<T>, line: T) -> Seq<T> {
    let t = lines.push(line);
    if t.len() > MAX_OUTPUT_LINES {
        t.subrange(OUTPUT_DROP_LINES as int, t.len() as int)
    } else {
        t
    }
}

proof fn lemma_views_appended(s: Seq<String>, x: String)
    ensures
        string_views(appended(s, x)) == appended(string_views(s), x@),
{
    assert(string_views(appended(s, x)) =~= appended(string_views(s), x@));
}

/// The output buffer after appending the texts of `ls` one by one.
pub open spec fn appended_all(lines: Seq<String>, ls: Seq<OutputLine>) -> Seq<String>
    decreases ls.len(),
{
    if ls.len() == 0 {
        lines
    } else {
        appended(appended_all(lines, ls.drop_last()), line_text(ls.last()))
    }
}

/// State of a build session, including its output.
pub struct BuildState {
    pub session: BuildSessionState,
    pub output_lines: Vec<String>,
    pub component_statuses: Vec<(String, ComponentStatus)>,
}

/// Debug rendering of an optional exit code: `Some(<code>)` or `None`.
pub open spec fn exit_code_text(c: Option<i32>) -> Seq<char> {
    match c {
        Some(n) => "Some("@ + signed_decimal(n as int) + ")"@,
        None => "None"@,
    }
}

/// Decimal rendering of a signed integer.
pub open spec fn signed_decimal(n: int) -> Seq<char> {
    if n < 0 {
        "-"@ + decimal((-n) as nat)
    } else {
        decimal(n as nat)
    }
}

/// The summary line of a finished build.
pub open spec fn summary_text(exit: Option<ExitInfo>) -> Seq<char> {
    match exit {
        Some(e) => if e.success {
            "Build succeeded."@
        } else {
            "Build failed (exit: "@ + exit_code_text(e.code) + ")."@
        },
        None => "Build terminated."@,
    }
}

/// The summary line of a finished build.
pub fn build_summary(exit: Option<ExitInfo>) -> (r: String)
    ensures
        r@ == summary_text(exit),
{
    match exit {
        Some(e) => if e.success {
            owned("Build succeeded.")
        } else {
            let mut r = owned("Build failed (exit: ");
            match e.code {
                Some(n) => {
                    r.append("Some(");
                    if n < 0 {
                        r.append("-");
                        let m: i64 = n as i64;
                        push_decimal(&mut r, (-m) as u64);
                    } else {
                        push_decimal(&mut r, n as u64);
                    }
                    r.append(")");
                },
                None => r.append("None"),
            }
            r.append(").");
            proof {
                assert(r@ =~= summary_text(exit));
            }
            r
        },
        None => owned("Build terminated."),
    }
}

impl BuildState {
    /// An idle session with no output and no statuses.
    pub fn new() -> (s: Self)
        ensures
            s.session == BuildSessionState::Idle,
            s.output_lines@.len() == 0,
            s.component_statuses@.len() == 0,
    {
        BuildState {
            session: BuildSessionState::Idle,
            output_lines: Vec::new(),
            component_statuses: Vec::new(),
        }
    }

    /// Back to an idle session with no output and no statuses.
    pub fn reset(&mut self)
        ensures
            final(self).session == BuildSessionState::Idle,
            final(self).output_lines@.len() == 0,
            final(self).component_statuses@.len() == 0,
    {
        self.session = BuildSessionState::Idle;
        self.output_lines.clear();
        self.component_statuses.clear();
    }

    /// Appends an output line; past the maximum the oldest lines are dropped.
    pub fn push_output(&mut self, line: String)
        ensures
            final(self).output_lines@ == appended(old(self).output_lines@, line),
            final(self).session == old(self).session,
            final(self).component_statuses == old(self).component_statuses,
    {
        self.output_lines.push(line);
        if self.output_lines.len() > MAX_OUTPUT_LINES {
            let rest = self.output_lines.split_off(OUTPUT_DROP_LINES);
            self.output_lines = rest;
        }
    }

    /// Starts a build: a fresh running session.
    pub fn start(&mut self)
        ensures
            final(self).session == BuildSessionState::Running,
            final(self).output_lines@.len() == 0,
            final(self).component_statuses@.len() == 0,
    {
        self.reset();
        self.session = BuildSessionState::Running;
    }

    /// Records that cargo could not be started: the reason is shown and the
    /// session is finished.
    pub fn spawn_failed(&mut self, reason: &str)
        ensures
            final(self).session == BuildSessionState::Finished,
            final(self).component_statuses == old(self).component_statuses,
            string_views(final(self).output_lines@) == appended(
                string_views(old(self).output_lines@),
                "Failed to spawn cargo: "@ + reason@,
            ),
    {
        let mut m = owned("Failed to spawn cargo: ");
        m.append(reason);
        let ghost before = self.output_lines@;
        self.push_output(m);
        proof {
            lemma_views_appended(before, m);
        }
        self.session = BuildSessionState::Finished;
    }

    /// Records a poll of the running build: appends the new output lines and,
    /// when the process has stopped, finishes the session with a summary line.
    /// Returns whether the process is done with. Does nothing unless running.
    pub fn poll_update(&mut self, lines: Vec<OutputLine>, stopped: bool, exit: Option<ExitInfo>) -> (done: bool)
        ensures
            final(self).component_statuses == old(self).component_statuses,
            old(self).session != BuildSessionState::Running ==> !done && final(self).session
                == old(self).session && final(self).output_lines@ == old(self).output_lines@,
            old(self).session == BuildSessionState::Running ==> {
                &&& done == stopped
                &&& final(self).session == if stopped {
                    BuildSessionState::Finished
                } else {
                    BuildSessionState::Running
                }
                &&& string_views(final(self).output_lines@) == if stopped {
                    appended(
                        string_views(appended_all(old(self).output_lines@, lines@)),
                        summary_text(exit),
                    )
                } else {
                    string_views(appended_all(old(self).output_lines@, lines@))
                }
            },
    {
        if self.session != BuildSessionState::Running {
            return false;
        }
        let ghost start = self.output_lines@;
        let mut k: usize = 0;
        let n = lines.len();
        while k < n
            invariant
                self.session == BuildSessionState::Running,
                self.component_statuses == old(self).component_statuses,
                start == old(self).output_lines@,
                n == lines@.len(),
                k <= n,
                self.output_lines@ == appended_all(start, lines@.take(k as int)),
            decreases n - k,
        {
            let text = match &lines[k] {
                OutputLine::Stdout(l) => l.clone(),
                OutputLine::Stderr(l) => l.clone(),
            };
            self.push_output(text);
            proof {
                let t = lines@.take(k + 1);
                assert(t.drop_last() =~= lines@.take(k as int));
            }
            k = k + 1;
        }
        proof {
            assert(lines@.take(n as int) =~= lines@);
        }
        if stopped {
            self.session = BuildSessionState::Finished;
            let ghost before = self.output_lines@;
            let summary = build_summary(exit);
            self.push_output(summary);
            proof {
                lemma_views_appended(before, summary);
            }
        }
        stopped
    }

    /// Records that the user cancelled the build.
    pub fn cancel(&mut self)
        ensures
            final(self).session == BuildSessionState::Cancelled,
            final(self).output_lines@ == old(self).output_lines@,
    {
        self.session = BuildSessionState::Cancelled;
    }
}

impl Default for BuildState {
    fn default() -> (s: Self)
        ensures
            s.session == BuildSessionState::Idle,
            s.output_lines@.len() == 0,
            s.component_statuses@.len() == 0,
    {
        Self::new()
    }
}

// ── The builder window's state ───────────────────────────────────────────────

/// Switches a component on or off as its checkbox was clicked; switching it on
/// while requirements are missing (`blocked`, not empty) is refused with a
/// warning naming them.
pub fn toggle_component(comp: &mut ComponentEntry, blocked: &Vec<String>) -> (warning: Option<String>)
    ensures
        final(comp).name == old(comp).name,
        final(comp).label == old(comp).label,
        final(comp).requirements == old(comp).requirements,
        if !old(comp).selected && blocked@.len() > 0 {
            &&& !final(comp).selected
            &&& warning matches Some(w) && w@ == "'"@ + old(comp).label@ + "' requires: "@
                + joined(blocked@.map_values(|s: String| s@), ", "@)
        } else {
            final(comp).selected == !old(comp).selected && (warning is None)
        },
{
    comp.selected = !comp.selected;
    if comp.selected && blocked.len() > 0 {
        comp.selected = false;
        Some(requirement_warning(&comp.label, blocked))
    } else {
        None
    }
}

/// The warning shown before the first release build.
pub open spec fn release_warning_text() -> Seq<char> {
    "Warning: Release builds are slow. Do not use for iteration."@
}

/// The state of the builder window apart from the running process.
pub struct BuilderCore {
    pub flags: Vec<FlagState>,
    pub components: Vec<ComponentEntry>,
    pub build_state: BuildState,
    /// The dependency warning on display.
    pub component_warning: Option<String>,
    /// Why the flag file could not be loaded.
    pub config_error: Option<String>,
    /// The release warning has been given.
    pub release_warning_shown: bool,
}

impl BuilderCore {
    /// The window's start state from the loaded flag file (or why loading
    /// failed): each flag at its default, the five components unselected, an
    /// idle build.
    pub fn new(config: Result<BuilderConfig, String>) -> (b: Self)
        ensures
            match config {
                Ok(c) => {
                    &&& b.flags@.len() == c.flags@.len()
                    &&& forall|i: int|
                        0 <= i < c.flags@.len() ==> same_entry((#[trigger] b.flags@[i]).entry, c.flags@[i])
                            && b.flags@[i].current_value == c.flags@[i].default
                    &&& b.config_error is None
                },
                Err(e) => b.flags@.len() == 0 && b.config_error == Some(e),
            },
            b.components@.len() == 5,
            forall|i: int| 0 <= i < 5 ==> !(#[trigger] b.components@[i]).selected,
            b.build_state.session == BuildSessionState::Idle,
            b.build_state.output_lines@.len() == 0,
            b.component_warning is None,
            !b.release_warning_shown,
    {
        let (flags, config_error) = match config {
            Ok(c) => {
                let entries = c.flags;
                let mut flags: Vec<FlagState> = Vec::new();
                let n = entries.len();
                let mut i: usize = 0;
                while i < n
                    invariant
                        n == entries@.len(),
                        i <= n,
                        flags@.len() == i,
                        forall|k: int|
                            0 <= k < i ==> same_entry((#[trigger] flags@[k]).entry, entries@[k])
                                && flags@[k].current_value == entries@[k].default,
                    decreases n - i,
                {
                    let e = entries[i].clone_entry();
                    flags.push(FlagState::from_entry(e));
                    i = i + 1;
                }
                (flags, None)
            },
            Err(e) => (Vec::new(), Some(e)),
        };
        BuilderCore {
            flags,
            components: default_components(),
            build_state: BuildState::new(),
            component_warning: None,
            config_error,
            release_warning_shown: false,
        }
    }

    /// The label of the build button.
    pub fn build_label(&self) -> (r: &'static str)
        ensures
            r@ == if release_flag_on(self.flags@) {
                "Build (Release)"@
            } else {
                "Build (Debug)"@
            },
    {
        if is_release(&self.flags) {
            "Build (Release)"
        } else {
            "Build (Debug)"
        }
    }

    /// The build button was clicked: the first release build gives the
    /// release warning (which the fresh session then clears along with the old
    /// output), and a fresh running session starts; the returned plan is the
    /// cargo invocation to spawn.
    pub fn on_build_clicked(&mut self) -> (p: BuildPlan)
        ensures
            final(self).release_warning_shown == (old(self).release_warning_shown
                || release_flag_on(old(self).flags@)),
            final(self).build_state.session == BuildSessionState::Running,
            final(self).build_state.output_lines@.len() == 0,
            final(self).build_state.component_statuses@.len() == 0,
            final(self).flags == old(self).flags,
            final(self).components == old(self).components,
            final(self).component_warning == old(self).component_warning,
            final(self).config_error == old(self).config_error,
            string_views(p.args@) == plan_args(old(self).flags@, old(self).components@),
            pair_views(p.envs@) == plan_envs(old(self).flags@),
    {
        if is_release(&self.flags) && !self.release_warning_shown {
            self.release_warning_shown = true;
            self.build_state.push_output(owned("Warning: Release builds are slow. Do not use for iteration."));
        }
        self.build_state.start();
        build_plan(&self.flags, &self.components)
    }

    /// The status line: the session state, except while running, where the
    /// window shows the time since the start.
    pub fn status_label(&self) -> (r: Option<String>)
        ensures
            match self.build_state.session {
                BuildSessionState::Idle => r matches Some(t) && t@ == "Idle"@,
                BuildSessionState::Running => r is None,
                BuildSessionState::Finished => r matches Some(t) && t@ == "Finished"@,
                BuildSessionState::Cancelled => r matches Some(t) && t@ == "Cancelled"@,
            },
    {
        match self.build_state.session {
            BuildSessionState::Idle => Some(owned("Idle")),
            BuildSessionState::Running => None,
            BuildSessionState::Finished => Some(owned("Finished")),
            BuildSessionState::Cancelled => Some(owned("Cancelled")),
        }
    }
}

impl BuilderCore {
    /// The checkbox of component `i` was clicked, with the flag panel's
    /// switches `flag_selections`: the component is toggled as
    /// `toggle_component` does with its unmet requirements, and a refusal's
    /// warning replaces the one on display.
    pub fn click_component(&mut self, i: usize, flag_selections: &Vec<(String, bool)>)
        requires
            i < old(self).components@.len(),
        ensures
            final(self).components@.len() == old(self).components@.len(),
            forall|j: int|
                0 <= j < old(self).components@.len() && j != i ==> final(self).components@[j]
                    == old(self).components@[j],
            final(self).components@[i as int].name == old(self).components@[i as int].name,
            final(self).components@[i as int].label == old(self).components@[i as int].label,
            final(self).components@[i as int].requirements == old(self).components@[
                i as int].requirements,
            ({
                let c = old(self).components@[i as int];
                let missing = unmet(c.requirements@, flag_selections@, old(self).components@);
                if !c.selected && missing.len() > 0 {
                    &&& !final(self).components@[i as int].selected
                    &&& final(self).component_warning matches Some(w) && w@ == "'"@ + c.label@
                        + "' requires: "@ + joined(missing, ", "@)
                } else {
                    &&& final(self).components@[i as int].selected == !c.selected
                    &&& final(self).component_warning == old(self).component_warning
                }
            }),
            final(self).flags == old(self).flags,
            final(self).build_state == old(self).build_state,
            final(self).config_error == old(self).config_error,
            final(self).release_warning_shown == old(self).release_warning_shown,
    {
        let blocked = blocked_by(&self.components[i], flag_selections, &self.components);
        let mut comp = self.components.remove(i);
        let warning = toggle_component(&mut comp, &blocked);
        self.components.insert(i, comp);
        if let Some(w) = warning {
            self.component_warning = Some(w);
        }
    }

    /// The warning's dismiss button was clicked.
    pub fn dismiss_warning(&mut self)
        ensures
            final(self).component_warning is None,
            final(self).flags == old(self).flags,
            final(self).components == old(self).components,
            final(self).build_state == old(self).build_state,
            final(self).config_error == old(self).config_error,
            final(self).release_warning_shown == old(self).release_warning_shown,
    {
        self.component_warning = None;
    }

    /// The title bar's error line: `Config error: <why>`, when the flag file
    /// could not be loaded.
    pub fn config_error_label(&self) -> (r: Option<String>)
        ensures
            match self.config_error {
                Some(e) => r matches Some(t) && t@ == "Config error: "@ + e@,
                None => r is None,
            },
    {
        match &self.config_error {
            Some(e) => {
                let mut t = owned("Config error: ");
                t.append(e.as_str());
                Some(t)
            },
            None => None,
        }
    }
}

/// The note under a greyed-out component: `Requires: <missing joined by ", ">`,
/// none when nothing is missing.
pub fn requires_note(blocked: &Vec<String>) -> (r: Option<String>)
    ensures
        if blocked@.len() == 0 {
            r is None
        } else {
            r matches Some(t) && t@ == "Requires: "@ + joined(
                blocked@.map_values(|s: String| s@),
                ", "@,
            )
        },
{
    if blocked.len() == 0 {
        None
    } else {
        let mut t = owned("Requires: ");
        t.append(join_strings(blocked, ", ").as_str());
        Some(t)
    }
}

// ── What the panels show ─────────────────────────────────────────────────────

/// How a flag is edited: a checkbox, a drop-down of its options, or a text
/// field.
#[derive(Debug, Clone, Copy, PartialEq, Eq, Structural)]
pub enum FlagWidget {
    Checkbox,
    Select,
    Text,
}

/// The widget for a flag type: `bool` is a checkbox, `select` a drop-down,
/// anything else a text field.
pub fn flag_widget(flag_type: &str) -> (w: FlagWidget)
    ensures
        w == if flag_type@ == "bool"@ {
            FlagWidget::Checkbox
        } else if flag_type@ == "select"@ {
            FlagWidget::Select
        } else {
            FlagWidget::Text
        },
{
    if str_eq(flag_type, "bool") {
        FlagWidget::Checkbox
    } else if str_eq(flag_type, "select") {
        FlagWidget::Select
    } else {
        FlagWidget::Text
    }
}

impl FlagState {
    /// A checkbox flag is ticked when its value is `true`.
    pub fn is_checked(&self) -> (r: bool)
        ensures
            r == (self.current_value@ == "true"@),
    {
        str_eq(self.current_value.as_str(), "true")
    }

    /// Ticking or clearing a checkbox flag stores `true` or `false`.
    pub fn set_checked(&mut self, checked: bool)
        ensures
            final(self).entry == old(self).entry,
            final(self).current_value@ == if checked {
                "true"@
            } else {
                "false"@
            },
    {
        self.current_value = if checked {
            owned("true")
        } else {
            owned("false")
        };
    }
}

/// How an output line is coloured: lines starting with `error` as errors,
/// then lines starting with `warning` as warnings, the rest plainly.
#[derive(Debug, Clone, Copy, PartialEq, Eq, Structural)]
pub enum LineTone {
    Error,
    Warning,
    Plain,
}

/// `s` begins with `p`.
pub open spec fn begins_with(s: Seq<char>, p: Seq<char>) -> bool {
    p.len() <= s.len() && s.subrange(0, p.len() as int) == p
}

/// The colouring of an output line.
pub fn line_tone(line: &str) -> (t: LineTone)
    ensures
        t == if begins_with(line@, "error"@) {
            LineTone::Error
        } else if begins_with(line@, "warning"@) {
            LineTone::Warning
        } else {
            LineTone::Plain
        },
{
    if str_starts_with(line, "error") {
        LineTone::Error
    } else if str_starts_with(line, "warning") {
        LineTone::Warning
    } else {
        LineTone::Plain
    }
}

/// How a component's elapsed time is coloured: green once it succeeded, red
/// once it failed, grey otherwise.
#[derive(Debug, Clone, Copy, PartialEq, Eq, Structural)]
pub enum StatusTone {
    Success,
    Failure,
    Neutral,
}

/// The colouring of a component status.
pub fn status_tone(s: &ComponentStatus) -> (t: StatusTone)
    ensures
        t == match *s {
            ComponentStatus::Succeeded { .. } => StatusTone::Success,
            ComponentStatus::Failed { .. } => StatusTone::Failure,
            _ => StatusTone::Neutral,
        },
{
    match s {
        ComponentStatus::Succeeded { .. } => StatusTone::Success,
        ComponentStatus::Failed { .. } => StatusTone::Failure,
        _ => StatusTone::Neutral,
    }
}

/// The output buffer never holds more than `MAX_OUTPUT_LINES` lines, and the
/// line just appended is always its last.
pub proof fn lemma_output_bounded<T>(lines: Seq<T>, line: T)
    requires
        lines.len() <= MAX_OUTPUT_LINES,
    ensures
        appended(lines, line).len() <= MAX_OUTPUT_LINES,
        appended(lines, line).last() == line,
{
}

/// `f` is an env flag that sets `FLUID_TIER`.
pub open spec fn sets_tier(f: FlagState) -> bool {
    f.entry.kind@ == "env"@ && f.entry.name@ == "FLUID_TIER"@
}

/// `f` is the cargo flag `release`, switched on.
pub open spec fn asks_release(f: FlagState) -> bool {
    f.entry.kind@ == "cargo_flag"@ && f.entry.name@ == "release"@ && is_true(f.current_value@)
}

/// `i` is the last position of `fs` holding a `FLUID_TIER` env flag.
pub open spec fn last_tier_flag(fs: Seq<FlagState>, i: int) -> bool {
    &&& 0 <= i < fs.len()
    &&& sets_tier(fs[i])
    &&& forall|j: int| i < j < fs.len() ==> !sets_tier(#[trigger] fs[j])
}

proof fn lemma_requested_tier_is_last(fs: Seq<FlagState>)
    ensures
        (forall|j: int| 0 <= j < fs.len() ==> !sets_tier(#[trigger] fs[j])) ==> requested_tier(fs)
            == "0"@,
        forall|i: int| #[trigger] last_tier_flag(fs, i) ==> requested_tier(fs) == fs[i].current_value@,
    decreases fs.len(),
{
    if fs.len() > 0 {
        let pre = fs.drop_last();
        lemma_requested_tier_is_last(pre);
        assert forall|i: int| #[trigger] last_tier_flag(fs, i) implies requested_tier(fs)
            == fs[i].current_value@ by {
            if i < fs.len() - 1 {
                assert(!sets_tier(fs[fs.len() - 1]));
                assert(last_tier_flag(pre, i));
            }
        }
        if forall|j: int| 0 <= j < fs.len() ==> !sets_tier(#[trigger] fs[j]) {
            assert(!sets_tier(fs[fs.len() - 1]));
            assert forall|j: int| 0 <= j < pre.len() implies !sets_tier(#[trigger] pre[j]) by {
                assert(pre[j] == fs[j]);
            }
        }
    }
}

proof fn lemma_release_requested_exists(fs: Seq<FlagState>)
    ensures
        release_requested(fs) <==> exists|j: int| 0 <= j < fs.len() && #[trigger] asks_release(fs[j]),
    decreases fs.len(),
{
    if fs.len() > 0 {
        let pre = fs.drop_last();
        lemma_release_requested_exists(pre);
        if release_requested(pre) {
            let j = choose|j: int| 0 <= j < pre.len() && #[trigger] asks_release(pre[j]);
            assert(asks_release(fs[j]));
        }
        if asks_release(fs.last()) {
            assert(asks_release(fs[fs.len() - 1]));
        }
        if exists|j: int| 0 <= j < fs.len() && #[trigger] asks_release(fs[j]) {
            let j = choose|j: int| 0 <= j < fs.len() && #[trigger] asks_release(fs[j]);
            if j < fs.len() - 1 {
                assert(asks_release(pre[j]));
            }
        }
    }
}

/// The tier a build runs at: the plan sets `FLUID_TIER` last, after every
/// env flag in flag order. Its value is that of the last `FLUID_TIER` env
/// flag whenever that value is not "0", release build or not; a build that
/// asks for "0", or sets no tier at all, runs at "2" when some `release`
/// cargo flag is on and at "0" otherwise.
pub proof fn lemma_plan_tier(fs: Seq<FlagState>)
    ensures
        plan_envs(fs).len() == all_flag_envs(fs).len() + 1,
        plan_envs(fs).last().0 == "FLUID_TIER"@,
        forall|i: int|
            #[trigger] last_tier_flag(fs, i) && fs[i].current_value@ != "0"@ ==> plan_envs(
                fs,
            ).last().1 == fs[i].current_value@,
        forall|i: int|
            #[trigger] last_tier_flag(fs, i) && fs[i].current_value@ == "0"@ ==> plan_envs(
                fs,
            ).last().1 == if exists|j: int| 0 <= j < fs.len() && #[trigger] asks_release(fs[j]) {
                "2"@
            } else {
                "0"@
            },
        (forall|j: int| 0 <= j < fs.len() ==> !sets_tier(#[trigger] fs[j])) ==> plan_envs(
            fs,
        ).last().1 == if exists|j: int| 0 <= j < fs.len() && #[trigger] asks_release(fs[j]) {
            "2"@
        } else {
            "0"@
        },
{
    lemma_requested_tier_is_last(fs);
    lemma_release_requested_exists(fs);
}

} // verus!
