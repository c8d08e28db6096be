use fluid::builder::{
    blocked_by, build_plan, build_summary, default_components, format_elapsed, is_release,
    join_strings, requirement_warning, span_since, toggle_component, BuildSessionState, BuildState,
    BuilderConfig, BuilderCore, ComponentEntry, ComponentStatus, ExitInfo, FlagEntry, FlagState,
    OutputLine, Span,
};
use fluid::builder::{
    flag_widget, line_tone, requires_note, status_tone, FlagWidget, LineTone, StatusTone,
};

fn flag(name: &str, kind: &str, value: &str) -> FlagState {
    let entry = FlagEntry {
        name: name.to_string(),
        kind: kind.to_string(),
        label: name.to_string(),
        description: String::new(),
        flag_type: "bool".to_string(),
        options: Vec::new(),
        default: value.to_string(),
    };
    FlagState::from_entry(entry)
}

#[test]
fn flag_state_starts_at_default() {
    let f = flag("release", "cargo_flag", "false");
    assert_eq!(f.current_value, "false");
    assert!(BuilderConfig::empty().flags.is_empty());
}

#[test]
fn default_component_list() {
    let c = default_components();
    assert_eq!(c.len(), 5);
    assert_eq!(c[0].name, "fluid_simulator");
    assert_eq!(c[2].label, "Motion & Force Simulator");
    assert!(c.iter().all(|e| !e.selected && e.requirements.is_empty()));
}

#[test]
fn build_plan_collects_flags_and_components() {
    let flags = vec![
        flag("FLUID_TIER", "env", "1"),
        flag("release", "cargo_flag", "true"),
        flag("offline", "cargo_flag", "true"),
        flag("verbose", "cargo_flag", "false"),
        flag("rendering", "feature", "true"),
        flag("RUST_LOG", "env", "debug"),
    ];
    let mut comps = default_components();
    comps[1].selected = true;
    let plan = build_plan(&flags, &comps);
    assert_eq!(plan.args, vec!["build", "--release", "--offline", "--features", "rendering,aerodynamic_simulator"]);
    assert_eq!(
        plan.envs,
        vec![
            ("FLUID_TIER".to_string(), "1".to_string()),
            ("RUST_LOG".to_string(), "debug".to_string()),
            ("FLUID_TIER".to_string(), "1".to_string()),
        ]
    );
    assert!(is_release(&flags));
}

#[test]
fn release_build_defaults_to_tier_two() {
    let flags = vec![flag("release", "cargo_flag", "true")];
    let plan = build_plan(&flags, &Vec::new());
    assert_eq!(plan.args, vec!["build", "--release"]);
    assert_eq!(plan.envs, vec![("FLUID_TIER".to_string(), "2".to_string())]);
    let debug = build_plan(&Vec::new(), &Vec::new());
    assert_eq!(debug.envs, vec![("FLUID_TIER".to_string(), "0".to_string())]);
}

#[test]
fn dependencies_block_components() {
    let mut comps = default_components();
    comps[3].requirements = vec!["fluid_simulator".to_string(), "gpu".to_string()];
    let flags = vec![("gpu".to_string(), true)];
    let blocked = blocked_by(&comps[3], &flags, &comps);
    assert_eq!(blocked, vec!["fluid_simulator".to_string()]);
    let w = toggle_component(&mut comps[3], &blocked);
    assert!(!comps[3].selected);
    assert_eq!(w.as_deref(), Some("'Thermodynamic Simulator' requires: fluid_simulator"));
    assert_eq!(toggle_component(&mut comps[0], &Vec::new()), None);
    assert!(comps[0].selected);
    assert!(blocked_by(&comps[3], &flags, &comps).is_empty());
    assert_eq!(join_strings(&vec!["a".to_string(), "b".to_string()], ", "), "a, b");
    assert_eq!(requirement_warning(&"X".to_string(), &vec!["y".to_string()]), "'X' requires: y");
}

#[test]
fn elapsed_time_formatting() {
    assert_eq!(format_elapsed(Span { secs: 3, nanos: 200_000_000 }), "3.2s");
    assert_eq!(format_elapsed(Span { secs: 64, nanos: 0 }), "1m 04s");
    assert_eq!(format_elapsed(Span { secs: 725, nanos: 0 }), "12m 05s");
    let d = span_since(Span { secs: 5, nanos: 100 }, Span { secs: 3, nanos: 200 });
    assert_eq!(d, Span { secs: 1, nanos: 999_999_900 });
    assert_eq!(span_since(Span { secs: 1, nanos: 0 }, Span { secs: 2, nanos: 0 }), Span { secs: 0, nanos: 0 });
}

#[test]
fn component_status_elapsed() {
    let s = ComponentStatus::Building { started_at: Span { secs: 10, nanos: 0 } };
    assert_eq!(s.elapsed(Span { secs: 12, nanos: 5 }), Some(Span { secs: 2, nanos: 5 }));
    assert!(!s.is_terminal());
    let done = ComponentStatus::Succeeded { elapsed: Span { secs: 7, nanos: 0 } };
    assert!(done.is_terminal());
    assert_eq!(done.elapsed(Span { secs: 100, nanos: 0 }), Some(Span { secs: 7, nanos: 0 }));
    assert_eq!(ComponentStatus::Pending.elapsed(Span { secs: 1, nanos: 0 }), None);
}

#[test]
fn summaries() {
    assert_eq!(build_summary(Some(ExitInfo { success: true, code: Some(0) })), "Build succeeded.");
    assert_eq!(build_summary(Some(ExitInfo { success: false, code: Some(101) })), "Build failed (exit: Some(101)).");
    assert_eq!(build_summary(Some(ExitInfo { success: false, code: Some(-1) })), "Build failed (exit: Some(-1)).");
    assert_eq!(build_summary(Some(ExitInfo { success: false, code: None })), "Build failed (exit: None).");
    assert_eq!(build_summary(None), "Build terminated.");
}

#[test]
fn output_buffer_drops_oldest() {
    let mut st = BuildState::new();
    for i in 0..10_001 {
        st.push_output(format!("line {i}"));
    }
    assert_eq!(st.output_lines.len(), 9_001);
    assert_eq!(st.output_lines[0], "line 1000");
    assert_eq!(st.output_lines.last().unwrap(), "line 10000");
}

#[test]
fn poll_finishes_with_summary() {
    let mut st = BuildState::new();
    assert!(!st.poll_update(vec![OutputLine::Stdout("x".to_string())], true, None));
    assert!(st.output_lines.is_empty());
    st.start();
    assert!(!st.poll_update(vec![OutputLine::Stdout("Compiling".to_string())], false, None));
    assert_eq!(st.session, BuildSessionState::Running);
    assert!(st.poll_update(vec![OutputLine::Stderr("warning".to_string())], true, Some(ExitInfo { success: true, code: Some(0) })));
    assert_eq!(st.session, BuildSessionState::Finished);
    assert_eq!(st.output_lines, vec!["Compiling", "warning", "Build succeeded."]);
    st.spawn_failed("no cargo");
    assert_eq!(st.output_lines.last().unwrap(), "Failed to spawn cargo: no cargo");
    st.cancel();
    assert_eq!(st.session, BuildSessionState::Cancelled);
}

#[test]
fn builder_window_state() {
    let mut window = BuilderCore::new(Err("cannot read flags".to_string()));
    assert_eq!(window.config_error.as_deref(), Some("cannot read flags"));
    assert_eq!(window.build_label(), "Build (Debug)");
    assert_eq!(window.status_label().as_deref(), Some("Idle"));
    let cfg = BuilderConfig { flags: vec![flag("release", "cargo_flag", "true").entry] };
    let mut core2 = BuilderCore::new(Ok(cfg));
    assert_eq!(core2.build_label(), "Build (Release)");
    let plan = core2.on_build_clicked();
    assert!(core2.release_warning_shown);
    assert_eq!(core2.build_state.session, BuildSessionState::Running);
    assert!(core2.build_state.output_lines.is_empty());
    assert_eq!(plan.args, vec!["build", "--release"]);
    assert_eq!(core2.status_label(), None);
    let _ = &mut window;
    let _ = ComponentEntry { name: String::new(), label: String::new(), requirements: Vec::new(), selected: false };
}

#[test]
fn flag_widgets_by_type() {
    assert_eq!(flag_widget("bool"), FlagWidget::Checkbox);
    assert_eq!(flag_widget("select"), FlagWidget::Select);
    assert_eq!(flag_widget("string"), FlagWidget::Text);
    assert_eq!(flag_widget("anything"), FlagWidget::Text);
}

#[test]
fn checkbox_flags_store_true_or_false() {
    let mut f = flag("release", "cargo_flag", "false");
    assert!(!f.is_checked());
    f.set_checked(true);
    assert_eq!(f.current_value, "true");
    assert!(f.is_checked());
    f.set_checked(false);
    assert_eq!(f.current_value, "false");
    assert!(!f.is_checked());
}

#[test]
fn output_lines_are_coloured_by_prefix() {
    assert_eq!(line_tone("error[E0425]: cannot find value"), LineTone::Error);
    assert_eq!(line_tone("warning: unused variable"), LineTone::Warning);
    assert_eq!(line_tone("   Compiling fluid v0.1.0"), LineTone::Plain);
    assert_eq!(line_tone("err"), LineTone::Plain);
    assert_eq!(line_tone(""), LineTone::Plain);
}

#[test]
fn status_tones() {
    let d = Span { secs: 3, nanos: 0 };
    assert_eq!(status_tone(&ComponentStatus::Succeeded { elapsed: d }), StatusTone::Success);
    assert_eq!(
        status_tone(&ComponentStatus::Failed { exit_code: Some(1), elapsed: d }),
        StatusTone::Failure
    );
    assert_eq!(status_tone(&ComponentStatus::Pending), StatusTone::Neutral);
    assert_eq!(status_tone(&ComponentStatus::Cancelled), StatusTone::Neutral);
}

#[test]
fn requires_note_lists_missing_components() {
    assert_eq!(requires_note(&Vec::new()), None);
    let missing = vec!["fluid_simulator".to_string(), "fem_structural".to_string()];
    assert_eq!(
        requires_note(&missing),
        Some("Requires: fluid_simulator, fem_structural".to_string())
    );
}

#[test]
fn clicking_a_blocked_component_warns_and_dismiss_clears() {
    let mut core = BuilderCore::new(Ok(BuilderConfig::empty()));
    core.components[1].requirements = vec!["fluid_simulator".to_string()];
    let label = core.components[1].label.clone();
    core.click_component(1, &Vec::new());
    assert!(!core.components[1].selected);
    assert_eq!(
        core.component_warning,
        Some(format!("'{}' requires: fluid_simulator", label))
    );
    core.dismiss_warning();
    assert_eq!(core.component_warning, None);
    core.click_component(0, &Vec::new());
    assert!(core.components[0].selected);
    core.click_component(1, &Vec::new());
    assert!(core.components[1].selected);
    assert_eq!(core.component_warning, None);
    core.click_component(1, &Vec::new());
    assert!(!core.components[1].selected);
}

#[test]
fn config_error_label_names_the_error() {
    let core = BuilderCore::new(Err("missing builder.toml".to_string()));
    assert_eq!(core.config_error_label(), Some("Config error: missing builder.toml".to_string()));
    let ok = BuilderCore::new(Ok(BuilderConfig::empty()));
    assert_eq!(ok.config_error_label(), None);
}
