use fluid::debugger::{
    action_label, build_control_request, check, cleanup_session, control_outcome, find_widget,
    find_widget_by_label, interpret_screenshot_error, is_png_reply, menu_path_parts, png_files,
    session_id, AgentDebuggerConfig, ControlRequest, ControlResponse, DebugError, DirEntryInfo,
    HealthResponse, ScreenshotError, ScreenshotRateLimit, ScreenshotResult, SessionNotes,
    TreeResponse, WidgetEntry,
};
use fluid::report::{diff_widgets, SessionReport};

fn widget(id: &str, label: &str, enabled: bool, value: Option<&str>) -> WidgetEntry {
    WidgetEntry {
        id: id.to_string(),
        kind: "Button".to_string(),
        label: label.to_string(),
        enabled,
        value: value.map(|v| v.to_string()),
    }
}

#[test]
fn default_config_and_urls() {
    let cfg = AgentDebuggerConfig::default();
    assert_eq!(cfg.base_url(), "http://127.0.0.1:8082");
    assert_eq!(cfg.endpoint_url("/tree"), "http://127.0.0.1:8082/tree");
    assert_eq!(cfg.timeout_secs, 10);
    assert_eq!(cfg.screenshot_min_interval_ms, 500);
    assert_eq!(cfg.expected_protocol_version, 1);
    assert!(cfg.token.is_empty());
}

#[test]
fn load_or_default_falls_back() {
    let cfg = AgentDebuggerConfig::load_or_default(Err(DebugError::Config("missing".to_string())));
    assert_eq!(cfg.port, 8082);
}

#[test]
fn error_messages_and_status_codes() {
    assert!(matches!(DebugError::from_status(429, "Too Many"), DebugError::RateLimited));
    assert!(matches!(DebugError::from_status(401, "Unauthorized"), DebugError::Unauthorized));
    assert_eq!(DebugError::from_status(500, "Server Error").message(), "HTTP error: HTTP 500: Server Error");
    assert_eq!(DebugError::Json("bad".to_string()).message(), "JSON error: bad");
    assert_eq!(DebugError::RateLimited.message(), "Rate limited (429) \u{2014} wait 500ms");
}

#[test]
fn health_check_compares_protocol_versions() {
    let cfg = AgentDebuggerConfig::default();
    assert!(check(&cfg, HealthResponse { ok: true, protocol_version: 1 }).is_ok());
    match check(&cfg, HealthResponse { ok: true, protocol_version: 2 }) {
        Err(DebugError::Protocol(m)) => {
            assert_eq!(m, "protocol_version mismatch: server=2, expected=1")
        }
        _ => panic!("expected a protocol error"),
    }
}

#[test]
fn control_requests() {
    let r = ControlRequest::click("btn".to_string());
    assert_eq!(r.action, "click");
    assert_eq!(r.target.as_deref(), Some("btn"));
    let r = build_control_request("keypress", Some("field"), Some("Enter"), None).unwrap();
    assert_eq!(r.action, "keypress");
    assert_eq!(r.value.as_deref(), Some("Enter"));
    let r = build_control_request("menu", None, None, Some(" File , Save ")).unwrap();
    assert_eq!(r.path, Some(vec!["File".to_string(), "Save".to_string()]));
    match build_control_request("click", None, None, None) {
        Err(DebugError::Protocol(m)) => assert_eq!(m, "click action requires --target <widget_id>"),
        _ => panic!("expected a protocol error"),
    }
    match build_control_request("dance", None, None, None) {
        Err(DebugError::Protocol(m)) => {
            assert_eq!(m, "unknown action: dance (valid: click, keypress, set_field, menu)")
        }
        _ => panic!("expected a protocol error"),
    }
}

#[test]
fn menu_path_is_split_and_trimmed() {
    assert_eq!(menu_path_parts("File,Save"), vec!["File".to_string(), "Save".to_string()]);
    assert_eq!(menu_path_parts("  Edit  "), vec!["Edit".to_string()]);
}

#[test]
fn control_outcome_reports_server_errors() {
    assert!(control_outcome(ControlResponse { ok: true, error: None }).is_ok());
    assert!(control_outcome(ControlResponse { ok: false, error: Some("no such widget".to_string()) }).is_err());
}

#[test]
fn screenshot_replies() {
    assert!(is_png_reply("image/png"));
    assert!(!is_png_reply("application/json"));
    let r = interpret_screenshot_error(ScreenshotError { ok: false, error: None, headless: true });
    assert!(matches!(r, Ok(ScreenshotResult::Headless)));
    let r = interpret_screenshot_error(ScreenshotError {
        ok: false,
        error: Some("screenshot_not_implemented".to_string()),
        headless: false,
    });
    assert!(matches!(r, Ok(ScreenshotResult::NotImplemented)));
    match interpret_screenshot_error(ScreenshotError { ok: false, error: None, headless: false }) {
        Err(DebugError::Protocol(m)) => assert_eq!(m, "screenshot error: unknown"),
        _ => panic!("expected a protocol error"),
    }
}

#[test]
fn rate_limit_waits_for_the_interval() {
    let mut rl = ScreenshotRateLimit::new(500);
    assert_eq!(rl.wait_ms(1000), 0);
    rl.record(1000);
    assert_eq!(rl.wait_ms(1000), 500);
    assert_eq!(rl.wait_ms(1200), 300);
    assert_eq!(rl.wait_ms(1600), 0);
}

#[test]
fn widget_lookup_by_id_and_label() {
    let tree = TreeResponse {
        headless: false,
        widgets: vec![widget("a", "Run", true, None), widget("b", "STOP", true, None)],
    };
    assert_eq!(find_widget(&tree, "b").unwrap().label, "STOP");
    assert!(find_widget(&tree, "c").is_none());
    assert_eq!(find_widget_by_label(&tree, "stop").unwrap().id, "b");
    assert!(find_widget_by_label(&tree, "pause").is_none());
}

#[test]
fn session_ids_and_notes() {
    assert_eq!(session_id(Some("abc"), Some(5)), "abc");
    assert_eq!(session_id(None, Some(1700000000)), "1700000000");
    assert_eq!(session_id(None, None), "session");
    assert_eq!(action_label(None), "none");
    let mut notes = SessionNotes::new();
    notes.record_screenshot(&ScreenshotResult::Png(vec![1, 2]));
    assert!(!notes.incomplete);
    notes.record_screenshot(&ScreenshotResult::Headless);
    assert!(notes.incomplete);
    assert_eq!(notes.notes, vec!["headless: no display".to_string()]);
}

#[test]
fn cleanup_selects_png_files() {
    let entries = vec![
        DirEntryInfo { path: "s/a.png".to_string(), is_file: true, extension: Some("png".to_string()) },
        DirEntryInfo { path: "s/b.PNG".to_string(), is_file: true, extension: Some("PNG".to_string()) },
        DirEntryInfo { path: "s/c.json".to_string(), is_file: true, extension: Some("json".to_string()) },
        DirEntryInfo { path: "s/d.png".to_string(), is_file: false, extension: Some("png".to_string()) },
    ];
    assert_eq!(png_files(&entries), vec!["s/a.png".to_string(), "s/b.PNG".to_string()]);
    match cleanup_session("sessions/x", false, &entries) {
        Err(DebugError::Io(m)) => assert_eq!(m, "session directory not found: sessions/x"),
        _ => panic!("expected an I/O error"),
    }
}

#[test]
fn widget_diffs_between_trees() {
    let before = vec![
        widget("a", "A", true, None),
        widget("b", "B", true, Some("1")),
        widget("c", "C", true, None),
    ];
    let after = vec![
        widget("b", "B2", false, Some("2")),
        widget("c", "C", true, None),
        widget("d", "D", true, None),
    ];
    let diffs = diff_widgets(&before, &after);
    assert_eq!(diffs.len(), 3);
    assert_eq!(diffs[0].widget_id, "a");
    assert_eq!(diffs[0].change, "removed");
    assert_eq!(diffs[1].widget_id, "b");
    assert_eq!(diffs[1].change, "changed");
    let fields: Vec<&str> = diffs[1].fields.iter().map(|f| f.field.as_str()).collect();
    assert_eq!(fields, vec!["enabled", "value", "label"]);
    assert_eq!(diffs[1].fields[0].before, "true");
    assert_eq!(diffs[1].fields[0].after, "false");
    assert_eq!(diffs[1].fields[1].before, "Some(\"1\")");
    assert_eq!(diffs[1].fields[1].after, "Some(\"2\")");
    assert_eq!(diffs[2].widget_id, "d");
    assert_eq!(diffs[2].change, "added");

    let report = SessionReport::build("s1", "100", "click", false, Vec::new(), &before, &after, Vec::new());
    assert_eq!(report.widget_diffs.len(), 3);
    assert_eq!(report.action, "click");
}

#[test]
fn menu_path_parts_trim_unicode_white_space() {
    assert_eq!(
        menu_path_parts("\tFile \u{3000},\n Save As\u{a0}, ,x"),
        vec!["File".to_string(), "Save As".to_string(), String::new(), "x".to_string()]
    );
    assert_eq!(menu_path_parts(""), vec![String::new()]);
}
