use fluid::debug_server::{control_status, screenshot_status, tree_widgets, DebugRouter, HttpMethod, Route};
use fluid::widgets::{WidgetEntry, WidgetRegistry};

fn no_headers() -> Vec<(String, String)> {
    Vec::new()
}

#[test]
fn routes_known_endpoints() {
    let mut r = DebugRouter::new(String::new(), false, None);
    assert_eq!(r.route(HttpMethod::Get, "/health", &no_headers(), 0), Route::Health);
    assert_eq!(r.route(HttpMethod::Get, "/state", &no_headers(), 0), Route::State);
    assert_eq!(r.route(HttpMethod::Get, "/tree", &no_headers(), 0), Route::Tree { headless: false });
    assert_eq!(r.route(HttpMethod::Post, "/control", &no_headers(), 0), Route::Control);
    assert_eq!(r.route(HttpMethod::Get, "/logs", &no_headers(), 0), Route::Logs);
    assert_eq!(r.route(HttpMethod::Get, "/dashboard", &no_headers(), 0), Route::Dashboard);
    assert_eq!(r.route(HttpMethod::Get, "/control", &no_headers(), 0), Route::NotFound);
    assert_eq!(r.route(HttpMethod::Other, "/health", &no_headers(), 0), Route::NotFound);
    assert_eq!(Route::NotFound.status_code(), 404);
    assert_eq!(Route::Health.status_code(), 200);
}

#[test]
fn token_is_checked_first() {
    let mut r = DebugRouter::new("s3cret".to_string(), false, None);
    assert_eq!(r.route(HttpMethod::Get, "/health", &no_headers(), 0), Route::Unauthorized);
    let wrong = vec![("X-Debug-Token".to_string(), "nope".to_string())];
    assert_eq!(r.route(HttpMethod::Get, "/health", &wrong, 0), Route::Unauthorized);
    let right = vec![("x-debug-token".to_string(), "s3cret".to_string())];
    assert_eq!(r.route(HttpMethod::Get, "/health", &right, 0), Route::Health);
    assert_eq!(Route::Unauthorized.status_code(), 401);
}

#[test]
fn screenshots_are_rate_limited() {
    let mut r = DebugRouter::new(String::new(), false, None);
    assert_eq!(r.route(HttpMethod::Get, "/screenshot", &no_headers(), 1000), Route::Screenshot);
    assert_eq!(r.route(HttpMethod::Get, "/screenshot", &no_headers(), 1200), Route::ScreenshotRateLimited);
    assert_eq!(Route::ScreenshotRateLimited.status_code(), 429);
    assert_eq!(r.route(HttpMethod::Get, "/screenshot", &no_headers(), 1500), Route::Screenshot);
}

#[test]
fn headless_server_has_no_screen() {
    let mut r = DebugRouter::new(String::new(), true, None);
    assert_eq!(r.route(HttpMethod::Get, "/screenshot", &no_headers(), 0), Route::ScreenshotHeadless);
    assert_eq!(r.route(HttpMethod::Get, "/tree", &no_headers(), 0), Route::Tree { headless: true });
}

#[test]
fn status_codes_after_outside_work() {
    assert_eq!(screenshot_status(false), 500);
    assert_eq!(screenshot_status(true), 200);
    assert_eq!(control_status(false), 400);
    assert_eq!(control_status(true), 200);
}

#[test]
fn headless_tree_lists_no_widgets() {
    let mut reg = WidgetRegistry::new();
    reg.register(WidgetEntry::button("btn_run".to_string(), "Run".to_string()));
    reg.register(WidgetEntry::button("btn_add".to_string(), "Add".to_string()));
    assert!(tree_widgets(true, &reg).is_empty());
    let listed = tree_widgets(false, &reg);
    let ids: Vec<&str> = listed.iter().map(|w| w.id.as_str()).collect();
    assert_eq!(ids, vec!["btn_add", "btn_run"]);
}
