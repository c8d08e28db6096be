use fluid::widgets::{WidgetEntry, WidgetRegistry};

#[test]
fn register_and_retrieve() {
    let mut r = WidgetRegistry::new();
    r.register(WidgetEntry::button("btn_run".to_string(), "Run Simulation".to_string()));
    let entry = r.get("btn_run").expect("entry should exist");
    assert_eq!(entry.kind, "Button");
    assert_eq!(entry.label.as_deref(), Some("Run Simulation"));
}

#[test]
fn clear_removes_all() {
    let mut r = WidgetRegistry::new();
    r.register(WidgetEntry::button("a".to_string(), "A".to_string()));
    r.register(WidgetEntry::button("b".to_string(), "B".to_string()));
    r.clear();
    assert!(r.snapshot().is_empty());
}

#[test]
fn snapshot_is_sorted() {
    let mut r = WidgetRegistry::new();
    r.register(WidgetEntry::button("z_btn".to_string(), "Z".to_string()));
    r.register(WidgetEntry::button("a_btn".to_string(), "A".to_string()));
    let snap = r.snapshot();
    assert_eq!(snap[0].id, "a_btn");
    assert_eq!(snap[1].id, "z_btn");
}

#[test]
fn register_replaces_same_id() {
    let mut r = WidgetRegistry::new();
    r.register(WidgetEntry::button("x".to_string(), "Old".to_string()));
    r.register(WidgetEntry::text_input("x".to_string(), "New".to_string(), "v".to_string()));
    let snap = r.snapshot();
    assert_eq!(snap.len(), 1);
    assert_eq!(snap[0].kind, "TextInput");
    assert_eq!(snap[0].value.as_deref(), Some("v"));
}

#[test]
fn unregister_removes_only_that_id() {
    let mut r = WidgetRegistry::new();
    r.register(WidgetEntry::button("a".to_string(), "A".to_string()));
    r.register(WidgetEntry::button("b".to_string(), "B".to_string()));
    r.unregister("a");
    assert!(r.get("a").is_none());
    assert!(r.get("b").is_some());
}

#[test]
fn snapshot_grows_only_for_new_ids() {
    let mut r = WidgetRegistry::new();
    r.register(WidgetEntry::button("a".to_string(), "A".to_string()));
    assert_eq!(r.snapshot().len(), 1);
    r.register(WidgetEntry::button("b".to_string(), "B".to_string()));
    assert_eq!(r.snapshot().len(), 2);
    r.register(WidgetEntry::button("a".to_string(), "A2".to_string()));
    assert_eq!(r.snapshot().len(), 2);
    assert_eq!(r.get("a").unwrap().label.as_deref(), Some("A2"));
    assert_eq!(r.get("b").unwrap().label.as_deref(), Some("B"));
}
