use battesty::settings::AppSettings;

fn settings_from_json(text: &str) -> AppSettings {
    let v: serde_json::Value = serde_json::from_str(text).unwrap();
    let number = |key: &str| v.get(key).and_then(|x| x.as_u64()).map(|x| x as u32);
    AppSettings::from_fields(
        number("update_interval_ms"),
        number("history_retention_hours"),
        v.get("show_percentage_on_icon").and_then(|x| x.as_bool()),
    )
}

#[test]
fn defaults_are_documented_values() {
    let d = AppSettings::default();
    assert_eq!(d.update_interval_ms, 30000);
    assert_eq!(d.history_retention_hours, 168);
    assert!(d.show_percentage_on_icon);
}

#[test]
fn partial_record_fills_missing_fields_with_defaults() {
    let s = settings_from_json(r#"{"update_interval_ms": 5000}"#);
    assert_eq!(s.update_interval_ms, 5000);
    assert_eq!(s.history_retention_hours, 168);
    assert!(s.show_percentage_on_icon);
}

#[test]
fn full_record_overrides_every_field() {
    let s = settings_from_json(
        r#"{"update_interval_ms": 1000, "history_retention_hours": 24, "show_percentage_on_icon": false}"#,
    );
    assert_eq!(s, AppSettings { update_interval_ms: 1000, history_retention_hours: 24, show_percentage_on_icon: false });
}

#[test]
fn empty_record_gives_defaults() {
    assert_eq!(AppSettings::from_fields(None, None, None), AppSettings::default());
}
