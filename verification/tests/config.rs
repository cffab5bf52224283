use tenwa::config::{
    document_setting_of, read_config_val, save_config_val, startup_options, updated_document,
    StartupOptions,
};

#[test]
fn read_missing_file() {
    assert_eq!(read_config_val(None, "tenwa"), None);
}

#[test]
fn read_string_setting() {
    let text = r#"{"tenwa": "true", "n": 3}"#;
    assert_eq!(read_config_val(Some(text), "tenwa"), Some("true".to_string()));
}

#[test]
fn read_non_string_setting() {
    let text = r#"{"tenwa": true, "n": 3}"#;
    assert_eq!(read_config_val(Some(text), "tenwa"), None);
    assert_eq!(read_config_val(Some(text), "n"), None);
}

#[test]
fn read_absent_key() {
    assert_eq!(read_config_val(Some(r#"{"a": "b"}"#), "c"), None);
}

#[test]
fn read_invalid_json() {
    assert_eq!(read_config_val(Some("{not json"), "a"), None);
    assert_eq!(read_config_val(Some(""), "a"), None);
}

#[test]
fn read_non_object() {
    assert_eq!(read_config_val(Some(r#"["a", "b"]"#), "a"), None);
    assert_eq!(read_config_val(Some(r#""a""#), "a"), None);
}

#[test]
fn save_into_missing_file() {
    assert_eq!(
        save_config_val(None, "tenwa".to_string(), "true".to_string()),
        "{\n  \"tenwa\": \"true\"\n}".to_string()
    );
}

#[test]
fn save_into_invalid_json_starts_fresh() {
    assert_eq!(
        save_config_val(Some("garbage"), "k".to_string(), "v".to_string()),
        "{\n  \"k\": \"v\"\n}".to_string()
    );
}

#[test]
fn save_keeps_other_fields() {
    let text = r#"{"a": 1, "b": "x"}"#;
    let out = save_config_val(Some(text), "c".to_string(), "y".to_string());
    assert_eq!(out, "{\n  \"a\": 1,\n  \"b\": \"x\",\n  \"c\": \"y\"\n}");
}

#[test]
fn save_replaces_field() {
    let text = r#"{"a": {"deep": [1, 2]}, "b": "x"}"#;
    let out = save_config_val(Some(text), "b".to_string(), "z".to_string());
    assert_eq!(read_config_val(Some(&out), "b"), Some("z".to_string()));
    assert!(out.contains("\"deep\""));
}

#[test]
fn save_over_non_object_starts_fresh() {
    let out = save_config_val(Some("[1,2]"), "k".to_string(), "v".to_string());
    assert_eq!(out, "{\n  \"k\": \"v\"\n}");
    assert_eq!(read_config_val(Some(&out), "k"), Some("v".to_string()));
    let out = save_config_val(Some("\"text\""), "a".to_string(), "1".to_string());
    assert_eq!(read_config_val(Some(&out), "a"), Some("1".to_string()));
}

#[test]
fn save_twice_gives_same_text() {
    let once = save_config_val(Some(r#"{"n": 2.5, "x": "y"}"#), "k".to_string(), "v".to_string());
    let twice = save_config_val(Some(&once), "k".to_string(), "v".to_string());
    assert_eq!(once, twice);
    assert_eq!(read_config_val(Some(&twice), "x"), Some("y".to_string()));
}

#[test]
fn save_then_read_gives_value() {
    let first = save_config_val(None, "show_whatsapp_window".to_string(), "true".to_string());
    let second = save_config_val(Some(&first), "tenwa".to_string(), "false".to_string());
    assert_eq!(read_config_val(Some(&second), "tenwa"), Some("false".to_string()));
    assert_eq!(read_config_val(Some(&second), "show_whatsapp_window"), Some("true".to_string()));
    assert_eq!(read_config_val(Some(&second), "other"), None);
}

#[test]
fn save_value_with_quotes() {
    let out = save_config_val(None, "k".to_string(), "a \"q\"\n".to_string());
    assert_eq!(read_config_val(Some(&out), "k"), Some("a \"q\"\n".to_string()));
}

#[test]
fn startup_defaults() {
    assert_eq!(startup_options(None), StartupOptions { auto_start: false, show_window: false });
    assert_eq!(
        startup_options(Some("{}")),
        StartupOptions { auto_start: false, show_window: false }
    );
}

#[test]
fn startup_auto_start() {
    assert_eq!(
        startup_options(Some(r#"{"tenwa": "true", "show_whatsapp_window": "true"}"#)),
        StartupOptions { auto_start: true, show_window: true }
    );
    assert_eq!(
        startup_options(Some(r#"{"tenWA": "true"}"#)),
        StartupOptions { auto_start: true, show_window: false }
    );
}

#[test]
fn startup_first_key_decides() {
    assert_eq!(
        startup_options(Some(r#"{"tenwa": "false", "tenWA": "true"}"#)),
        StartupOptions { auto_start: false, show_window: false }
    );
    assert_eq!(
        startup_options(Some(r#"{"tenwa": true, "tenWA": "true"}"#)),
        StartupOptions { auto_start: true, show_window: false }
    );
    assert_eq!(
        startup_options(Some(r#"{"tenwa": "TRUE", "show_whatsapp_window": "yes"}"#)),
        StartupOptions { auto_start: false, show_window: false }
    );
}

#[test]
fn setting_of_parsed_document() {
    let doc: serde_json::Value = serde_json::from_str(r#"{"a": "b", "n": 1}"#).unwrap();
    assert_eq!(document_setting_of(Some(doc.clone()), "a"), Some("b".to_string()));
    assert_eq!(document_setting_of(Some(doc), "n"), None);
    assert_eq!(document_setting_of(None, "a"), None);
    let arr: serde_json::Value = serde_json::from_str("[1]").unwrap();
    assert_eq!(document_setting_of(Some(arr), "a"), None);
}

#[test]
fn updated_document_sets_field() {
    let doc: serde_json::Value = serde_json::from_str(r#"{"a": "b", "n": 1}"#).unwrap();
    let out = updated_document(Some(doc), "c".to_string(), "d".to_string());
    let expected: serde_json::Value = serde_json::from_str(r#"{"a": "b", "n": 1, "c": "d"}"#).unwrap();
    assert_eq!(out, expected);
    let fresh = updated_document(None, "k".to_string(), "v".to_string());
    let expected: serde_json::Value = serde_json::from_str(r#"{"k": "v"}"#).unwrap();
    assert_eq!(fresh, expected);
    let arr: serde_json::Value = serde_json::from_str("[1, 2]").unwrap();
    assert_eq!(updated_document(Some(arr), "k".to_string(), "v".to_string()), expected);
}
