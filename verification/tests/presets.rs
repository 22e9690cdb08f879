use cmakr::CMakePreset;
use cmakr::CMakePresets;

const FIXTURE: &str = r#"{
    "version": 3,
    "configurePresets": [
        {
            "name": "base",
            "hidden": true
        },
        {
            "name": "default",
            "hidden": false
        }
    ]
}"#;

#[test]
fn get_cmake_preset() {
    let presets = CMakePresets::from_json(FIXTURE).unwrap();
    let preset = presets
        .get_preset("default")
        .expect("Failed to get preset default");
    assert_eq!(preset.get_name(), "default");
}

#[test]
fn visible_preset_is_found() {
    let doc = r#"{"configurePresets": [{"name": "default", "hidden": false}]}"#;
    let presets = CMakePresets::from_json(doc).unwrap();
    let preset = presets.get_preset("default");
    assert!(preset.is_some());
    assert_eq!(preset.unwrap().get_name(), "default");
}

#[test]
fn hidden_preset_is_not_found() {
    let doc = r#"{"configurePresets": [{"name": "x", "hidden": true}]}"#;
    let presets = CMakePresets::from_json(doc).unwrap();
    assert!(presets.get_preset("x").is_none());
}

#[test]
fn absent_preset_is_not_found() {
    let doc = r#"{"configurePresets": [{"name": "default"}]}"#;
    let presets = CMakePresets::from_json(doc).unwrap();
    assert!(presets.get_preset("release").is_none());
}

#[test]
fn lookup_on_empty_catalog_is_not_found() {
    let doc = r#"{"configurePresets": []}"#;
    let presets = CMakePresets::from_json(doc).unwrap();
    assert!(presets.get_preset("default").is_none());
}

#[test]
fn hidden_defaults_to_false() {
    let doc = r#"{"configurePresets": [{"name": "default"}]}"#;
    let presets = CMakePresets::from_json(doc).unwrap();
    assert!(presets.get_preset("default").is_some());
}

#[test]
fn hidden_duplicate_is_skipped() {
    let doc = r#"{"configurePresets": [
        {"name": "dup", "hidden": true},
        {"name": "dup", "hidden": false}
    ]}"#;
    let presets = CMakePresets::from_json(doc).unwrap();
    let preset = presets.get_preset("dup");
    assert!(preset.is_some());
    assert_eq!(preset.unwrap().get_name(), "dup");
}

#[test]
fn unknown_fields_are_ignored() {
    let doc = r#"{
        "version": 9,
        "vendor": {"anything": []},
        "configurePresets": [
            {"name": "default", "displayName": "Default", "binaryDir": "b"}
        ]
    }"#;
    let presets = CMakePresets::from_json(doc).unwrap();
    assert!(presets.get_preset("default").is_some());
}

#[test]
fn constructed_catalog_obeys_the_lookup_rule() {
    let presets = CMakePresets::from_presets(vec![
        CMakePreset::new("default", true),
        CMakePreset::new("default", false),
        CMakePreset::new("release", false),
    ]);
    assert_eq!(presets.get_preset("default").unwrap().get_name(), "default");
    assert_eq!(presets.get_preset("release").unwrap().get_name(), "release");
    assert!(presets.get_preset("debug").is_none());
}

#[test]
fn malformed_text_is_rejected() {
    assert!(CMakePresets::from_json("this is not json").is_none());
}

#[test]
fn missing_preset_array_is_rejected() {
    assert!(CMakePresets::from_json("{}").is_none());
    assert!(CMakePresets::from_json(r#"{"version": 3}"#).is_none());
}

#[test]
fn non_array_presets_field_is_rejected() {
    assert!(CMakePresets::from_json(r#"{"configurePresets": 5}"#).is_none());
}

#[test]
fn entry_without_name_is_rejected() {
    assert!(CMakePresets::from_json(r#"{"configurePresets": [{"hidden": true}]}"#).is_none());
}

#[test]
fn non_string_name_is_rejected() {
    assert!(CMakePresets::from_json(r#"{"configurePresets": [{"name": 7}]}"#).is_none());
}

#[test]
fn non_boolean_hidden_is_rejected() {
    let doc = r#"{"configurePresets": [{"name": "default", "hidden": "yes"}]}"#;
    assert!(CMakePresets::from_json(doc).is_none());
}
