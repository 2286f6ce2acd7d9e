//! The settings model: default extraction, merge and validation.

use tweak_engine::settings::{SettingField, SettingKind};
use tweak_engine::value::SettingsValue;
use tweak_engine::{defaults_from_fields, merge_settings, validate_settings};

fn field(key: &str, label: &str, required: bool, default_value: SettingsValue) -> SettingField {
    SettingField {
        key: key.to_string(),
        label: label.to_string(),
        kind: SettingKind::Boolean,
        description: None,
        required,
        default_value,
        options: None,
        ui: None,
    }
}

fn obj(pairs: Vec<(&str, SettingsValue)>) -> SettingsValue {
    SettingsValue::Obj(pairs.into_iter().map(|(k, v)| (k.to_string(), v)).collect())
}

#[test]
fn defaults_from_fields_has_exactly_the_declared_keys() {
    let fields = vec![
        field("a", "A", false, SettingsValue::Bool(true)),
        field("b", "B", true, SettingsValue::Text("x".to_string())),
        field("c", "C", false, SettingsValue::Num("7".to_string())),
    ];
    let defaults = defaults_from_fields(&fields);
    let expected = obj(vec![
        ("a", SettingsValue::Bool(true)),
        ("b", SettingsValue::Text("x".to_string())),
        ("c", SettingsValue::Num("7".to_string())),
    ]);
    assert_eq!(defaults, expected);
}

#[test]
fn merge_is_idempotent_over_the_same_defaults() {
    let overrides = obj(vec![("a", SettingsValue::Bool(false)), ("extra", SettingsValue::Null)]);
    let defaults = obj(vec![
        ("a", SettingsValue::Bool(true)),
        ("b", SettingsValue::Text("keep".to_string())),
    ]);
    let merged = merge_settings(&overrides, &defaults);
    let merged_again = merge_settings(&merged, &defaults);
    assert_eq!(merged_again, merged);
}

#[test]
fn merge_of_empty_overrides_returns_the_defaults() {
    let defaults = obj(vec![("a", SettingsValue::Bool(true))]);
    let merged = merge_settings(&obj(vec![]), &defaults);
    assert_eq!(merged, defaults);
}

#[test]
fn merge_discards_non_object_overrides() {
    let defaults = obj(vec![("a", SettingsValue::Bool(true))]);
    let merged = merge_settings(&SettingsValue::Text("nonsense".to_string()), &defaults);
    assert_eq!(merged, defaults);
}

#[test]
fn merge_lets_every_override_key_win() {
    let overrides = obj(vec![
        ("a", SettingsValue::Bool(false)),
        ("extra", SettingsValue::Text("kept".to_string())),
    ]);
    let defaults = obj(vec![
        ("a", SettingsValue::Bool(true)),
        ("b", SettingsValue::Num("2".to_string())),
    ]);
    let merged = merge_settings(&overrides, &defaults);
    let expected = obj(vec![
        ("a", SettingsValue::Bool(false)),
        ("b", SettingsValue::Num("2".to_string())),
        ("extra", SettingsValue::Text("kept".to_string())),
    ]);
    assert_eq!(merged, expected);
}

#[test]
fn merge_layers_in_significance_order() {
    // schema defaults, then live defaults, then caller overrides
    let schema = obj(vec![
        ("a", SettingsValue::Num("1".to_string())),
        ("b", SettingsValue::Num("1".to_string())),
        ("c", SettingsValue::Num("1".to_string())),
    ]);
    let live = obj(vec![
        ("b", SettingsValue::Num("2".to_string())),
        ("c", SettingsValue::Num("2".to_string())),
    ]);
    let caller = obj(vec![("c", SettingsValue::Num("3".to_string()))]);
    let resolved = merge_settings(&caller, &merge_settings(&live, &schema));
    let expected = obj(vec![
        ("a", SettingsValue::Num("1".to_string())),
        ("b", SettingsValue::Num("2".to_string())),
        ("c", SettingsValue::Num("3".to_string())),
    ]);
    assert_eq!(resolved, expected);
}

#[test]
fn merge_keeps_the_shape_of_the_defaults() {
    let defaults = obj(vec![("a", SettingsValue::Bool(true))]);
    assert!(merge_settings(&obj(vec![]), &defaults).is_object());
    assert!(merge_settings(&SettingsValue::Null, &defaults).is_object());
    assert!(!merge_settings(&SettingsValue::Null, &SettingsValue::Null).is_object());
}

#[test]
fn validate_accepts_required_fields_that_are_present() {
    let fields = vec![
        field("x", "The X", true, SettingsValue::Bool(false)),
        field("y", "The Y", false, SettingsValue::Bool(false)),
    ];
    let settings = obj(vec![("x", SettingsValue::Bool(true))]);
    assert_eq!(validate_settings(&settings, &fields), Vec::<String>::new());
}

#[test]
fn validate_reports_one_error_per_missing_required_field() {
    let fields = vec![
        field("x", "The X", true, SettingsValue::Bool(false)),
        field("y", "The Y", true, SettingsValue::Bool(false)),
        field("z", "The Z", false, SettingsValue::Bool(false)),
    ];
    let settings = obj(vec![("y", SettingsValue::Bool(true))]);
    let errors = validate_settings(&settings, &fields);
    assert_eq!(errors, vec!["Field 'The X' is required.".to_string()]);
}

#[test]
fn validate_treats_null_as_missing() {
    let fields = vec![field("x", "The X", true, SettingsValue::Bool(false))];
    let settings = obj(vec![("x", SettingsValue::Null)]);
    let errors = validate_settings(&settings, &fields);
    assert_eq!(errors, vec!["Field 'The X' is required.".to_string()]);
}

#[test]
fn validate_never_checks_optional_fields() {
    let fields = vec![field("y", "The Y", false, SettingsValue::Bool(false))];
    let settings = obj(vec![("y", SettingsValue::Null)]);
    assert_eq!(validate_settings(&settings, &fields), Vec::<String>::new());
}

#[test]
fn validate_gives_one_generic_error_for_a_non_object() {
    let fields = vec![
        field("x", "The X", true, SettingsValue::Bool(false)),
        field("y", "The Y", true, SettingsValue::Bool(false)),
    ];
    let settings = SettingsValue::Text("not an object".to_string());
    let errors = validate_settings(&settings, &fields);
    assert_eq!(errors, vec!["Settings must be an object.".to_string()]);
}

#[test]
fn validate_neither_rejects_nor_strips_extra_keys() {
    let fields = vec![field("x", "The X", true, SettingsValue::Bool(false))];
    let settings = obj(vec![
        ("x", SettingsValue::Bool(true)),
        ("unknown", SettingsValue::Text("kept".to_string())),
    ]);
    assert_eq!(validate_settings(&settings, &fields), Vec::<String>::new());
}
