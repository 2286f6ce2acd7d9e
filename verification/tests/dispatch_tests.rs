//! The dispatch pipeline end to end: listing, preview and run, driven
//! through a host stub standing in for the real environment.

use std::cell::RefCell;

use tweak_engine::api::{CmdOutput, DirEntryInfo, PluginApi};
use tweak_engine::logger::{LogLevel, Logger};
use tweak_engine::plugin::Plugin;
use tweak_engine::settings::{MetaView, PluginMeta, SettingField, SettingKind};
use tweak_engine::value::SettingsValue;
use tweak_engine::{list_plugins, preview_plugin, run_plugin, run_plugin_on};

/// A host stub: every registry key is absent, every directory is empty or
/// unreadable, no command runs, and the platform is not Windows. Writes to
/// the configuration store are recorded for inspection.
struct StubApi {
    windows: bool,
    registry_exists: Result<bool, String>,
    registry_get: Result<String, String>,
    command: Result<CmdOutput, String>,
    writes: RefCell<Vec<(String, String, String)>>,
}

impl StubApi {
    fn new() -> StubApi {
        StubApi {
            windows: false,
            registry_exists: Err("unsupported".to_string()),
            registry_get: Err("unsupported".to_string()),
            command: Err("unsupported".to_string()),
            writes: RefCell::new(Vec::new()),
        }
    }
}

impl PluginApi for StubApi {
    fn app_data_dir(&self) -> Result<String, String> {
        Err("unsupported".to_string())
    }
    fn temp_dir(&self) -> String {
        "/tmp".to_string()
    }
    fn system_root(&self) -> Option<String> {
        None
    }
    fn path_exists(&self, _path: &str) -> bool {
        false
    }
    fn read_dir(&self, _path: &str) -> Result<Vec<DirEntryInfo>, String> {
        Err("unsupported".to_string())
    }
    fn create_dir_all(&self, _path: &str) -> Result<(), String> {
        Err("unsupported".to_string())
    }
    fn remove_file(&self, _path: &str) -> Result<(), String> {
        Err("unsupported".to_string())
    }
    fn remove_dir_all(&self, _path: &str) -> Result<(), String> {
        Err("unsupported".to_string())
    }
    fn get_registry_string(&self, _key_path: &str, _name: &str) -> Result<String, String> {
        self.registry_get.clone()
    }
    fn set_registry_string(&self, key_path: &str, name: &str, value: &str) -> Result<(), String> {
        self.writes
            .borrow_mut()
            .push((key_path.to_string(), name.to_string(), value.to_string()));
        Ok(())
    }
    fn registry_key_exists(&self, _key_path: &str) -> Result<bool, String> {
        self.registry_exists.clone()
    }
    fn create_registry_key(&self, _key_path: &str) -> Result<(), String> {
        Err("unsupported".to_string())
    }
    fn delete_registry_key(&self, _key_path: &str) -> Result<(), String> {
        Err("unsupported".to_string())
    }
    fn restart_explorer(&self) -> Result<(), String> {
        Err("unsupported".to_string())
    }
    fn run_command(&self, _cmd: &str, _args: &Vec<String>) -> Result<CmdOutput, String> {
        self.command.clone()
    }
    fn os_is_windows(&self) -> bool {
        self.windows
    }
}

/// An extension with one required boolean field defaulting to false, whose
/// action records a marker entry; it drives the end-to-end run scenarios.
struct MarkerPlugin;

impl Plugin for MarkerPlugin {
    fn spec_meta(&self) -> MetaView {
        unreachable!()
    }
    fn meta(&self) -> PluginMeta {
        PluginMeta {
            id: "marker".to_string(),
            name: "Marker".to_string(),
            description: "".to_string(),
            category: "Test".to_string(),
            settings: vec![SettingField {
                key: "x".to_string(),
                label: "X".to_string(),
                kind: SettingKind::Boolean,
                description: None,
                required: true,
                default_value: SettingsValue::Bool(false),
                options: None,
                ui: None,
            }],
        }
    }
    fn defaults<A: PluginApi>(&self, _api: &A) -> Option<SettingsValue> {
        None
    }
    fn preview<A: PluginApi>(&self, _api: &A) -> Result<Option<tweak_engine::PluginPreview>, String> {
        Ok(None)
    }
    fn run<A: PluginApi>(
        &self,
        _api: &A,
        _settings: &SettingsValue,
        logger: &mut Logger,
    ) -> Result<(), String> {
        logger.info("marker");
        Ok(())
    }
}

fn obj(pairs: Vec<(&str, SettingsValue)>) -> SettingsValue {
    SettingsValue::Obj(pairs.into_iter().map(|(k, v)| (k.to_string(), v)).collect())
}

#[test]
fn run_resolves_a_required_field_from_its_default() {
    let api = StubApi::new();
    let result = run_plugin_on(&MarkerPlugin, &api, &obj(vec![]));
    assert!(result.ok);
    assert_eq!(result.message, "Done.");
    // section header, settings group, the resolved value, and success
    assert_eq!(result.logs[0].message, "Plugin: Marker");
    assert_eq!(result.logs[0].indent, 0);
    assert_eq!(result.logs[1].message, "Selected settings:");
    assert_eq!(result.logs[2].message, "X");
    assert_eq!(result.logs[2].detail, Some("false".to_string()));
    assert_eq!(result.logs[2].indent, 1);
    assert!(result.logs.iter().any(|e| e.message == "marker"));
    let last = result.logs.last().unwrap();
    assert_eq!(last.level, LogLevel::Success);
    assert_eq!(last.message, "Finished successfully.");
}

#[test]
fn run_rejects_a_required_field_set_to_null() {
    let api = StubApi::new();
    let result = run_plugin_on(&MarkerPlugin, &api, &obj(vec![("x", SettingsValue::Null)]));
    assert!(!result.ok);
    assert_eq!(result.message, "Invalid settings.");
    let errors: Vec<_> = result
        .logs
        .iter()
        .filter(|e| e.level == LogLevel::Error)
        .collect();
    assert_eq!(errors.len(), 1);
    assert_eq!(errors[0].message, "Field 'X' is required.");
    // the action never ran
    assert!(result.logs.iter().all(|e| e.message != "marker"));
}

#[test]
fn run_plugin_fails_only_on_an_unknown_identifier() {
    let api = StubApi::new();
    let missing = run_plugin(&api, "no_such_extension", &obj(vec![]));
    assert_eq!(missing.unwrap_err(), "Plugin not found: no_such_extension");

    let found = run_plugin(&api, "test_plugin", &obj(vec![]));
    assert!(found.is_ok());
}

#[test]
fn run_plugin_drives_the_showcase_extension_with_its_defaults() {
    let api = StubApi::new();
    let result = run_plugin(&api, "test_plugin", &obj(vec![])).unwrap();
    assert!(result.ok);
    assert_eq!(result.message, "Done.");
    assert_eq!(result.logs[0].message, "Plugin: Test plugin");
    assert!(result.logs.iter().any(|e| e.message == "enabled: true"));
    assert!(result.logs.iter().any(|e| e.message == "username: darkfated"));
    assert!(result.logs.iter().any(|e| e.message == "refresh_rate: 60"));
    assert!(result.logs.iter().any(|e| e.message == "mode: balanced"));
}

#[test]
fn run_plugin_reports_the_extension_error_verbatim() {
    let api = StubApi::new();
    let settings = obj(vec![("flush_dns", SettingsValue::Bool(true))]);
    let result = run_plugin(&api, "network_tools", &settings).unwrap();
    assert!(!result.ok);
    assert_eq!(result.message, "This module is only available on Windows.");
    let last = result.logs.last().unwrap();
    assert_eq!(last.level, LogLevel::Error);
    assert_eq!(last.message, "This module is only available on Windows.");
}

#[test]
fn network_tools_demands_at_least_one_operation() {
    let mut api = StubApi::new();
    api.windows = true;
    let result = run_plugin(&api, "network_tools", &obj(vec![])).unwrap();
    assert!(!result.ok);
    assert_eq!(result.message, "Select at least one operation.");
}

#[test]
fn network_tools_runs_the_selected_commands() {
    let mut api = StubApi::new();
    api.windows = true;
    api.command = Ok(CmdOutput {
        success: true,
        code: Some(0),
        stdout: "  flushed  ".to_string(),
        stderr: "".to_string(),
    });
    let settings = obj(vec![("flush_dns", SettingsValue::Bool(true))]);
    let result = run_plugin(&api, "network_tools", &settings).unwrap();
    assert!(result.ok);
    assert!(result
        .logs
        .iter()
        .any(|e| e.message == "Running: ipconfig /flushdns"));
    assert!(result.logs.iter().any(|e| e.message == "flushed"));
}

#[test]
fn classic_menu_reports_an_already_disabled_state() {
    let mut api = StubApi::new();
    api.registry_exists = Ok(false);
    let settings = obj(vec![("use_classic", SettingsValue::Bool(false))]);
    let result = run_plugin(&api, "contextmenu_classic", &settings).unwrap();
    assert!(result.ok);
    assert!(result
        .logs
        .iter()
        .any(|e| e.message == "The classic menu is already disabled."));
}

#[test]
fn selection_colors_write_the_normalized_triple() {
    let api = StubApi::new();
    let settings = obj(vec![
        ("hilight_color", SettingsValue::Text("#3AA3FF".to_string())),
        ("hot_tracking_color", SettingsValue::Text("0 255 0".to_string())),
    ]);
    let result = run_plugin(&api, "cursor_highlight", &settings).unwrap();
    assert!(result.ok);
    let writes = api.writes.borrow();
    assert_eq!(
        *writes,
        vec![
            (
                "Control Panel\\Colors".to_string(),
                "Hilight".to_string(),
                "58 163 255".to_string()
            ),
            (
                "Control Panel\\Colors".to_string(),
                "HotTrackingColor".to_string(),
                "0 255 0".to_string()
            ),
        ]
    );
}

#[test]
fn selection_colors_skip_a_value_already_set() {
    let mut api = StubApi::new();
    // the store already holds the color, reported as an RGB triple
    api.registry_get = Ok("58 163 255".to_string());
    let settings = obj(vec![
        ("hilight_color", SettingsValue::Text("#3AA3FF".to_string())),
        ("hot_tracking_color", SettingsValue::Text("58 163 255".to_string())),
    ]);
    let result = run_plugin(&api, "cursor_highlight", &settings).unwrap();
    assert!(result.ok);
    assert!(api.writes.borrow().is_empty());
    assert!(result
        .logs
        .iter()
        .any(|e| e.message == "Hilight is already set: #3aa3ff"));
}

#[test]
fn selection_colors_reject_a_malformed_color() {
    let api = StubApi::new();
    let settings = obj(vec![(
        "hilight_color",
        SettingsValue::Text("not-a-color".to_string()),
    )]);
    let result = run_plugin(&api, "cursor_highlight", &settings).unwrap();
    assert!(!result.ok);
    assert_eq!(
        result.message,
        "Color must be HEX (#RRGGBB) or RGB (R G B)."
    );
}

#[test]
fn listing_is_sorted_by_case_insensitive_display_name() {
    let api = StubApi::new();
    let infos = list_plugins(&api);
    let names: Vec<&str> = infos.iter().map(|i| i.name.as_str()).collect();
    // "selection colors" sorts between the capitalized names only when the
    // comparison folds case
    assert_eq!(
        names,
        vec![
            "Classic context menu",
            "Network cleanup",
            "selection colors",
            "System cleanup",
            "Test plugin"
        ]
    );
    let ids: Vec<&str> = infos.iter().map(|i| i.id.as_str()).collect();
    assert_eq!(
        ids,
        vec![
            "contextmenu_classic",
            "network_tools",
            "cursor_highlight",
            "temp_cleaner",
            "test_plugin"
        ]
    );
}

#[test]
fn listing_merges_live_defaults_over_schema_defaults() {
    let api = StubApi::new();
    let infos = list_plugins(&api);
    let classic = infos
        .iter()
        .find(|i| i.id == "contextmenu_classic")
        .unwrap();
    // the live probe failed in the stub, so the probe's fallback (off)
    // stands for the one switch
    assert_eq!(
        classic.defaults,
        SettingsValue::Obj(vec![("use_classic".to_string(), SettingsValue::Bool(false))])
    );
    let showcase = infos.iter().find(|i| i.id == "test_plugin").unwrap();
    match &showcase.defaults {
        SettingsValue::Obj(pairs) => {
            assert!(pairs.contains(&("enabled".to_string(), SettingsValue::Bool(true))));
            assert!(pairs.contains(&(
                "mode".to_string(),
                SettingsValue::Text("balanced".to_string())
            )));
        }
        other => panic!("defaults are not an object: {:?}", other),
    }
}

#[test]
fn preview_reports_the_reclaimable_total() {
    let api = StubApi::new();
    let preview = preview_plugin(&api, "temp_cleaner").unwrap().unwrap();
    assert_eq!(preview.title, "Reclaimable");
    assert_eq!(preview.value, "0 B");
    assert_eq!(
        preview.note,
        Some(
            "User %TEMP%: 0 B \u{2022} System TEMP: 0 B \u{2022} Windows update cache: 0 B \u{2022} Crash minidumps: 0 B"
                .to_string()
        )
    );
}

#[test]
fn preview_fails_only_on_an_unknown_identifier() {
    let api = StubApi::new();
    let missing = preview_plugin(&api, "nope");
    assert_eq!(missing.unwrap_err(), "Plugin not found: nope");
    let known = preview_plugin(&api, "network_tools").unwrap();
    assert_eq!(known, None);
}

#[test]
fn cleaner_dry_run_reports_without_deleting() {
    let mut api = StubApi::new();
    api.windows = true;
    let settings = obj(vec![("dry_run", SettingsValue::Bool(true))]);
    let result = run_plugin(&api, "temp_cleaner", &settings).unwrap();
    // the stub has no readable directories, so nothing is found and the
    // run succeeds with an empty total
    assert!(result.ok);
    assert!(result
        .logs
        .iter()
        .any(|e| e.message == "Freed: 0 B (check mode)."));
}
