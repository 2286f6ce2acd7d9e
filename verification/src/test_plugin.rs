//! The settings showcase extension: declares one field of every kind and,
//! when run, echoes each decoded value to the log. It touches nothing
//! outside, so its run is specified exactly.

use vstd::prelude::*;

use crate::api::PluginApi;
use crate::logger::{plain_entry, EntryView, LogLevel, Logger};
use crate::plugin::{Plugin, PluginPreview};
use crate::settings::{
    FieldView, MetaView, OptionView, PluginMeta, SettingField, SettingKind, SettingOption,
    SettingUi, UiView,
};
use crate::value::{
    get_bool, get_num_text, get_text, spec_get_bool, spec_get_num_text, spec_get_text,
    SettingsValue, ValueView,
};

verus! {

/// The settings showcase extension.
pub struct TestPlugin;

/// The description this extension always gives of itself.
pub open spec fn test_plugin_meta() -> MetaView {
    MetaView {
        id: "test_plugin"@,
        name: "Test plugin"@,
        description: "Exercises every settings control."@,
        category: "Other"@,
        settings: seq![
            FieldView {
                key: "enabled"@,
                label: "Enable"@,
                kind: SettingKind::Boolean,
                description: Some("A switch control."@),
                required: false,
                default_value: ValueView::Bool(true),
                options: None,
                ui: None,
            },
            FieldView {
                key: "username"@,
                label: "User name"@,
                kind: SettingKind::Text,
                description: Some("A plain text field."@),
                required: true,
                default_value: ValueView::Text("darkfated"@),
                options: None,
                ui: Some(UiView {
                    placeholder: Some("Enter a name"@),
                    min: None,
                    max: None,
                    step: None,
                    rows: None,
                    unit: None,
                    danger: None,
                }),
            },
            FieldView {
                key: "notes"@,
                label: "Notes"@,
                kind: SettingKind::Text,
                description: Some("Multi-line text."@),
                required: false,
                default_value: ValueView::Text("For example: a task list, remarks..."@),
                options: None,
                ui: Some(UiView {
                    placeholder: Some("Enter notes"@),
                    min: None,
                    max: None,
                    step: None,
                    rows: Some(4u32),
                    unit: None,
                    danger: None,
                }),
            },
            FieldView {
                key: "refresh_rate"@,
                label: "Refresh rate"@,
                kind: SettingKind::Number,
                description: Some("A numeric field with bounds and a step."@),
                required: true,
                default_value: ValueView::Num("60"@),
                options: None,
                ui: Some(UiView {
                    placeholder: None,
                    min: Some(1i64),
                    max: Some(240i64),
                    step: Some(1i64),
                    rows: None,
                    unit: Some("Hz"@),
                    danger: None,
                }),
            },
            FieldView {
                key: "accent"@,
                label: "Accent color"@,
                kind: SettingKind::Color,
                description: Some("A HEX color (#RRGGBB)."@),
                required: true,
                default_value: ValueView::Text("#7ae2ff"@),
                options: None,
                ui: Some(UiView {
                    placeholder: Some("#7ae2ff"@),
                    min: None,
                    max: None,
                    step: None,
                    rows: None,
                    unit: None,
                    danger: None,
                }),
            },
            FieldView {
                key: "mode"@,
                label: "Mode"@,
                kind: SettingKind::Select,
                description: Some("A drop-down list of choices."@),
                required: true,
                default_value: ValueView::Text("balanced"@),
                options: Some(seq![
                    OptionView { label: "Economy"@, value: ValueView::Text("eco"@) },
                    OptionView { label: "Balanced"@, value: ValueView::Text("balanced"@) },
                    OptionView {
                        label: "Performance"@,
                        value: ValueView::Text("performance"@),
                    },
                ]),
                ui: None,
            },
        ],
    }
}

/// The text shown for a boolean.
pub open spec fn bool_text(b: bool) -> Seq<char> {
    if b {
        "true"@
    } else {
        "false"@
    }
}

/// The entries a showcase run appends: one line per decoded setting, then a
/// closing success marker.
pub open spec fn test_run_entries(v: SettingsValue, ind: u8) -> Seq<EntryView> {
    seq![
        plain_entry(LogLevel::Info, "enabled: "@ + bool_text(spec_get_bool(v, "enabled"@, false)), ind),
        plain_entry(LogLevel::Info, "username: "@ + spec_get_text(v, "username"@, ""@), ind),
        plain_entry(LogLevel::Info, "notes: "@ + spec_get_text(v, "notes"@, ""@), ind),
        plain_entry(
            LogLevel::Info,
            "refresh_rate: "@ + spec_get_num_text(v, "refresh_rate"@, "0"@),
            ind,
        ),
        plain_entry(LogLevel::Info, "accent: "@ + spec_get_text(v, "accent"@, ""@), ind),
        plain_entry(LogLevel::Info, "mode: "@ + spec_get_text(v, "mode"@, ""@), ind),
        plain_entry(LogLevel::Success, "Test finished."@, ind),
    ]
}

impl Plugin for TestPlugin {
    open spec fn spec_meta(&self) -> MetaView {
        test_plugin_meta()
    }

    fn meta(&self) -> (m: PluginMeta) {
        let mut fields: Vec<SettingField> = Vec::new();
        fields.push(
            SettingField {
                key: "enabled".to_owned(),
                label: "Enable".to_owned(),
                kind: SettingKind::Boolean,
                description: Some("A switch control.".to_owned()),
                required: false,
                default_value: SettingsValue::Bool(true),
                options: None,
                ui: None,
            },
        );
        fields.push(
            SettingField {
                key: "username".to_owned(),
                label: "User name".to_owned(),
                kind: SettingKind::Text,
                description: Some("A plain text field.".to_owned()),
                required: true,
                default_value: SettingsValue::Text("darkfated".to_owned()),
                options: None,
                ui: Some(
                    SettingUi {
                        placeholder: Some("Enter a name".to_owned()),
                        min: None,
                        max: None,
                        step: None,
                        rows: None,
                        unit: None,
                        danger: None,
                    },
                ),
            },
        );
        fields.push(
            SettingField {
                key: "notes".to_owned(),
                label: "Notes".to_owned(),
                kind: SettingKind::Text,
                description: Some("Multi-line text.".to_owned()),
                required: false,
                default_value: SettingsValue::Text(
                    "For example: a task list, remarks...".to_owned(),
                ),
                options: None,
                ui: Some(
                    SettingUi {
                        placeholder: Some("Enter notes".to_owned()),
                        min: None,
                        max: None,
                        step: None,
                        rows: Some(4),
                        unit: None,
                        danger: None,
                    },
                ),
            },
        );
        fields.push(
            SettingField {
                key: "refresh_rate".to_owned(),
                label: "Refresh rate".to_owned(),
                kind: SettingKind::Number,
                description: Some("A numeric field with bounds and a step.".to_owned()),
                required: true,
                default_value: SettingsValue::Num("60".to_owned()),
                options: None,
                ui: Some(
                    SettingUi {
                        placeholder: None,
                        min: Some(1),
                        max: Some(240),
                        step: Some(1),
                        rows: None,
                        unit: Some("Hz".to_owned()),
                        danger: None,
                    },
                ),
            },
        );
        fields.push(
            SettingField {
                key: "accent".to_owned(),
                label: "Accent color".to_owned(),
                kind: SettingKind::Color,
                description: Some("A HEX color (#RRGGBB).".to_owned()),
                required: true,
                default_value: SettingsValue::Text("#7ae2ff".to_owned()),
                options: None,
                ui: Some(
                    SettingUi {
                        placeholder: Some("#7ae2ff".to_owned()),
                        min: None,
                        max: None,
                        step: None,
                        rows: None,
                        unit: None,
                        danger: None,
                    },
                ),
            },
        );
        let mut options: Vec<SettingOption> = Vec::new();
        options.push(
            SettingOption {
                label: "Economy".to_owned(),
                value: SettingsValue::Text("eco".to_owned()),
            },
        );
        options.push(
            SettingOption {
                label: "Balanced".to_owned(),
                value: SettingsValue::Text("balanced".to_owned()),
            },
        );
        options.push(
            SettingOption {
                label: "Performance".to_owned(),
                value: SettingsValue::Text("performance".to_owned()),
            },
        );
        fields.push(
            SettingField {
                key: "mode".to_owned(),
                label: "Mode".to_owned(),
                kind: SettingKind::Select,
                description: Some("A drop-down list of choices.".to_owned()),
                required: true,
                default_value: SettingsValue::Text("balanced".to_owned()),
                options: Some(options),
                ui: None,
            },
        );
        let m = PluginMeta {
            id: "test_plugin".to_owned(),
            name: "Test plugin".to_owned(),
            description: "Exercises every settings control.".to_owned(),
            category: "Other".to_owned(),
            settings: fields,
        };
        proof {
            assert(m@.settings[5].options->0 =~= test_plugin_meta().settings[5].options->0);
            assert(m@.settings =~= test_plugin_meta().settings);
        }
        m
    }

    fn defaults<A: PluginApi>(&self, api: &A) -> (r: Option<SettingsValue>) {
        None
    }

    fn preview<A: PluginApi>(&self, api: &A) -> (r: Result<Option<PluginPreview>, String>)
        ensures
            r is Ok,
    {
        Ok(None)
    }

    /// Echoes each decoded setting, then reports success; appends exactly
    /// the entries `test_run_entries` describes.
    fn run<A: PluginApi>(&self, api: &A, settings: &SettingsValue, logger: &mut Logger) -> (r:
        Result<(), String>)
        ensures
            r is Ok,
            final(logger)@.logs == old(logger)@.logs + test_run_entries(
                *settings,
                old(logger)@.indent,
            ),
    {
        let mut line = "enabled: ".to_owned();
        if get_bool(settings, "enabled", false) {
            line.append("true");
        } else {
            line.append("false");
        }
        logger.info(line.as_str());

        let mut line = "username: ".to_owned();
        line.append(get_text(settings, "username", "").as_str());
        logger.info(line.as_str());

        let mut line = "notes: ".to_owned();
        line.append(get_text(settings, "notes", "").as_str());
        logger.info(line.as_str());

        let mut line = "refresh_rate: ".to_owned();
        line.append(get_num_text(settings, "refresh_rate", "0").as_str());
        logger.info(line.as_str());

        let mut line = "accent: ".to_owned();
        line.append(get_text(settings, "accent", "").as_str());
        logger.info(line.as_str());

        let mut line = "mode: ".to_owned();
        line.append(get_text(settings, "mode", "").as_str());
        logger.info(line.as_str());

        logger.success("Test finished.");
        proof {
            assert(logger@.logs =~= old(logger)@.logs + test_run_entries(
                *settings,
                old(logger)@.indent,
            ));
        }
        Ok(())
    }
}

/// The instance of the settings showcase extension that the registry holds.
pub fn plugin() -> TestPlugin {
    TestPlugin
}

} // verus!
