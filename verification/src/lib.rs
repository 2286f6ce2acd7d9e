//! Extension execution engine: a settings schema model with default
//! extraction, merge and validation, a structured indent-aware logger, a
//! uniform extension contract, and the dispatch pipeline that resolves an
//! extension by identifier and runs it while capturing a full log.

pub mod api;
pub mod contextmenu_classic_plugin;
pub mod cursor_highlight_plugin;
pub mod fmt;
pub mod network_tools_plugin;
pub mod plugin;
pub mod logger;
pub mod registry;
pub mod settings;
pub mod temp_cleaner_plugin;
pub mod test_plugin;
pub mod text;
pub mod value;

pub use api::{CmdOutput, DirEntryInfo, PluginApi};
pub use logger::{LogEntry, LogLevel, Logger, RunResult};
pub use plugin::{run_plugin_on, Plugin, PluginPreview};
pub use registry::{all_plugins, list_plugins, preview_plugin, run_plugin, RegisteredPlugin};
pub use settings::{
    defaults_from_fields, merge_settings, validate_settings, PluginInfo, PluginMeta, SettingField,
    SettingKind, SettingOption, SettingUi,
};
pub use value::SettingsValue;
