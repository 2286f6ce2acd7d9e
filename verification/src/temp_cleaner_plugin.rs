//! The system cleanup extension: walks the temporary directories a Windows
//! installation accumulates, measures them, and removes their contents,
//! with a dry-run mode that only reports what would go.

use vstd::prelude::*;

use crate::api::{DirEntryInfo, PluginApi};
use crate::fmt::format_bytes;
use crate::logger::Logger;
use crate::plugin::{Plugin, PluginPreview};
use crate::settings::{FieldView, MetaView, PluginMeta, SettingField, SettingKind};
use crate::text::u64_to_string;
use crate::value::{get_bool, SettingsValue, ValueView};

verus! {

/// The system cleanup extension.
pub struct TempCleanerPlugin;

/// The default of the user-temp switch: on.
pub fn default_true() -> (r: bool)
    ensures
        r == true,
{
    true
}

/// How deep the size walk and the cleaner follow nested directories; a
/// deeper tree counts as an error instead of an endless walk.
const MAX_WALK_DEPTH: u64 = 64;

/// The switches of a cleanup run, decoded from the settings value.
struct TempCleanerSettings {
    user_temp: bool,
    system_temp: bool,
    update_cache: bool,
    minidumps: bool,
    dry_run: bool,
}

/// Reads the five switches, each falling back to its field default.
fn decode_settings(settings: &SettingsValue) -> (r: TempCleanerSettings)
    ensures
        r.user_temp == crate::value::spec_get_bool(*settings, "user_temp"@, true),
        r.system_temp == crate::value::spec_get_bool(*settings, "system_temp"@, false),
        r.update_cache == crate::value::spec_get_bool(*settings, "update_cache"@, false),
        r.minidumps == crate::value::spec_get_bool(*settings, "minidumps"@, false),
        r.dry_run == crate::value::spec_get_bool(*settings, "dry_run"@, false),
{
    TempCleanerSettings {
        user_temp: get_bool(settings, "user_temp", default_true()),
        system_temp: get_bool(settings, "system_temp", false),
        update_cache: get_bool(settings, "update_cache", false),
        minidumps: get_bool(settings, "minidumps", false),
        dry_run: get_bool(settings, "dry_run", false),
    }
}

/// One directory the cleaner may empty.
struct CleanTarget {
    tag: String,
    label: String,
    path: String,
    enabled: bool,
}

/// One entry scheduled for removal.
struct CleanItem {
    path: String,
    is_dir: bool,
    size: u64,
    tag: String,
}

/// Addition that stops at the top instead of wrapping.
fn sat_add(a: u64, b: u64) -> (r: u64)
    ensures
        r == if a + b <= u64::MAX {
            a + b
        } else {
            u64::MAX as int
        },
{
    if a <= u64::MAX - b {
        a + b
    } else {
        u64::MAX
    }
}

/// The directories a cleanup run may touch, with their switches.
fn build_targets<A: PluginApi>(api: &A, settings: &TempCleanerSettings) -> (r: Vec<CleanTarget>) {
    let system_root = match api.system_root() {
        Some(root) => root,
        None => "C:\\Windows".to_owned(),
    };
    let mut targets: Vec<CleanTarget> = Vec::new();

    targets.push(
        CleanTarget {
            tag: "TEMP".to_owned(),
            label: "User %TEMP%".to_owned(),
            path: api.temp_dir(),
            enabled: settings.user_temp,
        },
    );

    let mut sys_temp = system_root.clone();
    sys_temp.append("\\Temp");
    targets.push(
        CleanTarget {
            tag: "SYS".to_owned(),
            label: "System TEMP".to_owned(),
            path: sys_temp,
            enabled: settings.system_temp,
        },
    );

    let mut upd = system_root.clone();
    upd.append("\\SoftwareDistribution\\Download");
    targets.push(
        CleanTarget {
            tag: "UPD".to_owned(),
            label: "Windows update cache".to_owned(),
            path: upd,
            enabled: settings.update_cache,
        },
    );

    let mut dmp = system_root;
    dmp.append("\\Minidump");
    targets.push(
        CleanTarget {
            tag: "DMP".to_owned(),
            label: "Crash minidumps".to_owned(),
            path: dmp,
            enabled: settings.minidumps,
        },
    );

    targets
}

/// The total size under a path, best effort: unreadable entries count as
/// errors, and a walk past the depth budget does too; when not quiet, each
/// problem is logged as a warning. The logger only grows and keeps its
/// depth.
fn dir_size<A: PluginApi>(
    api: &A,
    path: &str,
    logger: &mut Logger,
    quiet: bool,
    errors: &mut u64,
    depth: u64,
) -> (size: u64)
    ensures
        final(logger)@.logs.len() >= old(logger)@.logs.len(),
        final(logger)@.logs.take(old(logger)@.logs.len() as int) == old(logger)@.logs,
        final(logger)@.indent == old(logger)@.indent,
        *final(errors) >= *old(errors),
    decreases depth,
{
    let entries = match api.read_dir(path) {
        Ok(entries) => entries,
        Err(err) => {
            *errors = sat_add(*errors, 1);
            if !quiet {
                let mut msg = "Could not read directory ".to_owned();
                msg.append(path);
                msg.append(": ");
                msg.append(err.as_str());
                logger.warn(msg.as_str());
            }
            proof {
                assert(logger@.logs.take(old(logger)@.logs.len() as int) =~= old(logger)@.logs);
            }
            return 0;
        },
    };

    let mut size: u64 = 0;
    let mut i: usize = 0;
    while i < entries.len()
        invariant
            logger@.logs.len() >= old(logger)@.logs.len(),
            logger@.logs.take(old(logger)@.logs.len() as int) == old(logger)@.logs,
            logger@.indent == old(logger)@.indent,
            *errors >= *old(errors),
        decreases entries@.len() - i,
    {
        let entry = &entries[i];
        if entry.is_dir {
            if depth == 0 {
                *errors = sat_add(*errors, 1);
                if !quiet {
                    let mut msg = "Directory tree too deep at ".to_owned();
                    msg.append(entry.path.as_str());
                    logger.warn(msg.as_str());
                }
            } else {
                let ghost logs_before = logger@.logs;
                let sub = dir_size(api, entry.path.as_str(), logger, quiet, errors, depth - 1);
                proof {
                    crate::logger::lemma_log_prefix_trans(
                        old(logger)@.logs,
                        logs_before,
                        logger@.logs,
                    );
                }
                size = sat_add(size, sub);
            }
        } else {
            size = sat_add(size, entry.len);
        }
        i += 1;
    }
    size
}

/// The description this extension always gives of itself.
pub open spec fn temp_cleaner_meta() -> MetaView {
    MetaView {
        id: "temp_cleaner"@,
        name: "System cleanup"@,
        description: "Removes the temporary files Windows leaves behind."@,
        category: "Cleanup"@,
        settings: seq![
            FieldView {
                key: "user_temp"@,
                label: "User temporary files"@,
                kind: SettingKind::Boolean,
                description: Some(
                    "Removes caches and temporary files that applications leave behind."@,
                ),
                required: false,
                default_value: ValueView::Bool(true),
                options: None,
                ui: None,
            },
            FieldView {
                key: "system_temp"@,
                label: "System temporary files"@,
                kind: SettingKind::Boolean,
                description: Some(
                    "Empties the system temporary directory; may need administrator rights."@,
                ),
                required: false,
                default_value: ValueView::Bool(false),
                options: None,
                ui: None,
            },
            FieldView {
                key: "update_cache"@,
                label: "Windows update cache"@,
                kind: SettingKind::Boolean,
                description: Some(
                    "Removes downloaded update files; can free a lot of space."@,
                ),
                required: false,
                default_value: ValueView::Bool(false),
                options: None,
                ui: None,
            },
            FieldView {
                key: "minidumps"@,
                label: "Crash reports"@,
                kind: SettingKind::Boolean,
                description: Some(
                    "Removes diagnostic dumps and crash reports that are no longer needed."@,
                ),
                required: false,
                default_value: ValueView::Bool(false),
                options: None,
                ui: None,
            },
            FieldView {
                key: "dry_run"@,
                label: "Check mode (no deletion)"@,
                kind: SettingKind::Boolean,
                description: Some("Shows what would be removed, without changes."@),
                required: false,
                default_value: ValueView::Bool(false),
                options: None,
                ui: None,
            },
        ],
    }
}

impl Plugin for TempCleanerPlugin {
    open spec fn spec_meta(&self) -> MetaView {
        temp_cleaner_meta()
    }

    fn meta(&self) -> (m: PluginMeta) {
        let mut fields: Vec<SettingField> = Vec::new();
        fields.push(
            SettingField {
                key: "user_temp".to_owned(),
                label: "User temporary files".to_owned(),
                kind: SettingKind::Boolean,
                description: Some(
                    "Removes caches and temporary files that applications leave behind."
                        .to_owned(),
                ),
                required: false,
                default_value: SettingsValue::Bool(true),
                options: None,
                ui: None,
            },
        );
        fields.push(
            SettingField {
                key: "system_temp".to_owned(),
                label: "System temporary files".to_owned(),
                kind: SettingKind::Boolean,
                description: Some(
                    "Empties the system temporary directory; may need administrator rights."
                        .to_owned(),
                ),
                required: false,
                default_value: SettingsValue::Bool(false),
                options: None,
                ui: None,
            },
        );
        fields.push(
            SettingField {
                key: "update_cache".to_owned(),
                label: "Windows update cache".to_owned(),
                kind: SettingKind::Boolean,
                description: Some(
                    "Removes downloaded update files; can free a lot of space.".to_owned(),
                ),
                required: false,
                default_value: SettingsValue::Bool(false),
                options: None,
                ui: None,
            },
        );
        fields.push(
            SettingField {
                key: "minidumps".to_owned(),
                label: "Crash reports".to_owned(),
                kind: SettingKind::Boolean,
                description: Some(
                    "Removes diagnostic dumps and crash reports that are no longer needed."
                        .to_owned(),
                ),
                required: false,
                default_value: SettingsValue::Bool(false),
                options: None,
                ui: None,
            },
        );
        fields.push(
            SettingField {
                key: "dry_run".to_owned(),
                label: "Check mode (no deletion)".to_owned(),
                kind: SettingKind::Boolean,
                description: Some("Shows what would be removed, without changes.".to_owned()),
                required: false,
                default_value: SettingsValue::Bool(false),
                options: None,
                ui: None,
            },
        );
        let m = PluginMeta {
            id: "temp_cleaner".to_owned(),
            name: "System cleanup".to_owned(),
            description: "Removes the temporary files Windows leaves behind.".to_owned(),
            category: "Cleanup".to_owned(),
            settings: fields,
        };
        proof {
            assert(m@.settings =~= temp_cleaner_meta().settings);
        }
        m
    }

    fn defaults<A: PluginApi>(&self, api: &A) -> (r: Option<SettingsValue>) {
        None
    }

    /// Measures every target with the default switches and reports the
    /// total that could be reclaimed.
    fn preview<A: PluginApi>(&self, api: &A) -> (r: Result<Option<PluginPreview>, String>)
        ensures
            r is Ok,
    {
        let settings = TempCleanerSettings {
            user_temp: true,
            system_temp: false,
            update_cache: false,
            minidumps: false,
            dry_run: false,
        };
        let targets = build_targets(api, &settings);
        let mut scratch = Logger::new();
        let mut size_errors: u64 = 0;
        let mut total_bytes: u64 = 0;
        let mut details = String::new();
        let mut has_details = false;

        let mut i: usize = 0;
        while i < targets.len()
            decreases targets@.len() - i,
        {
            let target = &targets[i];
            let size = dir_size(
                api,
                target.path.as_str(),
                &mut scratch,
                true,
                &mut size_errors,
                MAX_WALK_DEPTH,
            );
            total_bytes = sat_add(total_bytes, size);
            if has_details {
                details.append(" \u{2022} ");
            }
            details.append(target.label.as_str());
            details.append(": ");
            details.append(format_bytes(size).as_str());
            has_details = true;
            i += 1;
        }

        let note = if has_details {
            Some(details)
        } else {
            None
        };
        Ok(
            Some(
                PluginPreview {
                    title: "Reclaimable".to_owned(),
                    value: format_bytes(total_bytes),
                    note,
                },
            ),
        )
    }

    fn run<A: PluginApi>(&self, api: &A, settings: &SettingsValue, logger: &mut Logger) -> (r:
        Result<(), String>) {
        let settings = decode_settings(settings);
        let targets = build_targets(api, &settings);
        let mut items: Vec<CleanItem> = Vec::new();
        let mut size_errors: u64 = 0;

        let mut t: usize = 0;
        while t < targets.len()
            invariant
                logger@.logs.len() >= old(logger)@.logs.len(),
                logger@.logs.take(old(logger)@.logs.len() as int) == old(logger)@.logs,
                logger@.indent == old(logger)@.indent,
            decreases targets@.len() - t,
        {
            let ghost logs_at_target = logger@.logs;
            let target = &targets[t];
            t += 1;
            if !target.enabled {
                continue ;
            }
            let mut head = "Section: ".to_owned();
            head.append(target.label.as_str());
            logger.info(head.as_str());
            if !api.path_exists(target.path.as_str()) {
                let mut msg = "Path not found: ".to_owned();
                msg.append(target.path.as_str());
                logger.warn(msg.as_str());
                proof {
                    assert(logger@.logs.take(logs_at_target.len() as int) =~= logs_at_target);
                    crate::logger::lemma_log_prefix_trans(
                        old(logger)@.logs,
                        logs_at_target,
                        logger@.logs,
                    );
                }
                continue ;
            }
            let entries = match api.read_dir(target.path.as_str()) {
                Ok(entries) => entries,
                Err(err) => {
                    size_errors = sat_add(size_errors, 1);
                    let mut msg = "Could not open ".to_owned();
                    msg.append(target.path.as_str());
                    msg.append(": ");
                    msg.append(err.as_str());
                    logger.warn(msg.as_str());
                    proof {
                        assert(logger@.logs.take(logs_at_target.len() as int)
                            =~= logs_at_target);
                        crate::logger::lemma_log_prefix_trans(
                            old(logger)@.logs,
                            logs_at_target,
                            logger@.logs,
                        );
                    }
                    continue ;
                },
            };

            let mut e: usize = 0;
            while e < entries.len()
                invariant
                    logger@.logs.len() >= old(logger)@.logs.len(),
                    logger@.logs.take(old(logger)@.logs.len() as int) == old(logger)@.logs,
                    logger@.indent == old(logger)@.indent,
                decreases entries@.len() - e,
            {
                let ghost logs_at_entry = logger@.logs;
                let entry = &entries[e];
                e += 1;
                let size = if entry.is_dir {
                    let sub = dir_size(
                        api,
                        entry.path.as_str(),
                        logger,
                        false,
                        &mut size_errors,
                        MAX_WALK_DEPTH,
                    );
                    proof {
                        crate::logger::lemma_log_prefix_trans(
                            old(logger)@.logs,
                            logs_at_entry,
                            logger@.logs,
                        );
                    }
                    sub
                } else {
                    entry.len
                };
                items.push(
                    CleanItem {
                        path: entry.path.clone(),
                        is_dir: entry.is_dir,
                        size,
                        tag: target.tag.clone(),
                    },
                );
            }
        }

        if size_errors > 0 {
            let mut msg = "Errors while measuring sizes: ".to_owned();
            msg.append(u64_to_string(size_errors).as_str());
            msg.append(". Totals may be incomplete.");
            logger.warn(msg.as_str());
        }

        let mut files: u64 = 0;
        let mut dirs: u64 = 0;
        let mut errors: u64 = 0;
        let mut freed_bytes: u64 = 0;

        let mut k: usize = 0;
        while k < items.len()
            invariant
                logger@.logs.len() >= old(logger)@.logs.len(),
                logger@.logs.take(old(logger)@.logs.len() as int) == old(logger)@.logs,
                logger@.indent == old(logger)@.indent,
            decreases items@.len() - k,
        {
            let ghost logs_at_item = logger@.logs;
            let item = &items[k];
            k += 1;
            if item.is_dir {
                if settings.dry_run {
                    dirs = sat_add(dirs, 1);
                    let mut msg = "[".to_owned();
                    msg.append(item.tag.as_str());
                    msg.append("] [dry] directory: ");
                    msg.append(item.path.as_str());
                    msg.append(" (");
                    msg.append(format_bytes(item.size).as_str());
                    msg.append(")");
                    logger.info(msg.as_str());
                } else {
                    match api.remove_dir_all(item.path.as_str()) {
                        Ok(()) => {
                            dirs = sat_add(dirs, 1);
                            freed_bytes = sat_add(freed_bytes, item.size);
                            let mut msg = "[".to_owned();
                            msg.append(item.tag.as_str());
                            msg.append("] Removed: ");
                            msg.append(item.path.as_str());
                            msg.append(" (");
                            msg.append(format_bytes(item.size).as_str());
                            msg.append(")");
                            logger.info(msg.as_str());
                        },
                        Err(err) => {
                            errors = sat_add(errors, 1);
                            let mut msg = "Could not remove ".to_owned();
                            msg.append(item.path.as_str());
                            msg.append(": ");
                            msg.append(err.as_str());
                            logger.warn(msg.as_str());
                        },
                    }
                }
            } else if settings.dry_run {
                files = sat_add(files, 1);
                let mut msg = "[".to_owned();
                msg.append(item.tag.as_str());
                msg.append("] [dry] file: ");
                msg.append(item.path.as_str());
                msg.append(" (");
                msg.append(format_bytes(item.size).as_str());
                msg.append(")");
                logger.info(msg.as_str());
            } else {
                match api.remove_file(item.path.as_str()) {
                    Ok(()) => {
                        files = sat_add(files, 1);
                        freed_bytes = sat_add(freed_bytes, item.size);
                        let mut msg = "[".to_owned();
                        msg.append(item.tag.as_str());
                        msg.append("] Removed: ");
                        msg.append(item.path.as_str());
                        msg.append(" (");
                        msg.append(format_bytes(item.size).as_str());
                        msg.append(")");
                        logger.info(msg.as_str());
                    },
                    Err(err) => {
                        errors = sat_add(errors, 1);
                        let mut msg = "Could not remove ".to_owned();
                        msg.append(item.path.as_str());
                        msg.append(": ");
                        msg.append(err.as_str());
                        logger.warn(msg.as_str());
                    },
                }
            }
            proof {
                assert(logger@.logs.take(logs_at_item.len() as int) =~= logs_at_item);
                crate::logger::lemma_log_prefix_trans(
                    old(logger)@.logs,
                    logs_at_item,
                    logger@.logs,
                );
            }
        }

        let mut summary = "Total: files ".to_owned();
        summary.append(u64_to_string(files).as_str());
        summary.append(", directories ");
        summary.append(u64_to_string(dirs).as_str());
        summary.append(", errors ");
        summary.append(u64_to_string(errors).as_str());
        summary.append(".");
        logger.info(summary.as_str());
        if settings.dry_run {
            logger.info("Freed: 0 B (check mode).");
        } else {
            let mut freed = "Freed: ".to_owned();
            freed.append(format_bytes(freed_bytes).as_str());
            logger.info(freed.as_str());
        }

        proof {
            assert(logger@.logs.take(old(logger)@.logs.len() as int) =~= old(logger)@.logs);
        }
        if errors > 0 {
            let mut msg = "Some items could not be processed: ".to_owned();
            msg.append(u64_to_string(errors).as_str());
            Err(msg)
        } else {
            Ok(())
        }
    }
}

/// The instance of the system cleanup extension that the registry holds.
pub fn plugin() -> TempCleanerPlugin {
    TempCleanerPlugin
}

} // verus!
