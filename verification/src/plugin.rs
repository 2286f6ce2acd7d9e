//! The uniform extension contract and the run pipeline: resolve settings
//! from schema defaults, live defaults and caller overrides, validate them,
//! and execute the extension under a fresh logger, returning a run result
//! that always carries the whole log.

use vstd::prelude::*;

use crate::api::PluginApi;
use crate::fmt::{format_value, format_value_view};
use crate::logger::{
    detail_entry, indent_down, indent_up, plain_entry, EntryView, GroupBody, LogLevel, Logger,
    RunResult, RunResultView,
};
use crate::settings::{
    defaults_from_fields, defaults_map, merge_settings, merge_view, validate_settings,
    validate_view, FieldView, MetaView, PluginMeta,
};
use crate::value::{obj_get, obj_lookup, SettingsValue, ValueView};

verus! {

/// A cheap, read-only summary an extension may offer before a run.
#[derive(Debug, PartialEq, Eq)]
pub struct PluginPreview {
    pub title: String,
    pub value: String,
    pub note: Option<String>,
}

/// View of a preview.
pub struct PreviewView {
    pub title: Seq<char>,
    pub value: Seq<char>,
    pub note: Option<Seq<char>>,
}

impl View for PluginPreview {
    type V = PreviewView;

    open spec fn view(&self) -> PreviewView {
        PreviewView { title: self.title@, value: self.value@, note: self.note.deep_view() }
    }
}

/// The uniform contract every extension implements: describe itself, probe
/// optional live defaults, offer an optional preview, and run its action.
pub trait Plugin {
    /// The one description this extension always gives of itself.
    spec fn spec_meta(&self) -> MetaView;

    /// Describes the extension; deterministic across calls.
    fn meta(&self) -> (m: PluginMeta)
        ensures
            m@ == self.spec_meta(),
    ;

    /// Probes the environment for live defaults; no opinion is an honest
    /// answer, and no outcome is promised.
    fn defaults<A: PluginApi>(&self, api: &A) -> (r: Option<SettingsValue>);

    /// Computes a cheap read-only preview, or reports why it cannot.
    fn preview<A: PluginApi>(&self, api: &A) -> (r: Result<Option<PluginPreview>, String>);

    /// Runs the side-effecting action. The logger may only grow, and its
    /// depth is left where it was found.
    fn run<A: PluginApi>(&self, api: &A, settings: &SettingsValue, logger: &mut Logger) -> (r:
        Result<(), String>)
        ensures
            final(logger)@.logs.len() >= old(logger)@.logs.len(),
            final(logger)@.logs.take(old(logger)@.logs.len() as int) == old(logger)@.logs,
            final(logger)@.indent == old(logger)@.indent,
    ;
}

/// The value the run log shows for a field: the last pair carrying the
/// field's key, or null when the key is absent.
pub open spec fn lookup_or_null(
    pairs: Seq<(String, SettingsValue)>,
    k: Seq<char>,
) -> SettingsValue {
    match obj_lookup(pairs, k) {
        Some(v) => v,
        None => SettingsValue::Null,
    }
}

/// The settings-group entries of the run log: one label/value line per
/// schema field, in schema order, at the given depth.
pub open spec fn settings_entries(
    fields: Seq<FieldView>,
    pairs: Seq<(String, SettingsValue)>,
    ind: u8,
) -> Seq<EntryView>
    decreases fields,
{
    if fields.len() == 0 {
        Seq::empty()
    } else {
        settings_entries(fields.drop_last(), pairs, ind).push(
            detail_entry(
                fields.last().label,
                format_value_view(lookup_or_null(pairs, fields.last().key)),
                ind,
            ),
        )
    }
}

/// What logging the resolved settings appends: a section and one line per
/// field for an object, a single warning otherwise.
pub open spec fn settings_log_view(
    fields: Seq<FieldView>,
    merged: SettingsValue,
    ind: u8,
) -> Seq<EntryView> {
    match merged {
        SettingsValue::Obj(pairs) => seq![
            plain_entry(LogLevel::Info, "Selected settings:"@, ind),
        ] + settings_entries(fields, pairs@, indent_up(ind)),
        _ => seq![plain_entry(LogLevel::Warn, "Settings are not an object."@, ind)],
    }
}

/// The log body that lists every resolved setting under a group.
struct SettingsGroup<'a> {
    fields: &'a Vec<crate::settings::SettingField>,
    pairs: &'a Vec<(String, SettingsValue)>,
}

impl<'a> GroupBody for SettingsGroup<'a> {
    closed spec fn appended(&self, ind: u8) -> Seq<EntryView> {
        settings_entries(self.fields.deep_view(), self.pairs@, ind)
    }

    fn run(&self, logger: &mut Logger) {
        let ghost ind = logger@.indent;
        let ghost logs0 = logger@.logs;
        let mut i: usize = 0;
        while i < self.fields.len()
            invariant
                i <= self.fields@.len(),
                logger@.indent == ind,
                logger@.logs == logs0 + settings_entries(
                    self.fields.deep_view().take(i as int),
                    self.pairs@,
                    ind,
                ),
            decreases self.fields@.len() - i,
        {
            let field = &self.fields[i];
            let rendered = match obj_get(self.pairs, field.key.as_str()) {
                Some(v) => format_value(v),
                None => format_value(&SettingsValue::Null),
            };
            logger.kv(field.label.as_str(), rendered);
            proof {
                let fv = self.fields.deep_view();
                assert(fv.take(i + 1).drop_last() =~= fv.take(i as int));
                assert(fv.take(i + 1).last() == fv[i as int]);
                assert(logger@.logs =~= logs0 + settings_entries(
                    fv.take(i + 1),
                    self.pairs@,
                    ind,
                ));
            }
            i += 1;
        }
        proof {
            let fv = self.fields.deep_view();
            assert(fv.take(fv.len() as int) =~= fv);
        }
    }
}

/// Logs the resolved settings: a group with one line per schema field when
/// the value is an object, a warning otherwise.
pub fn log_settings(logger: &mut Logger, meta: &PluginMeta, merged: &SettingsValue)
    ensures
        final(logger)@.logs == old(logger)@.logs + settings_log_view(
            meta@.settings,
            *merged,
            old(logger)@.indent,
        ),
        final(logger)@.indent == if *merged is Obj {
            indent_down(indent_up(old(logger)@.indent))
        } else {
            old(logger)@.indent
        },
{
    match merged {
        SettingsValue::Obj(pairs) => {
            let body = SettingsGroup { fields: &meta.settings, pairs };
            logger.group("Selected settings:", &body);
            proof {
                assert(logger@.logs =~= old(logger)@.logs + settings_log_view(
                    meta@.settings,
                    *merged,
                    old(logger)@.indent,
                ));
            }
        },
        _ => {
            logger.warn("Settings are not an object.");
            proof {
                assert(logger@.logs =~= old(logger)@.logs + settings_log_view(
                    meta@.settings,
                    *merged,
                    old(logger)@.indent,
                ));
            }
        },
    }
}

/// One error entry per validation message, in order, at the given depth.
pub open spec fn error_entries(errors: Seq<Seq<char>>, ind: u8) -> Seq<EntryView>
    decreases errors,
{
    if errors.len() == 0 {
        Seq::empty()
    } else {
        error_entries(errors.drop_last(), ind).push(
            plain_entry(LogLevel::Error, errors.last(), ind),
        )
    }
}

/// The header every run log opens with: the extension's name, its
/// description when it has one, and the resolved settings.
pub open spec fn run_header(meta: MetaView, merged: SettingsValue) -> Seq<EntryView> {
    seq![plain_entry(LogLevel::Info, "Plugin: "@ + meta.name, 0)] + (if meta.description.len()
        > 0 {
        seq![plain_entry(LogLevel::Info, meta.description, 0)]
    } else {
        Seq::<EntryView>::empty()
    }) + settings_log_view(meta.settings, merged, 0)
}

/// How one run's result relates to its inputs and to the two decisions the
/// environment made during it: the live defaults the extension offered
/// (`live`), and, when the action was invoked at all, what it appended to
/// the log and whether it succeeded (`body_appended`, `body_outcome`; a
/// `body_outcome` of `None` means validation failed and the action was
/// never invoked). The settings are resolved by merging caller overrides
/// over live defaults over schema defaults; on validation errors the run
/// fails with one error entry per message; otherwise the action runs and
/// the result reports its outcome. The log always carries everything.
pub open spec fn run_conforms(
    meta: MetaView,
    caller: ValueView,
    live: Option<ValueView>,
    merged: SettingsValue,
    body_appended: Seq<EntryView>,
    body_outcome: Option<Result<(), Seq<char>>>,
    r: RunResultView,
) -> bool {
    let schema = ValueView::Obj(defaults_map(meta.settings));
    let resolved = match live {
        Some(lv) => merge_view(lv, schema),
        None => schema,
    };
    let header = run_header(meta, merged);
    let errors = validate_view(crate::value::value_view(merged), meta.settings);
    &&& crate::value::value_view(merged) == merge_view(caller, resolved)
    &&& if errors.len() > 0 {
        &&& body_outcome is None
        &&& !r.ok
        &&& r.message == "Invalid settings."@
        &&& r.logs == header + error_entries(errors, 0)
    } else {
        match body_outcome {
            Some(outcome) => {
                let started = header.push(plain_entry(LogLevel::Info, "Starting..."@, 0));
                match outcome {
                    Ok(()) => r.ok && r.message == "Done."@ && r.logs == started + body_appended
                        + seq![plain_entry(LogLevel::Success, "Finished successfully."@, 0)],
                    Err(e) => !r.ok && r.message == e && r.logs == started + body_appended + seq![
                        plain_entry(LogLevel::Error, e, 0),
                    ],
                }
            },
            None => false,
        }
    }
}

/// Runs one extension against caller-supplied settings: resolves effective
/// settings from schema defaults, live defaults and the caller's overrides,
/// logs a header and the resolved settings, validates, and only then
/// invokes the action; the result always carries the full log.
pub fn run_plugin_on<P: Plugin, A: PluginApi>(
    plugin: &P,
    api: &A,
    settings: &SettingsValue,
) -> (r: RunResult)
    ensures
        exists|
            live: Option<ValueView>,
            merged: SettingsValue,
            appended: Seq<EntryView>,
            outcome: Option<Result<(), Seq<char>>>,
        |
            #[trigger] run_conforms(
                plugin.spec_meta(),
                settings@,
                live,
                merged,
                appended,
                outcome,
                r@,
            ),
{
    let meta = plugin.meta();
    let mut defaults = defaults_from_fields(&meta.settings);
    let live = plugin.defaults(api);
    let ghost live_view: Option<ValueView> = match live {
        Some(ref l) => Some(l@),
        None => None,
    };
    match &live {
        Some(extra) => {
            defaults = merge_settings(extra, &defaults);
        },
        None => {},
    }
    let merged = merge_settings(settings, &defaults);

    let mut logger = Logger::new();
    let mut title = "Plugin: ".to_owned();
    title.append(meta.name.as_str());
    logger.section(title.as_str());
    if !meta.description.as_str().is_empty() {
        logger.info(meta.description.as_str());
    }
    log_settings(&mut logger, &meta, &merged);
    proof {
        assert(logger@.logs =~= run_header(meta@, merged));
    }

    let errors = validate_settings(&merged, &meta.settings);
    let ghost header = logger@.logs;
    if errors.len() > 0 {
        let mut k: usize = 0;
        while k < errors.len()
            invariant
                k <= errors@.len(),
                logger@.indent == 0,
                logger@.logs == header + error_entries(errors.deep_view().take(k as int), 0),
            decreases errors@.len() - k,
        {
            logger.error(errors[k].as_str());
            proof {
                let ev = errors.deep_view();
                assert(ev.take(k + 1).drop_last() =~= ev.take(k as int));
                assert(ev.take(k + 1).last() == ev[k as int]);
                assert(logger@.logs =~= header + error_entries(ev.take(k + 1), 0));
            }
            k += 1;
        }
        let result = RunResult {
            ok: false,
            message: "Invalid settings.".to_owned(),
            logs: logger.into_logs(),
        };
        proof {
            let ev = errors.deep_view();
            assert(ev.take(ev.len() as int) =~= ev);
            assert(run_conforms(
                plugin.spec_meta(),
                settings@,
                live_view,
                merged,
                Seq::<EntryView>::empty(),
                None,
                result@,
            ));
        }
        return result;
    }

    logger.info("Starting...");
    let ghost started = logger@.logs;
    let run_result = plugin.run(api, &merged, &mut logger);
    let ghost appended = logger@.logs.skip(started.len() as int);
    proof {
        assert(logger@.logs =~= started + appended);
    }
    match run_result {
        Ok(()) => {
            logger.success("Finished successfully.");
            let result = RunResult {
                ok: true,
                message: "Done.".to_owned(),
                logs: logger.into_logs(),
            };
            proof {
                assert(result@.logs =~= started + appended + seq![
                    plain_entry(LogLevel::Success, "Finished successfully."@, 0),
                ]);
                assert(run_conforms(
                    plugin.spec_meta(),
                    settings@,
                    live_view,
                    merged,
                    appended,
                    Some(Result::<(), Seq<char>>::Ok(())),
                    result@,
                ));
            }
            result
        },
        Err(err) => {
            logger.error(err.as_str());
            let ghost err_view = err@;
            let result = RunResult { ok: false, message: err, logs: logger.into_logs() };
            proof {
                assert(result@.logs =~= started + appended + seq![
                    plain_entry(LogLevel::Error, err_view, 0),
                ]);
                assert(run_conforms(
                    plugin.spec_meta(),
                    settings@,
                    live_view,
                    merged,
                    appended,
                    Some(Result::<(), Seq<char>>::Err(err_view)),
                    result@,
                ));
            }
            result
        },
    }
}

} // verus!
