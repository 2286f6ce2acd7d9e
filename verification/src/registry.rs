//! The registry of extensions: the fixed, order-stable list of everything
//! the host ships, and the three identifier-driven entry points — list,
//! preview and run.

use vstd::prelude::*;

use crate::api::PluginApi;
use crate::contextmenu_classic_plugin::ClassicContextMenuPlugin;
use crate::cursor_highlight_plugin::CursorHighlightPlugin;
use crate::logger::{Logger, RunResult};
use crate::network_tools_plugin::NetworkToolsPlugin;
use crate::plugin::{run_conforms, run_plugin_on, Plugin, PluginPreview};
use crate::settings::{
    defaults_map, merge_settings, merge_view, InfoView, MetaView, PluginInfo, PluginMeta,
};
use crate::temp_cleaner_plugin::TempCleanerPlugin;
use crate::test_plugin::TestPlugin;
use crate::text::{lex_le, lower_of, lowercase, str_eq, str_lex_le};
use crate::value::{SettingsValue, ValueView};

verus! {

/// One registered extension; the set is closed at build time.
pub enum RegisteredPlugin {
    ContextMenuClassic(ClassicContextMenuPlugin),
    CursorHighlight(CursorHighlightPlugin),
    NetworkTools(NetworkToolsPlugin),
    TempCleaner(TempCleanerPlugin),
    Test(TestPlugin),
}

impl Plugin for RegisteredPlugin {
    open spec fn spec_meta(&self) -> MetaView {
        match self {
            RegisteredPlugin::ContextMenuClassic(p) => p.spec_meta(),
            RegisteredPlugin::CursorHighlight(p) => p.spec_meta(),
            RegisteredPlugin::NetworkTools(p) => p.spec_meta(),
            RegisteredPlugin::TempCleaner(p) => p.spec_meta(),
            RegisteredPlugin::Test(p) => p.spec_meta(),
        }
    }

    fn meta(&self) -> (m: PluginMeta) {
        match self {
            RegisteredPlugin::ContextMenuClassic(p) => p.meta(),
            RegisteredPlugin::CursorHighlight(p) => p.meta(),
            RegisteredPlugin::NetworkTools(p) => p.meta(),
            RegisteredPlugin::TempCleaner(p) => p.meta(),
            RegisteredPlugin::Test(p) => p.meta(),
        }
    }

    fn defaults<A: PluginApi>(&self, api: &A) -> (r: Option<SettingsValue>) {
        match self {
            RegisteredPlugin::ContextMenuClassic(p) => p.defaults(api),
            RegisteredPlugin::CursorHighlight(p) => p.defaults(api),
            RegisteredPlugin::NetworkTools(p) => p.defaults(api),
            RegisteredPlugin::TempCleaner(p) => p.defaults(api),
            RegisteredPlugin::Test(p) => p.defaults(api),
        }
    }

    fn preview<A: PluginApi>(&self, api: &A) -> (r: Result<Option<PluginPreview>, String>)
        ensures
            r is Ok,
    {
        match self {
            RegisteredPlugin::ContextMenuClassic(p) => p.preview(api),
            RegisteredPlugin::CursorHighlight(p) => p.preview(api),
            RegisteredPlugin::NetworkTools(p) => p.preview(api),
            RegisteredPlugin::TempCleaner(p) => p.preview(api),
            RegisteredPlugin::Test(p) => p.preview(api),
        }
    }

    fn run<A: PluginApi>(&self, api: &A, settings: &SettingsValue, logger: &mut Logger) -> (r:
        Result<(), String>) {
        match self {
            RegisteredPlugin::ContextMenuClassic(p) => p.run(api, settings, logger),
            RegisteredPlugin::CursorHighlight(p) => p.run(api, settings, logger),
            RegisteredPlugin::NetworkTools(p) => p.run(api, settings, logger),
            RegisteredPlugin::TempCleaner(p) => p.run(api, settings, logger),
            RegisteredPlugin::Test(p) => p.run(api, settings, logger),
        }
    }
}

/// The fixed registration order of the shipped extensions.
pub open spec fn registry() -> Seq<RegisteredPlugin> {
    seq![
        RegisteredPlugin::ContextMenuClassic(ClassicContextMenuPlugin),
        RegisteredPlugin::CursorHighlight(CursorHighlightPlugin),
        RegisteredPlugin::NetworkTools(NetworkToolsPlugin),
        RegisteredPlugin::TempCleaner(TempCleanerPlugin),
        RegisteredPlugin::Test(TestPlugin),
    ]
}

/// The registered extensions, in registration order.
pub fn all_plugins() -> (r: Vec<RegisteredPlugin>)
    ensures
        r@ == registry(),
{
    let mut plugins: Vec<RegisteredPlugin> = Vec::new();
    plugins.push(RegisteredPlugin::ContextMenuClassic(ClassicContextMenuPlugin));
    plugins.push(RegisteredPlugin::CursorHighlight(CursorHighlightPlugin));
    plugins.push(RegisteredPlugin::NetworkTools(NetworkToolsPlugin));
    plugins.push(RegisteredPlugin::TempCleaner(TempCleanerPlugin));
    plugins.push(RegisteredPlugin::Test(TestPlugin));
    proof {
        assert(plugins@ =~= registry());
    }
    plugins
}

/// Whether some registered extension carries the identifier.
pub open spec fn id_registered(id: Seq<char>) -> bool {
    exists|i: int|
        0 <= i < registry().len() && #[trigger] registry()[i].spec_meta().id == id
}

/// The message given when an identifier resolves to nothing.
pub open spec fn not_found_msg(id: Seq<char>) -> Seq<char> {
    "Plugin not found: "@ + id
}

/// Runs the extension carrying the identifier against the caller's
/// settings; the only hard failure is an unknown identifier, and a known
/// one yields a run result conforming to the run pipeline's relation for
/// that extension.
pub fn run_plugin<A: PluginApi>(api: &A, id: &str, settings: &SettingsValue) -> (r: Result<
    RunResult,
    String,
>)
    ensures
        r is Ok <==> id_registered(id@),
        r is Err ==> r->Err_0@ == not_found_msg(id@),
        r is Ok ==> exists|
            i: int,
            live: Option<ValueView>,
            merged: SettingsValue,
            appended: Seq<crate::logger::EntryView>,
            outcome: Option<Result<(), Seq<char>>>,
        |
            {
                &&& 0 <= i < registry().len()
                &&& registry()[i].spec_meta().id == id@
                &&& #[trigger] run_conforms(
                    registry()[i].spec_meta(),
                    settings@,
                    live,
                    merged,
                    appended,
                    outcome,
                    (r->Ok_0)@,
                )
            },
{
    let plugins = all_plugins();
    let mut i: usize = 0;
    while i < plugins.len()
        invariant
            plugins@ == registry(),
            i <= plugins@.len(),
            forall|j: int| 0 <= j < i ==> #[trigger] registry()[j].spec_meta().id != id@,
        decreases plugins@.len() - i,
    {
        let meta = plugins[i].meta();
        if str_eq(meta.id.as_str(), id) {
            proof {
                assert(registry()[i as int].spec_meta().id == id@);
            }
            let result = run_plugin_on(&plugins[i], api, settings);
            proof {
                let (live, merged, appended, outcome) = choose|
                    live: Option<ValueView>,
                    merged: SettingsValue,
                    appended: Seq<crate::logger::EntryView>,
                    outcome: Option<Result<(), Seq<char>>>,
                |
                    run_conforms(
                        plugins@[i as int].spec_meta(),
                        settings@,
                        live,
                        merged,
                        appended,
                        outcome,
                        result@,
                    );
                assert(run_conforms(
                    registry()[i as int].spec_meta(),
                    settings@,
                    live,
                    merged,
                    appended,
                    outcome,
                    result@,
                ));
                let rr = Result::<RunResult, String>::Ok(result);
                assert(run_conforms(
                    registry()[i as int].spec_meta(),
                    settings@,
                    live,
                    merged,
                    appended,
                    outcome,
                    (rr->Ok_0)@,
                ));
            }
            return Ok(result);
        }
        i += 1;
    }
    let mut msg = "Plugin not found: ".to_owned();
    msg.append(id);
    Err(msg)
}

/// Delegates to the preview of the extension carrying the identifier; an
/// unknown identifier is the only engine-made failure, and the extension's
/// own answer is passed through unchanged.
pub fn preview_plugin<A: PluginApi>(api: &A, id: &str) -> (r: Result<
    Option<PluginPreview>,
    String,
>)
    ensures
        r is Err <==> !id_registered(id@),
        r is Err ==> r->Err_0@ == not_found_msg(id@),
{
    let plugins = all_plugins();
    let mut i: usize = 0;
    while i < plugins.len()
        invariant
            plugins@ == registry(),
            i <= plugins@.len(),
            forall|j: int| 0 <= j < i ==> #[trigger] registry()[j].spec_meta().id != id@,
        decreases plugins@.len() - i,
    {
        let meta = plugins[i].meta();
        if str_eq(meta.id.as_str(), id) {
            proof {
                assert(registry()[i as int].spec_meta().id == id@);
            }
            return plugins[i].preview(api);
        }
        i += 1;
    }
    let mut msg = "Plugin not found: ".to_owned();
    msg.append(id);
    Err(msg)
}

/// The description part of a listing entry.
pub open spec fn info_meta(i: InfoView) -> MetaView {
    MetaView {
        id: i.id,
        name: i.name,
        description: i.description,
        category: i.category,
        settings: i.settings,
    }
}

/// The descriptions of every registered extension, in registration order.
pub open spec fn registry_metas() -> Seq<MetaView> {
    registry().map_values(|p: RegisteredPlugin| p.spec_meta())
}

/// The defaults a listing entry shows for its fields: the schema's
/// declared defaults, with an optional layer of live defaults merged over
/// them.
pub open spec fn listed_defaults(
    live: Option<ValueView>,
    fields: Seq<crate::settings::FieldView>,
) -> ValueView {
    let schema = ValueView::Obj(defaults_map(fields));
    match live {
        Some(lv) => merge_view(lv, schema),
        None => schema,
    }
}

/// A listing entry's defaults conform: they are its schema defaults under
/// some live-default layer the extension contributed (possibly none).
pub open spec fn info_defaults_conform(i: InfoView) -> bool {
    exists|live: Option<ValueView>| i.defaults == #[trigger] listed_defaults(live, i.settings)
}

/// Entries ordered by display name, compared case-insensitively.
pub open spec fn sorted_by_display_name(infos: Seq<InfoView>) -> bool {
    forall|i: int, j: int|
        #![trigger infos[i], infos[j]]
        0 <= i < j < infos.len() ==> lex_le(lower_of(infos[i].name), lower_of(infos[j].name))
}

/// Lists every registered extension: each entry carries the extension's
/// description and its resolved defaults, and the listing is ordered by
/// case-insensitive display name.
pub fn list_plugins<A: PluginApi>(api: &A) -> (r: Vec<PluginInfo>)
    ensures
        r@.len() == registry().len(),
        sorted_by_display_name(r.deep_view()),
        r.deep_view().map_values(|iv: InfoView| info_meta(iv)).to_multiset()
            == registry_metas().to_multiset(),
        forall|k: int|
            0 <= k < r.deep_view().len() ==> info_defaults_conform(#[trigger] r.deep_view()[k]),
{
    let ghost meta_of = |iv: InfoView| info_meta(iv);
    let plugins = all_plugins();
    let mut infos: Vec<PluginInfo> = Vec::new();
    let mut keys: Vec<String> = Vec::new();
    let mut i: usize = 0;
    proof {
        let e1 = infos.deep_view().map_values(meta_of);
        let e2 = registry_metas().take(0);
        e1.to_multiset_ensures();
        e2.to_multiset_ensures();
        assert(e1.to_multiset() =~= e2.to_multiset());
    }
    while i < plugins.len()
        invariant
            plugins@ == registry(),
            i <= plugins@.len(),
            infos@.len() == i,
            keys@.len() == i,
            meta_of == (|iv: InfoView| info_meta(iv)),
            forall|k: int|
                0 <= k < i ==> (#[trigger] keys@[k])@ == lower_of(infos.deep_view()[k].name),
            forall|p: int, q: int|
                #![trigger keys@[p], keys@[q]]
                0 <= p < q < i ==> lex_le(keys@[p]@, keys@[q]@),
            infos.deep_view().map_values(meta_of).to_multiset() == registry_metas().take(
                i as int,
            ).to_multiset(),
            forall|k: int| 0 <= k < i ==> info_defaults_conform(#[trigger] infos.deep_view()[k]),
        decreases plugins@.len() - i,
    {
        let meta = plugins[i].meta();
        let mut info = PluginInfo::from_meta(meta);
        let live = plugins[i].defaults(api);
        let ghost live_view: Option<ValueView> = match live {
            Some(ref l) => Some(l@),
            None => None,
        };
        match &live {
            Some(extra) => {
                info.defaults = merge_settings(extra, &info.defaults);
            },
            None => {},
        }
        proof {
            assert(info@.defaults == listed_defaults(live_view, info@.settings));
            assert(info_meta(info@) == registry_metas()[i as int]);
        }
        let key = lowercase(info.name.as_str());

        let mut pos: usize = 0;
        while pos < keys.len() && str_lex_le(keys[pos].as_str(), key.as_str())
            invariant
                pos <= keys@.len(),
                forall|k: int| 0 <= k < pos ==> lex_le((#[trigger] keys@[k])@, key@),
            decreases keys@.len() - pos,
        {
            pos += 1;
        }
        proof {
            if pos < keys@.len() {
                crate::text::lemma_lex_le_total(keys@[pos as int]@, key@);
            }
        }

        let ghost old_infos_deep = infos.deep_view();
        let ghost old_keys = keys@;
        let ghost new_info_view = info@;
        let ghost key_view = key@;
        infos.insert(pos, info);
        keys.insert(pos, key);
        proof {
            assert(infos.deep_view() =~= old_infos_deep.insert(pos as int, new_info_view));
            assert(keys@ =~= old_keys.insert(pos as int, key));

            // the new key still names the new entry, and order holds
            assert forall|p: int, q: int|
                #![trigger keys@[p], keys@[q]]
                0 <= p < q < i + 1 implies lex_le(keys@[p]@, keys@[q]@) by {
                if q < pos {
                    assert(keys@[p] == old_keys[p] && keys@[q] == old_keys[q]);
                } else if q == pos {
                    if p < pos {
                        assert(keys@[p] == old_keys[p] && keys@[q] == key);
                    }
                } else {
                    assert(keys@[q] == old_keys[q - 1]);
                    if p < pos {
                        assert(keys@[p] == old_keys[p]);
                        if q - 1 == pos && pos == old_keys.len() {
                        }
                        if pos < old_keys.len() {
                            if p < pos && q - 1 >= pos {
                                if q - 1 == pos {
                                } else {
                                    crate::text::lemma_lex_le_trans(
                                        old_keys[p]@,
                                        old_keys[pos as int]@,
                                        old_keys[q - 1]@,
                                    );
                                }
                            }
                        }
                    } else if p == pos {
                        assert(keys@[p] == key);
                        if pos < old_keys.len() {
                            if q - 1 == pos {
                            } else {
                                crate::text::lemma_lex_le_trans(
                                    key@,
                                    old_keys[pos as int]@,
                                    old_keys[q - 1]@,
                                );
                            }
                        }
                    } else {
                        assert(keys@[p] == old_keys[p - 1]);
                    }
                }
            }

            // multiset of descriptions grows by exactly this description
            assert(infos.deep_view().map_values(meta_of) =~= old_infos_deep.map_values(
                meta_of,
            ).insert(pos as int, info_meta(new_info_view)));
            vstd::seq_lib::to_multiset_insert(
                old_infos_deep.map_values(meta_of),
                pos as int,
                info_meta(new_info_view),
            );
            vstd::seq_lib::to_multiset_build(
                registry_metas().take(i as int),
                registry_metas()[i as int],
            );
            assert(registry_metas().take(i + 1) =~= registry_metas().take(i as int).push(
                registry_metas()[i as int],
            ));
        }
        i += 1;
    }
    proof {
        assert(registry_metas().take(registry_metas().len() as int) =~= registry_metas());
        let deep = infos.deep_view();
        assert forall|p: int, q: int|
            #![trigger deep[p], deep[q]]
            0 <= p < q < deep.len() implies lex_le(lower_of(deep[p].name), lower_of(
            deep[q].name,
        )) by {
            assert(keys@[p]@ == lower_of(deep[p].name));
            assert(keys@[q]@ == lower_of(deep[q].name));
            assert(lex_le(keys@[p]@, keys@[q]@));
        }
    }
    infos
}

} // verus!
