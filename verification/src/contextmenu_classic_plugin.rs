//! The classic context menu extension: creates or removes the registry key
//! that switches the shell back to the pre-redesign context menu, then
//! restarts the shell so the change takes effect.

use vstd::prelude::*;

use crate::api::PluginApi;
use crate::logger::Logger;
use crate::plugin::{Plugin, PluginPreview};
use crate::settings::{
    FieldView, MetaView, PluginMeta, SettingField, SettingKind, SettingUi, UiView,
};
use crate::value::{get_bool, SettingsValue};

verus! {

/// The classic context menu extension.
pub struct ClassicContextMenuPlugin;

/// The identifier this extension registers under.
pub open spec fn classic_id() -> Seq<char> {
    "contextmenu_classic"@
}

/// The default of the one switch: the redesigned menu stays.
pub fn default_use_classic() -> (r: bool)
    ensures
        r == false,
{
    false
}

/// The base of the registry key that selects the classic menu.
const CLSID_BASE: &'static str = "Software\\Classes\\CLSID\\{86ca1aa0-34aa-4e8b-a509-50c905bae2a2}";

/// The subkey whose presence switches the classic menu on.
const INPROC_PATH: &'static str =
    "Software\\Classes\\CLSID\\{86ca1aa0-34aa-4e8b-a509-50c905bae2a2}\\InprocServer32";

/// The description this extension always gives of itself.
pub open spec fn classic_meta() -> MetaView {
    MetaView {
        id: classic_id(),
        name: "Classic context menu"@,
        description: "Switches the shell between the redesigned and the classic context menu."@,
        category: "Appearance"@,
        settings: seq![
            FieldView {
                key: "use_classic"@,
                label: "Classic context menu"@,
                kind: SettingKind::Boolean,
                description: Some(
                    "Creates or removes the registry key that enables the classic context menu."@,
                ),
                required: true,
                default_value: crate::value::ValueView::Bool(false),
                options: None,
                ui: Some(UiView {
                    placeholder: None,
                    min: None,
                    max: None,
                    step: None,
                    rows: None,
                    unit: None,
                    danger: None,
                }),
            },
        ],
    }
}

impl Plugin for ClassicContextMenuPlugin {
    open spec fn spec_meta(&self) -> MetaView {
        classic_meta()
    }

    fn meta(&self) -> (m: PluginMeta) {
        let mut fields: Vec<SettingField> = Vec::new();
        fields.push(
            SettingField {
                key: "use_classic".to_owned(),
                label: "Classic context menu".to_owned(),
                kind: SettingKind::Boolean,
                description: Some(
                    "Creates or removes the registry key that enables the classic context menu."
                        .to_owned(),
                ),
                required: true,
                default_value: SettingsValue::Bool(false),
                options: None,
                ui: Some(SettingUi::empty()),
            },
        );
        let m = PluginMeta {
            id: "contextmenu_classic".to_owned(),
            name: "Classic context menu".to_owned(),
            description: "Switches the shell between the redesigned and the classic context menu."
                .to_owned(),
            category: "Appearance".to_owned(),
            settings: fields,
        };
        proof {
            assert(m@.settings =~= classic_meta().settings);
        }
        m
    }

    /// Probes the registry: the live default mirrors whether the classic
    /// menu is currently switched on; a probe failure reads as off.
    fn defaults<A: PluginApi>(&self, api: &A) -> (r: Option<SettingsValue>) {
        let on = match api.registry_key_exists(INPROC_PATH) {
            Ok(exists) => exists,
            Err(_) => false,
        };
        let mut pairs: Vec<(String, SettingsValue)> = Vec::new();
        pairs.push(("use_classic".to_owned(), SettingsValue::Bool(on)));
        Some(SettingsValue::Obj(pairs))
    }

    fn preview<A: PluginApi>(&self, api: &A) -> (r: Result<Option<PluginPreview>, String>)
        ensures
            r is Ok,
    {
        Ok(None)
    }

    fn run<A: PluginApi>(&self, api: &A, settings: &SettingsValue, logger: &mut Logger) -> (r:
        Result<(), String>) {
        let use_classic = get_bool(settings, "use_classic", default_use_classic());
        if use_classic {
            match api.registry_key_exists(INPROC_PATH) {
                Ok(true) => {
                    logger.info("The classic menu is already enabled.");
                    Ok(())
                },
                Ok(false) => {
                    match api.create_registry_key(INPROC_PATH) {
                        Ok(()) => {},
                        Err(e) => {
                            return Err(e);
                        },
                    }
                    match api.set_registry_string(INPROC_PATH, "", "") {
                        Ok(()) => {},
                        Err(e) => {
                            return Err(e);
                        },
                    }
                    logger.info("Classic menu enabled (registry key created).");
                    match api.restart_explorer() {
                        Ok(()) => logger.success("Explorer restarted; the change is in effect."),
                        Err(e) => {
                            let mut msg = "Could not restart Explorer: ".to_owned();
                            msg.append(e.as_str());
                            msg.append(". Restart it by hand or sign out.");
                            logger.info(msg.as_str());
                        },
                    }
                    Ok(())
                },
                Err(e) => {
                    let mut msg = "Registry check failed: ".to_owned();
                    msg.append(e.as_str());
                    Err(msg)
                },
            }
        } else {
            match api.registry_key_exists(CLSID_BASE) {
                Ok(true) => {
                    match api.delete_registry_key(CLSID_BASE) {
                        Ok(()) => {},
                        Err(e) => {
                            return Err(e);
                        },
                    }
                    logger.info("Classic menu disabled (registry key removed).");
                    match api.restart_explorer() {
                        Ok(()) => logger.success("Explorer restarted; the change is in effect."),
                        Err(e) => {
                            let mut msg = "Could not restart Explorer: ".to_owned();
                            msg.append(e.as_str());
                            msg.append(". Restart it by hand or sign out.");
                            logger.info(msg.as_str());
                        },
                    }
                    Ok(())
                },
                Ok(false) => {
                    logger.info("The classic menu is already disabled.");
                    Ok(())
                },
                Err(e) => {
                    let mut msg = "Registry check failed: ".to_owned();
                    msg.append(e.as_str());
                    Err(msg)
                },
            }
        }
    }
}

/// The instance of the classic context menu extension that the registry holds.
pub fn plugin() -> ClassicContextMenuPlugin {
    ClassicContextMenuPlugin
}

} // verus!
