//! The network reset extension: flushes the DNS cache, releases and renews
//! the address lease, and resets the socket catalog, each behind its own
//! switch, reporting every command's output in the log.

use vstd::prelude::*;

use crate::api::{CmdOutput, PluginApi};
use crate::logger::Logger;
use crate::plugin::{Plugin, PluginPreview};
use crate::settings::{
    FieldView, MetaView, PluginMeta, SettingField, SettingKind, SettingUi, UiView,
};
use crate::text::{i64_to_string, trim_ws};
use crate::value::{get_bool, SettingsValue, ValueView};

verus! {

/// The network reset extension.
pub struct NetworkToolsPlugin;

/// The description this extension always gives of itself.
pub open spec fn network_tools_meta() -> MetaView {
    MetaView {
        id: "network_tools"@,
        name: "Network cleanup"@,
        description:
            "Helps fix connection problems: refreshes the network parameters that most often cause unreachable sites or unstable connections."@,
        category: "Network"@,
        settings: seq![
            FieldView {
                key: "flush_dns"@,
                label: "Flush the DNS cache"@,
                kind: SettingKind::Boolean,
                description: Some(
                    "Useful when a site does not open or resolves to a stale address."@,
                ),
                required: false,
                default_value: ValueView::Bool(false),
                options: None,
                ui: None,
            },
            FieldView {
                key: "release_ip"@,
                label: "Release the IP address"@,
                kind: SettingKind::Boolean,
                description: Some(
                    "Helps with connection errors by dropping the current lease."@,
                ),
                required: false,
                default_value: ValueView::Bool(false),
                options: None,
                ui: None,
            },
            FieldView {
                key: "renew_ip"@,
                label: "Request a new IP address"@,
                kind: SettingKind::Boolean,
                description: Some(
                    "Requests a fresh lease after a release; often restores access."@,
                ),
                required: false,
                default_value: ValueView::Bool(false),
                options: None,
                ui: None,
            },
            FieldView {
                key: "reset_winsock"@,
                label: "Reset the network stack"@,
                kind: SettingKind::Boolean,
                description: Some(
                    "Use when nothing else helped; restores the socket catalog."@,
                ),
                required: false,
                default_value: ValueView::Bool(false),
                options: None,
                ui: Some(UiView {
                    placeholder: None,
                    min: None,
                    max: None,
                    step: None,
                    rows: None,
                    unit: None,
                    danger: Some(true),
                }),
            },
        ],
    }
}

impl Plugin for NetworkToolsPlugin {
    open spec fn spec_meta(&self) -> MetaView {
        network_tools_meta()
    }

    fn meta(&self) -> (m: PluginMeta) {
        let mut fields: Vec<SettingField> = Vec::new();
        fields.push(
            SettingField {
                key: "flush_dns".to_owned(),
                label: "Flush the DNS cache".to_owned(),
                kind: SettingKind::Boolean,
                description: Some(
                    "Useful when a site does not open or resolves to a stale address.".to_owned(),
                ),
                required: false,
                default_value: SettingsValue::Bool(false),
                options: None,
                ui: None,
            },
        );
        fields.push(
            SettingField {
                key: "release_ip".to_owned(),
                label: "Release the IP address".to_owned(),
                kind: SettingKind::Boolean,
                description: Some(
                    "Helps with connection errors by dropping the current lease.".to_owned(),
                ),
                required: false,
                default_value: SettingsValue::Bool(false),
                options: None,
                ui: None,
            },
        );
        fields.push(
            SettingField {
                key: "renew_ip".to_owned(),
                label: "Request a new IP address".to_owned(),
                kind: SettingKind::Boolean,
                description: Some(
                    "Requests a fresh lease after a release; often restores access.".to_owned(),
                ),
                required: false,
                default_value: SettingsValue::Bool(false),
                options: None,
                ui: None,
            },
        );
        fields.push(
            SettingField {
                key: "reset_winsock".to_owned(),
                label: "Reset the network stack".to_owned(),
                kind: SettingKind::Boolean,
                description: Some(
                    "Use when nothing else helped; restores the socket catalog.".to_owned(),
                ),
                required: false,
                default_value: SettingsValue::Bool(false),
                options: None,
                ui: Some(
                    SettingUi {
                        placeholder: None,
                        min: None,
                        max: None,
                        step: None,
                        rows: None,
                        unit: None,
                        danger: Some(true),
                    },
                ),
            },
        );
        let m = PluginMeta {
            id: "network_tools".to_owned(),
            name: "Network cleanup".to_owned(),
            description:
                "Helps fix connection problems: refreshes the network parameters that most often cause unreachable sites or unstable connections."
                .to_owned(),
            category: "Network".to_owned(),
            settings: fields,
        };
        proof {
            assert(m@.settings =~= network_tools_meta().settings);
        }
        m
    }

    fn defaults<A: PluginApi>(&self, api: &A) -> (r: Option<SettingsValue>) {
        None
    }

    fn preview<A: PluginApi>(&self, api: &A) -> (r: Result<Option<PluginPreview>, String>)
        ensures
            r is Ok,
    {
        Ok(None)
    }

    fn run<A: PluginApi>(&self, api: &A, settings: &SettingsValue, logger: &mut Logger) -> (r:
        Result<(), String>) {
        if !api.os_is_windows() {
            return Err("This module is only available on Windows.".to_owned());
        }

        let flush_dns = get_bool(settings, "flush_dns", false);
        let release_ip = get_bool(settings, "release_ip", false);
        let renew_ip = get_bool(settings, "renew_ip", false);
        let reset_winsock = get_bool(settings, "reset_winsock", false);
        let mut any = false;

        if flush_dns {
            any = true;
            let mut args: Vec<String> = Vec::new();
            args.push("/flushdns".to_owned());
            match run_cmd(api, logger, "ipconfig", &args) {
                Ok(()) => {},
                Err(e) => {
                    return Err(e);
                },
            }
        }
        if release_ip {
            any = true;
            let mut args: Vec<String> = Vec::new();
            args.push("/release".to_owned());
            match run_cmd(api, logger, "ipconfig", &args) {
                Ok(()) => {},
                Err(e) => {
                    return Err(e);
                },
            }
        }
        if renew_ip {
            any = true;
            let mut args: Vec<String> = Vec::new();
            args.push("/renew".to_owned());
            match run_cmd(api, logger, "ipconfig", &args) {
                Ok(()) => {},
                Err(e) => {
                    return Err(e);
                },
            }
        }
        if reset_winsock {
            any = true;
            let mut args: Vec<String> = Vec::new();
            args.push("winsock".to_owned());
            args.push("reset".to_owned());
            match run_cmd(api, logger, "netsh", &args) {
                Ok(()) => {},
                Err(e) => {
                    return Err(e);
                },
            }
            logger.warn("A system restart may be needed after the socket catalog reset.");
        }

        if !any {
            return Err("Select at least one operation.".to_owned());
        }

        proof {
            assert(logger@.logs.take(old(logger)@.logs.len() as int) =~= old(logger)@.logs);
        }
        Ok(())
    }
}

/// Runs one external command, logs what it printed, and fails when the
/// command reports failure; the logger only grows and keeps its depth.
fn run_cmd<A: PluginApi>(api: &A, logger: &mut Logger, cmd: &str, args: &Vec<String>) -> (r: Result<
    (),
    String,
>)
    ensures
        final(logger)@.logs.len() >= old(logger)@.logs.len(),
        final(logger)@.logs.take(old(logger)@.logs.len() as int) == old(logger)@.logs,
        final(logger)@.indent == old(logger)@.indent,
{
    let mut line = "Running: ".to_owned();
    line.append(cmd);
    let mut i: usize = 0;
    while i < args.len()
        invariant
            logger@ == old(logger)@,
        decreases args@.len() - i,
    {
        line.append(" ");
        line.append(args[i].as_str());
        i += 1;
    }
    logger.info(line.as_str());

    let output = match api.run_command(cmd, args) {
        Ok(out) => out,
        Err(e) => {
            let mut msg = "Could not start ".to_owned();
            msg.append(cmd);
            msg.append(": ");
            msg.append(e.as_str());
            proof {
                assert(logger@.logs.take(old(logger)@.logs.len() as int) =~= old(logger)@.logs);
            }
            return Err(msg);
        },
    };

    if !output.stdout.as_str().is_empty() {
        let text = trim_ws(output.stdout.as_str());
        logger.info(text.as_str());
    }
    if !output.stderr.as_str().is_empty() {
        let text = trim_ws(output.stderr.as_str());
        logger.warn(text.as_str());
    }

    proof {
        assert(logger@.logs.take(old(logger)@.logs.len() as int) =~= old(logger)@.logs);
    }
    if output.success {
        Ok(())
    } else {
        let mut msg = "Command ".to_owned();
        msg.append(cmd);
        msg.append(" exited with code ");
        match output.code {
            Some(code) => {
                msg.append(i64_to_string(code).as_str());
            },
            None => {
                msg.append("unknown");
            },
        }
        Err(msg)
    }
}

/// The instance of the network reset extension that the registry holds.
pub fn plugin() -> NetworkToolsPlugin {
    NetworkToolsPlugin
}

} // verus!
