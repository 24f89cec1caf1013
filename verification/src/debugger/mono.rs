//! The Mono debugger (`monodbg`), used to attach to Unity players. It ships
//! in the DotRush release as a framework-dependent bundle that runs with
//! `dotnet monodbg.dll`.

use vstd::prelude::*;
use crate::debugger::{
    configured_kind, request_of, starts_adapter, kind_of_field, kind_of_request_field, kind_result, str_option, AttachRequest, DebugAdapterBinary,
    DebugConfig, DebugRequest, DebugScenario, ProcessId, RequestKind,
};
use crate::env::collect_env;
use crate::github::{bundle_asset_name, bundle_name};
use crate::install::{InstallPlan, Installer, PlanView, StateView};
use crate::text::{join, joined};

verus! {

const MODULE_DIR: &'static str = "DebuggerMono";

const DLL_NAME: &'static str = "monodbg.dll";

/// Options of the Mono debugger, left at their defaults.
#[derive(Clone, Copy, Debug, PartialEq, Eq, Structural)]
pub struct DebuggerOptions {}

/// The configuration that the Mono debugger reads.
#[derive(Clone, Debug, PartialEq, Eq)]
pub struct MonoDebugConfig {
    pub request: String,
    pub program: Option<String>,
    pub args: Option<Vec<String>>,
    pub cwd: Option<String>,
    pub env: Vec<(String, String)>,
    pub process_id: Option<ProcessId>,
    pub debugger_options: Option<DebuggerOptions>,
    /// The kind of target (`type` in the configuration).
    pub ttype: Option<String>,
}

/// The configuration for attaching to a Unity player, of which the editor
/// picks the process.
pub open spec fn is_unity_attach(c: MonoDebugConfig) -> bool {
    &&& c.request@ == "attach"@
    &&& c.program is None
    &&& c.args is None
    &&& c.cwd is None
    &&& c.env@.len() == 0
    &&& c.process_id is None
    &&& c.debugger_options == Some(DebuggerOptions {})
    &&& c.ttype matches Some(t) && t@ == "unity"@
}

/// The Unity attach configuration attaches (it never launches), names no
/// program, arguments, directory, environment or process of its own, keeps
/// the debugger's default options, and targets Unity.
pub proof fn law_unity_attach(c: MonoDebugConfig)
    requires
        is_unity_attach(c),
    ensures
        c.request@ != "launch"@,
        c.request@ == "attach"@,
        c.program is None && c.args is None && c.cwd is None && c.process_id is None,
        c.env@.len() == 0,
        c.debugger_options is Some,
        c.ttype matches Some(t) && t@ == "unity"@,
{
    reveal_strlit("launch");
    reveal_strlit("attach");
    assert("launch"@[0] != "attach"@[0]);
}

/// Where the Mono debugger is installed.
pub open spec fn install_dir() -> Seq<char> {
    joined("./bin"@, "DebuggerMono"@)
}

/// How the Mono debugger is installed: the DotRush bundle `DebuggerMono`,
/// checked by the presence of `monodbg.dll`.
pub open spec fn install_plan() -> PlanView {
    PlanView {
        target: joined(install_dir(), "monodbg.dll"@),
        install_dir: install_dir(),
        repo: "JaneySprings/DotRush"@,
        asset: Ok(bundle_name("DebuggerMono"@)),
        project: "DotRush"@,
        missing_error: "Cannot find "@ + "monodbg.dll"@ + " after download"@,
        make_executable: false,
        report_status: false,
        resolve_error_prefix: "Cannot resolve "@ + "monodbg.dll"@ + " path: "@,
    }
}

impl MonoDebugConfig {
    /// The scenario that attaches to a Unity player: it needs a process id
    /// from the editor, though the configuration leaves the pick to the
    /// debugger.
    pub fn default_attach(config: DebugConfig, attach: AttachRequest) -> (r: Result<
        DebugScenario<MonoDebugConfig>,
        String,
    >)
        ensures
            attach.process_id is None <==> r is Err,
            r matches Err(e) ==> e@ == "process_id is required"@,
            r matches Ok(s) ==> s.label == config.label && s.adapter == config.adapter
                && is_unity_attach(s.config),
    {
        if attach.process_id.is_none() {
            return Err(String::from_str("process_id is required"));
        }
        let mono_debug_config = MonoDebugConfig {
            request: String::from_str("attach"),
            program: None,
            args: None,
            cwd: None,
            env: Vec::new(),
            process_id: None,
            debugger_options: Some(DebuggerOptions {}),
            ttype: Some(String::from_str("unity")),
        };
        Ok(DebugScenario { label: config.label, adapter: config.adapter, config: mono_debug_config })
    }
}

/// Starts the installer of the Mono debugger; it finishes with the absolute
/// path of `monodbg.dll`, downloading the bundle when the file is missing.
pub fn ensure_installed() -> (r: Installer)
    ensures
        r.plan@ == install_plan(),
        r.state@ == StateView::CheckingInstalled,
{
    let install_dir = join(crate::ROOT_DIR, MODULE_DIR);
    let dll_path = join(install_dir.as_str(), DLL_NAME);
    let plan = InstallPlan {
        target: dll_path,
        install_dir,
        repo: String::from_str(crate::GITHUB_REPO),
        asset: Ok(bundle_asset_name(MODULE_DIR)),
        project: String::from_str("DotRush"),
        missing_error: String::from_str("Cannot find ").concat(DLL_NAME).concat(" after download"),
        make_executable: false,
        report_status: false,
        resolve_error_prefix: String::from_str("Cannot resolve ").concat(DLL_NAME).concat(" path: "),
    };
    Installer::new(plan)
}

/// The start of a Mono debug session: the `dotnet` host must be found before
/// anything is installed. A missing host is returned as is and no installer
/// exists; else the host comes back with the debugger's installer, not yet
/// started.
pub fn session(host: Result<String, String>) -> (r: Result<(String, Installer), String>)
    ensures
        host matches Err(e) ==> r == Err::<(String, Installer), String>(e),
        host matches Ok(dotnet) ==> (r matches Ok((d, installer)) && d == dotnet
            && installer.plan@ == install_plan() && installer.state@ == StateView::CheckingInstalled),
{
    match host {
        Err(e) => Err(e),
        Ok(dotnet) => Ok((dotnet, ensure_installed())),
    }
}

/// The end of a Mono debug session's start, once the debugger's installer
/// finished and the configuration was parsed: a failed installation is
/// returned first, then a configuration that could not be parsed, then a
/// `request` value that names no kind of request; else `dotnet` runs the
/// installed `monodbg.dll`.
pub fn finish(
    dotnet: String,
    installed: Result<String, String>,
    parsed: Result<MonoDebugConfig, String>,
    configuration: String,
    root_path: String,
) -> (r: Result<DebugAdapterBinary, String>)
    ensures
        installed matches Err(e) ==> r == Err::<DebugAdapterBinary, String>(e),
        installed is Ok ==> (parsed matches Err(e) ==> r == Err::<DebugAdapterBinary, String>(e)),
        installed matches Ok(dll_path) ==> (parsed matches Ok(c) ==> match configured_kind(c.request@) {
            Err(m) => r matches Err(e) && e@ == m,
            Ok(kind) => r matches Ok(b) && starts_adapter(
                b,
                dotnet,
                seq![dll_path],
                c.env,
                c.cwd,
                root_path,
                configuration,
                kind,
            ),
        }),
{
    let dll_path = match installed {
        Err(e) => {
            return Err(e);
        },
        Ok(p) => p,
    };
    let dbg_config = match parsed {
        Err(e) => {
            return Err(e);
        },
        Ok(c) => c,
    };
    let request = match request_of(dbg_config.request.as_str()) {
        Err(e) => {
            return Err(e);
        },
        Ok(k) => k,
    };
    Ok(get_dap_binary(dotnet, dll_path, configuration, dbg_config, request, root_path))
}

/// How to start the Mono debugger for a session: `dotnet monodbg.dll`, with
/// the configuration's environment, in its working directory or else the
/// worktree's root.
pub fn get_dap_binary(
    dotnet: String,
    dll_path: String,
    configuration: String,
    dbg_config: MonoDebugConfig,
    request: RequestKind,
    root_path: String,
) -> (r: DebugAdapterBinary)
    ensures
        starts_adapter(
            r,
            dotnet,
            seq![dll_path],
            dbg_config.env,
            dbg_config.cwd,
            root_path,
            configuration,
            request,
        ),
{
    let envs = collect_env(&dbg_config.env);
    let cwd = match dbg_config.cwd {
        Some(cwd) => cwd,
        None => root_path,
    };
    let mut arguments = Vec::new();
    arguments.push(dll_path);
    DebugAdapterBinary {
        command: Some(dotnet),
        arguments,
        envs,
        cwd: Some(cwd),
        configuration,
        request,
    }
}

/// Whether a session configuration launches or attaches, from its `request`
/// field (`None` where the field is missing or not a string).
pub fn dap_request_kind(request: Option<&str>) -> (r: Result<RequestKind, String>)
    ensures
        kind_result(r) == kind_of_field(str_option(request)),
{
    kind_of_request_field(request)
}

/// The scenario for a new-session request: the Mono debugger only attaches.
pub fn dap_config_to_scenario(config: DebugConfig) -> (r: Result<DebugScenario<MonoDebugConfig>, String>)
    ensures
        config.request is Launch ==> (r matches Err(e) && e@ == "Launch not implemented"@),
        config.request matches DebugRequest::Attach(a) ==> {
            &&& a.process_id is None <==> r is Err
            &&& r matches Err(e) ==> e@ == "process_id is required"@
            &&& r matches Ok(s) ==> s.label == config.label && s.adapter == config.adapter
                && is_unity_attach(s.config)
        },
{
    let attach = match &config.request {
        DebugRequest::Launch(_) => {
            return Err(String::from_str("Launch not implemented"));
        },
        DebugRequest::Attach(attach) => *attach,
    };
    MonoDebugConfig::default_attach(config, attach)
}

} // verus!
