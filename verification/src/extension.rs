//! The language server and the choice of debug adapter.
//!
//! The language server is a framework-dependent build without an app host:
//! it ships as the single universal bundle `LanguageServer` and runs as
//! `dotnet DotRush.dll`.

use vstd::prelude::*;
use crate::github::{bundle_asset_name, bundle_name};
use crate::install::{InstallPlan, Installer, PlanView, StateView};
use crate::text::{join, joined};

verus! {

const LANGUAGE_SERVER_MODULE: &'static str = "LanguageServer";

const LANGUAGE_SERVER_DLL: &'static str = "DotRush.dll";

/// The debug adapters that the extension provides.
#[derive(Clone, Copy, Debug, PartialEq, Eq, Structural)]
pub enum DebugAdapter {
    /// The Mono debugger, `monodbg`.
    Mono,
    /// The .NET Core debugger, `ncdbg`.
    NetCore,
}

/// The adapter of a name, if the extension provides one by that name.
pub open spec fn adapter_named(name: Seq<char>) -> Option<DebugAdapter> {
    if name == "monodbg"@ {
        Some(DebugAdapter::Mono)
    } else if name == "ncdbg"@ {
        Some(DebugAdapter::NetCore)
    } else {
        None
    }
}

/// The command that starts a process.
#[derive(Clone, Debug, PartialEq, Eq)]
pub struct Command {
    pub command: String,
    pub args: Vec<String>,
    pub env: Vec<(String, String)>,
}

/// Where the language server is installed.
pub open spec fn language_server_dir() -> Seq<char> {
    joined("./bin"@, "LanguageServer"@)
}

/// How the language server is installed: the DotRush bundle
/// `LanguageServer`, checked by the presence of `DotRush.dll`, with progress
/// and failures shown to the user.
pub open spec fn language_server_plan() -> PlanView {
    PlanView {
        target: joined(language_server_dir(), "DotRush.dll"@),
        install_dir: language_server_dir(),
        repo: "JaneySprings/DotRush"@,
        asset: Ok(bundle_name("LanguageServer"@)),
        project: "DotRush"@,
        missing_error: "DotRush.dll"@ + " not found after extracting the language server bundle"@,
        make_executable: false,
        report_status: true,
        resolve_error_prefix: "Cannot resolve "@ + "DotRush.dll"@ + " path: "@,
    }
}

/// The debug adapter that a name selects.
pub fn adapter_for(name: &str) -> (r: Option<DebugAdapter>)
    ensures
        r == adapter_named(name@),
{
    if crate::text::same_text(name, "monodbg") {
        Some(DebugAdapter::Mono)
    } else if crate::text::same_text(name, "ncdbg") {
        Some(DebugAdapter::NetCore)
    } else {
        None
    }
}

/// Starts the installer of the language server; it finishes with the
/// absolute path of `DotRush.dll`, downloading the bundle when the file is
/// missing and showing the installation status as it goes.
pub fn language_server_dll() -> (r: Installer)
    ensures
        r.plan@ == language_server_plan(),
        r.state@ == StateView::CheckingInstalled,
{
    let install_dir = join(crate::ROOT_DIR, LANGUAGE_SERVER_MODULE);
    let dll_path = join(install_dir.as_str(), LANGUAGE_SERVER_DLL);
    let plan = InstallPlan {
        target: dll_path,
        install_dir,
        repo: String::from_str(crate::GITHUB_REPO),
        asset: Ok(bundle_asset_name(LANGUAGE_SERVER_MODULE)),
        project: String::from_str("DotRush"),
        missing_error: String::from_str(LANGUAGE_SERVER_DLL).concat(
            " not found after extracting the language server bundle",
        ),
        make_executable: false,
        report_status: true,
        resolve_error_prefix: String::from_str("Cannot resolve ").concat(LANGUAGE_SERVER_DLL).concat(
            " path: ",
        ),
    };
    Installer::new(plan)
}

/// The start of the language server: the `dotnet` host must be found
/// before anything is installed or shown, since without a runtime there is
/// no point in downloading the server. A missing host is returned as is and
/// no installer exists; else the host comes back with the language server's
/// installer, not yet started.
pub fn language_server_session(host: Result<String, String>) -> (r: Result<(String, Installer), String>)
    ensures
        host matches Err(e) ==> r == Err::<(String, Installer), String>(e),
        host matches Ok(dotnet) ==> (r matches Ok((d, installer)) && d == dotnet
            && installer.plan@ == language_server_plan()
            && installer.state@ == StateView::CheckingInstalled),
{
    match host {
        Err(e) => Err(e),
        Ok(dotnet) => Ok((dotnet, language_server_dll())),
    }
}

/// The command that starts the language server: `dotnet DotRush.dll`, with
/// no environment of its own.
pub fn language_server_command(dotnet: String, dll_path: String) -> (r: Command)
    ensures
        r.command == dotnet,
        r.args@ == seq![dll_path],
        r.env@.len() == 0,
{
    let mut args = Vec::new();
    args.push(dll_path);
    Command { command: dotnet, args, env: Vec::new() }
}

} // verus!
