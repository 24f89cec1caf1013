//! The .NET Core debugger (`clrdbg`). It ships as a self-contained build per
//! platform (`clrdbg_<os>-<arch>.zip`), with the executable at the archive's
//! root, so it runs without a `dotnet` host.

use vstd::prelude::*;
use crate::debugger::{
    configured_kind, request_of, starts_adapter, kind_of_field, kind_of_request_field, kind_result, str_option, DebugAdapterBinary, DebugConfig,
    DebugRequest, DebugScenario, ProcessId, RequestKind,
};
use crate::env::{
    collect_env, env_map, env_view, last_of_its_name, law_collected_holds_last_assignments, names_unique,
};
use crate::install::{InstallPlan, Installer, PlanView, StateView};
use crate::platform::{Architecture, Os};
use crate::text::{join, joined, text_result};

verus! {

const REPO_SOURCE: &'static str = "JaneySprings/clrdbg";

const MODULE_DIR: &'static str = "Debugger";

const BINARY_NAME: &'static str = "clrdbg";

/// The configuration that the .NET Core debugger reads.
#[derive(Clone, Debug, PartialEq, Eq)]
pub struct NetCoreDebugConfig {
    pub request: String,
    pub program: Option<String>,
    pub args: Option<Vec<String>>,
    pub cwd: Option<String>,
    pub env: Vec<(String, String)>,
    pub stop_at_entry: Option<bool>,
    pub just_my_code: Option<bool>,
    pub enable_step_filtering: Option<bool>,
    pub process_id: Option<ProcessId>,
}

/// The file name of the debugger executable on `os`.
pub open spec fn executable_file(os: Os) -> Seq<char> {
    if os == Os::Windows {
        "clrdbg"@ + ".exe"@
    } else {
        "clrdbg"@
    }
}

/// How the release names an operating system.
pub open spec fn os_tag(os: Os) -> Seq<char> {
    match os {
        Os::Mac => "osx"@,
        Os::Linux => "linux"@,
        Os::Windows => "win"@,
    }
}

/// The archive of the debugger for a machine, or why there is none: no build
/// exists for 32-bit x86.
pub open spec fn archive_for(os: Os, arch: Architecture) -> Result<Seq<char>, Seq<char>> {
    match arch {
        Architecture::Aarch64 => Ok("clrdbg"@ + "_"@ + os_tag(os) + "-"@ + "arm64"@ + ".zip"@),
        Architecture::X8664 => Ok("clrdbg"@ + "_"@ + os_tag(os) + "-"@ + "x64"@ + ".zip"@),
        Architecture::X86 => Err("clrdbg"@ + " is not available for 32-bit x86"@),
    }
}

/// Where the debugger is installed.
pub open spec fn install_dir() -> Seq<char> {
    joined("./bin"@, "Debugger"@)
}

/// How the debugger is installed on a machine: the platform archive from the
/// latest `clrdbg` release, checked by the presence of the executable, which
/// is marked executable after extraction.
pub open spec fn install_plan(os: Os, arch: Architecture) -> PlanView {
    PlanView {
        target: joined(install_dir(), executable_file(os)),
        install_dir: install_dir(),
        repo: "JaneySprings/clrdbg"@,
        asset: archive_for(os, arch),
        project: "clrdbg"@,
        missing_error: "Cannot find "@ + executable_file(os) + " after download"@,
        make_executable: true,
        report_status: false,
        resolve_error_prefix: "Cannot resolve "@ + executable_file(os) + " path: "@,
    }
}

/// The file name of the debugger executable on `os`.
pub fn executable_name(os: Os) -> (r: String)
    ensures
        r@ == executable_file(os),
{
    match os {
        Os::Windows => String::from_str(BINARY_NAME).concat(".exe"),
        _ => String::from_str(BINARY_NAME),
    }
}

/// The name of the debugger archive for a machine.
pub fn asset_name(os: Os, arch: Architecture) -> (r: Result<String, String>)
    ensures
        text_result(r) == archive_for(os, arch),
{
    let os_tag = match os {
        Os::Mac => "osx",
        Os::Linux => "linux",
        Os::Windows => "win",
    };
    let arch_tag = match arch {
        Architecture::Aarch64 => "arm64",
        Architecture::X8664 => "x64",
        Architecture::X86 => {
            return Err(String::from_str(BINARY_NAME).concat(" is not available for 32-bit x86"));
        },
    };
    Ok(String::from_str(BINARY_NAME).concat("_").concat(os_tag).concat("-").concat(arch_tag).concat(
        ".zip",
    ))
}

/// Starts the installer of the debugger on a machine; it finishes with the
/// absolute path of the executable, downloading the platform archive and
/// marking the executable when it is missing.
pub fn ensure_installed(os: Os, arch: Architecture) -> (r: Installer)
    ensures
        r.plan@ == install_plan(os, arch),
        r.state@ == StateView::CheckingInstalled,
{
    let install_dir = join(crate::ROOT_DIR, MODULE_DIR);
    let executable = executable_name(os);
    let binary_path = join(install_dir.as_str(), executable.as_str());
    let plan = InstallPlan {
        target: binary_path,
        install_dir,
        repo: String::from_str(REPO_SOURCE),
        asset: asset_name(os, arch),
        project: String::from_str(BINARY_NAME),
        missing_error: String::from_str("Cannot find ").concat(executable.as_str()).concat(
            " after download",
        ),
        make_executable: true,
        report_status: false,
        resolve_error_prefix: String::from_str("Cannot resolve ").concat(executable.as_str()).concat(
            " path: ",
        ),
    };
    Installer::new(plan)
}

/// The start of a .NET Core debug session, once the configuration was
/// parsed: a configuration that could not be parsed is returned as is, and a
/// `request` value that names no kind of request ends the session with its
/// error, both before anything is installed. Else the configuration comes
/// back with its kind of request and the debugger's installer for the
/// machine, not yet started.
pub fn session(parsed: Result<NetCoreDebugConfig, String>, os: Os, arch: Architecture) -> (r: Result<
    (NetCoreDebugConfig, RequestKind, Installer),
    String,
>)
    ensures
        parsed matches Err(e) ==> r == Err::<(NetCoreDebugConfig, RequestKind, Installer), String>(e),
        parsed matches Ok(c) ==> match configured_kind(c.request@) {
            Err(m) => r matches Err(e) && e@ == m,
            Ok(kind) => r matches Ok((c2, k, installer)) && c2 == c && k == kind
                && installer.plan@ == install_plan(os, arch)
                && installer.state@ == StateView::CheckingInstalled,
        },
{
    let dbg_config = match parsed {
        Err(e) => {
            return Err(e);
        },
        Ok(c) => c,
    };
    let request = match request_of(dbg_config.request.as_str()) {
        Err(e) => {
            return Err(e);
        },
        Ok(k) => k,
    };
    Ok((dbg_config, request, ensure_installed(os, arch)))
}

/// The end of a .NET Core debug session's start, once the debugger's
/// installer finished: a failed installation is returned as is; else the
/// installed executable runs the session.
pub fn finish(
    installed: Result<String, String>,
    configuration: String,
    dbg_config: NetCoreDebugConfig,
    request: RequestKind,
    root_path: String,
) -> (r: Result<DebugAdapterBinary, String>)
    ensures
        installed matches Err(e) ==> r == Err::<DebugAdapterBinary, String>(e),
        installed matches Ok(binary_path) ==> (r matches Ok(b) && starts_adapter(
            b,
            binary_path,
            Seq::empty(),
            dbg_config.env,
            dbg_config.cwd,
            root_path,
            configuration,
            request,
        )),
{
    match installed {
        Err(e) => Err(e),
        Ok(binary_path) => Ok(get_dap_binary(binary_path, configuration, dbg_config, request, root_path)),
    }
}

/// How to start the debugger for a session: the executable itself, without
/// arguments, with the configuration's environment, in its working directory
/// or else the worktree's root.
pub fn get_dap_binary(
    binary_path: String,
    configuration: String,
    dbg_config: NetCoreDebugConfig,
    request: RequestKind,
    root_path: String,
) -> (r: DebugAdapterBinary)
    ensures
        starts_adapter(
            r,
            binary_path,
            Seq::empty(),
            dbg_config.env,
            dbg_config.cwd,
            root_path,
            configuration,
            request,
        ),
{
    let envs = collect_env(&dbg_config.env);
    let cwd = match dbg_config.cwd {
        Some(cwd) => cwd,
        None => root_path,
    };
    DebugAdapterBinary {
        command: Some(binary_path),
        arguments: Vec::new(),
        envs,
        cwd: Some(cwd),
        configuration,
        request,
    }
}

/// Whether a session configuration launches or attaches, from its `request`
/// field (`None` where the field is missing or not a string).
pub fn dap_request_kind(request: Option<&str>) -> (r: Result<RequestKind, String>)
    ensures
        kind_result(r) == kind_of_field(str_option(request)),
{
    kind_of_request_field(request)
}

/// The debugger configuration that launches a program: its arguments only
/// when there are some, and its environment with each variable once, at the
/// value of its last assignment.
pub open spec fn launches(c: NetCoreDebugConfig, program: String, cwd: Option<String>, args: Vec<String>, envs: Vec<(String, String)>) -> bool {
    &&& c.request@ == "launch"@
    &&& c.program == Some(program)
    &&& (if args@.len() == 0 { c.args is None } else { c.args == Some(args) })
    &&& c.cwd == cwd
    &&& names_unique(env_view(c.env@))
    &&& env_map(env_view(c.env@)) == env_map(env_view(envs@))
    &&& c.stop_at_entry is None
    &&& c.just_my_code is None
    &&& c.enable_step_filtering is None
    &&& c.process_id is None
}

/// The debugger configuration that attaches to process `pid` (taken as a
/// 32-bit signed number, so that ids past its range wrap around).
pub open spec fn attaches(c: NetCoreDebugConfig, pid: u32, stop_on_entry: Option<bool>) -> bool {
    &&& c.request@ == "attach"@
    &&& c.program is None
    &&& c.args is None
    &&& c.cwd is None
    &&& c.env@.len() == 0
    &&& c.stop_at_entry == stop_on_entry
    &&& c.just_my_code is None
    &&& c.enable_step_filtering is None
    &&& c.process_id == Some(ProcessId::Int(pid as i32))
}

/// A launch scenario runs the requested program in the requested directory,
/// passes the program's arguments unchanged (all of them, in order) whenever
/// there are any, and none otherwise, and gives the program each variable
/// that the request assigns, once, at its last value, and no other,
/// whatever the arguments are.
pub proof fn law_launch_scenario(
    c: NetCoreDebugConfig,
    program: String,
    cwd: Option<String>,
    args: Vec<String>,
    envs: Vec<(String, String)>,
)
    requires
        launches(c, program, cwd, args, envs),
    ensures
        c.request@ == "launch"@,
        c.program == Some(program),
        c.cwd == cwd,
        args@.len() > 0 ==> (c.args matches Some(a) && a@.len() == args@.len() && forall|i: int|
            0 <= i < args@.len() ==> a@[i] == args@[i]),
        args@.len() == 0 ==> c.args is None,
        names_unique(env_view(c.env@)),
        forall|j: int| #[trigger] last_of_its_name(env_view(envs@), j) ==> exists|i: int|
            0 <= i < c.env@.len() && env_view(c.env@)[i] == env_view(envs@)[j],
        forall|i: int| 0 <= i < c.env@.len() ==> exists|j: int|
            0 <= j < envs@.len() && env_view(envs@)[j].0 == #[trigger] env_view(c.env@)[i].0,
        c.process_id is None,
        c.stop_at_entry is None,
{
    law_collected_holds_last_assignments(env_view(c.env@), env_view(envs@));
}

/// An attach scenario attaches to the picked process (its id as a 32-bit
/// signed number: unchanged when it fits, wrapped past `i32::MAX`), with the
/// requested stop on entry, and launches nothing.
pub proof fn law_attach_scenario(c: NetCoreDebugConfig, pid: u32, stop_on_entry: Option<bool>)
    requires
        attaches(c, pid, stop_on_entry),
    ensures
        c.request@ == "attach"@,
        c.process_id matches Some(ProcessId::Int(n)) && (pid <= i32::MAX ==> n == pid) && (pid > i32::MAX
            ==> n == pid - 0x1_0000_0000),
        c.stop_at_entry == stop_on_entry,
        c.program is None && c.args is None && c.cwd is None && c.env@.len() == 0,
{
    assert(pid <= i32::MAX ==> (pid as i32) == pid) by (bit_vector);
    assert(pid > i32::MAX ==> (pid as i32) == pid - 0x1_0000_0000) by (bit_vector);
}

/// The archive for a machine names its operating system (`osx`, `linux` or
/// `win`) and its architecture (`x64` for x86-64, `arm64` for AArch64), the
/// one independent of the other; there is none for 32-bit x86, whatever the
/// system.
pub proof fn law_archive_names(os: Os)
    ensures
        ({
            let tag = if os == Os::Mac {
                "osx"@
            } else if os == Os::Linux {
                "linux"@
            } else {
                "win"@
            };
            &&& archive_for(os, Architecture::X8664) == Ok::<Seq<char>, Seq<char>>("clrdbg_"@ + tag + "-x64.zip"@)
            &&& archive_for(os, Architecture::Aarch64) == Ok::<Seq<char>, Seq<char>>("clrdbg_"@ + tag + "-arm64.zip"@)
            &&& archive_for(os, Architecture::X86) == Err::<Seq<char>, Seq<char>>("clrdbg is not available for 32-bit x86"@)
        }),
{
    reveal_strlit("clrdbg");
    reveal_strlit("_");
    reveal_strlit("-");
    reveal_strlit("x64");
    reveal_strlit("arm64");
    reveal_strlit(".zip");
    reveal_strlit("clrdbg_");
    reveal_strlit("-x64.zip");
    reveal_strlit("-arm64.zip");
    reveal_strlit(" is not available for 32-bit x86");
    reveal_strlit("clrdbg is not available for 32-bit x86");
    let tag = os_tag(os);
    assert("clrdbg"@ + "_"@ + tag + "-"@ + "x64"@ + ".zip"@ =~= "clrdbg_"@ + tag + "-x64.zip"@);
    assert("clrdbg"@ + "_"@ + tag + "-"@ + "arm64"@ + ".zip"@ =~= "clrdbg_"@ + tag + "-arm64.zip"@);
    assert("clrdbg"@ + " is not available for 32-bit x86"@ =~= "clrdbg is not available for 32-bit x86"@);
}

fn pid_as_i32(pid: u32) -> (r: i32)
    ensures
        r == pid as i32,
{
    pid as i32
}

/// The scenario for a new-session request: launch the program, or attach to
/// the process the editor picked.
pub fn dap_config_to_scenario(config: DebugConfig) -> (r: Result<DebugScenario<NetCoreDebugConfig>, String>)
    ensures
        r matches Ok(s) ==> s.label == config.label && s.adapter == config.adapter,
        config.request matches DebugRequest::Launch(l) ==> (r matches Ok(s) && launches(
            s.config,
            l.program,
            l.cwd,
            l.args,
            l.envs,
        )),
        config.request matches DebugRequest::Attach(a) ==> match a.process_id {
            Some(pid) => r matches Ok(s) && attaches(s.config, pid, config.stop_on_entry),
            None => r matches Err(e) && e@ == "process_id not provided"@,
        },
{
    let dap_config = match config.request {
        DebugRequest::Launch(launch) => {
            let env = collect_env(&launch.envs);
            let args = if launch.args.len() == 0 {
                None
            } else {
                Some(launch.args)
            };
            NetCoreDebugConfig {
                request: String::from_str("launch"),
                program: Some(launch.program),
                args,
                cwd: launch.cwd,
                env,
                stop_at_entry: None,
                just_my_code: None,
                enable_step_filtering: None,
                process_id: None,
            }
        },
        DebugRequest::Attach(attach) => {
            let pid = match attach.process_id {
                Some(pid) => pid,
                None => {
                    return Err(String::from_str("process_id not provided"));
                },
            };
            NetCoreDebugConfig {
                request: String::from_str("attach"),
                program: None,
                args: None,
                cwd: None,
                env: Vec::new(),
                stop_at_entry: config.stop_on_entry,
                just_my_code: None,
                enable_step_filtering: None,
                process_id: Some(ProcessId::Int(pid_as_i32(pid))),
            }
        },
    };
    Ok(DebugScenario { label: config.label, adapter: config.adapter, config: dap_config })
}

} // verus!
