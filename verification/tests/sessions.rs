use dotrush::debugger::mono::{self, MonoDebugConfig};
use dotrush::debugger::ncdbg::{self, NetCoreDebugConfig};
use dotrush::debugger::RequestKind;
use dotrush::extension::language_server_session;
use dotrush::install::InstallAction;
use dotrush::platform::{Architecture, Os};

fn s(text: &str) -> String {
    text.to_string()
}

fn netcore(request: &str, env: Vec<(String, String)>) -> NetCoreDebugConfig {
    NetCoreDebugConfig {
        request: s(request),
        program: None,
        args: None,
        cwd: None,
        env,
        stop_at_entry: None,
        just_my_code: None,
        enable_step_filtering: None,
        process_id: None,
    }
}

fn mono_config(request: &str, env: Vec<(String, String)>) -> MonoDebugConfig {
    MonoDebugConfig {
        request: s(request),
        program: None,
        args: None,
        cwd: Some(s("/game")),
        env,
        process_id: None,
        debugger_options: None,
        ttype: None,
    }
}

#[test]
fn ncdbg_invalid_request_ends_before_install() {
    let r = ncdbg::session(Ok(netcore("Launch", vec![])), Os::Linux, Architecture::X8664);
    assert_eq!(
        r.err(),
        Some(s("Invalid 'request' value: 'Launch'. Expected 'launch' or 'attach'"))
    );
}

#[test]
fn ncdbg_parse_error_ends_before_install() {
    let r = ncdbg::session(Err(s("expected value at line 1 column 1")), Os::Linux, Architecture::X8664);
    assert_eq!(r.err(), Some(s("expected value at line 1 column 1")));
}

#[test]
fn ncdbg_valid_session_hands_out_installer() {
    let (config, kind, installer) =
        ncdbg::session(Ok(netcore("attach", vec![])), Os::Mac, Architecture::Aarch64).unwrap();
    assert_eq!(config, netcore("attach", vec![]));
    assert_eq!(kind, RequestKind::Attach);
    assert_eq!(installer.request(), InstallAction::CheckFile(s("./bin/Debugger/clrdbg")));
}

#[test]
fn ncdbg_finish_returns_install_failure() {
    let r = ncdbg::finish(Err(s("no release")), s("{}"), netcore("launch", vec![]), RequestKind::Launch, s("/r"));
    assert_eq!(r, Err(s("no release")));
}

#[test]
fn ncdbg_finish_collects_env() {
    let env = vec![(s("A"), s("1")), (s("A"), s("2"))];
    let b = ncdbg::finish(Ok(s("/w/clrdbg")), s("{}"), netcore("launch", env), RequestKind::Launch, s("/r"))
        .unwrap();
    assert_eq!(b.envs, vec![(s("A"), s("2"))]);
    assert_eq!(b.cwd, Some(s("/r")));
    assert_eq!(b.command, Some(s("/w/clrdbg")));
}

#[test]
fn mono_missing_host_ends_before_install() {
    assert_eq!(mono::session(Err(s("Cannot find 'dotnet'."))).err(), Some(s("Cannot find 'dotnet'.")));
}

#[test]
fn mono_found_host_hands_out_installer() {
    let (dotnet, installer) = mono::session(Ok(s("/usr/bin/dotnet"))).unwrap();
    assert_eq!(dotnet, "/usr/bin/dotnet");
    assert_eq!(installer.request(), InstallAction::CheckFile(s("./bin/DebuggerMono/monodbg.dll")));
}

#[test]
fn mono_install_failure_wins_over_bad_request() {
    let r = mono::finish(
        s("/usr/bin/dotnet"),
        Err(s("download failed")),
        Ok(mono_config("debug", vec![])),
        s("{\"request\":\"debug\"}"),
        s("/p"),
    );
    assert_eq!(r, Err(s("download failed")));
}

#[test]
fn mono_install_failure_wins_over_parse_error() {
    let r = mono::finish(s("/usr/bin/dotnet"), Err(s("download failed")), Err(s("bad json")), s("{"), s("/p"));
    assert_eq!(r, Err(s("download failed")));
}

#[test]
fn mono_parse_error_wins_over_request() {
    let r = mono::finish(s("/usr/bin/dotnet"), Ok(s("/w/monodbg.dll")), Err(s("bad json")), s("{"), s("/p"));
    assert_eq!(r, Err(s("bad json")));
}

#[test]
fn mono_bad_request_after_install() {
    let r = mono::finish(
        s("/usr/bin/dotnet"),
        Ok(s("/w/monodbg.dll")),
        Ok(mono_config("debug", vec![])),
        s("{\"request\":\"debug\"}"),
        s("/p"),
    );
    assert_eq!(r, Err(s("Invalid 'request' value: 'debug'. Expected 'launch' or 'attach'")));
}

#[test]
fn mono_finish_builds_binary() {
    let env = vec![(s("X"), s("1")), (s("Y"), s("2")), (s("X"), s("3"))];
    let b = mono::finish(
        s("/usr/bin/dotnet"),
        Ok(s("/w/monodbg.dll")),
        Ok(mono_config("attach", env)),
        s("{\"request\":\"attach\"}"),
        s("/p"),
    )
    .unwrap();
    assert_eq!(b.command, Some(s("/usr/bin/dotnet")));
    assert_eq!(b.arguments, vec![s("/w/monodbg.dll")]);
    assert_eq!(b.envs, vec![(s("X"), s("3")), (s("Y"), s("2"))]);
    assert_eq!(b.cwd, Some(s("/game")));
    assert_eq!(b.request, RequestKind::Attach);
}

#[test]
fn language_server_needs_dotnet_first() {
    assert_eq!(language_server_session(Err(s("no dotnet"))).err(), Some(s("no dotnet")));
    let (dotnet, installer) = language_server_session(Ok(s("/usr/bin/dotnet"))).unwrap();
    assert_eq!(dotnet, "/usr/bin/dotnet");
    assert_eq!(installer.request(), InstallAction::CheckFile(s("./bin/LanguageServer/DotRush.dll")));
}
