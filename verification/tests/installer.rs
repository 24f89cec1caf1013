use dotrush::debugger::{mono, ncdbg};
use dotrush::extension::language_server_dll;
use dotrush::github::{find_asset, bundle_asset_name, Release, ReleaseAsset};
use dotrush::install::{InstallAction, InstallEvent, InstallStatus, Installer};
use dotrush::platform::{Architecture, Os};

fn s(text: &str) -> String {
    text.to_string()
}

fn release(version: &str, assets: &[(&str, &str)]) -> Release {
    Release {
        version: s(version),
        assets: assets
            .iter()
            .map(|(name, url)| ReleaseAsset { name: s(name), download_url: s(url) })
            .collect(),
    }
}

/// Feeds the answers one by one and collects every request, the first one included.
fn run(mut installer: Installer, answers: Vec<InstallEvent>) -> Vec<InstallAction> {
    let mut requests = vec![installer.request()];
    for answer in answers {
        installer.advance(answer);
        requests.push(installer.request());
    }
    requests
}

fn dotrush_release() -> Release {
    release(
        "v1.2.3",
        &[
            ("DotRush.Bundle.DebuggerMono.zip", "https://x/mono.zip"),
            ("DotRush.Bundle.LanguageServer.zip", "https://x/ls.zip"),
            ("DotRush.Bundle.LanguageServer.zip", "https://x/ls-duplicate.zip"),
        ],
    )
}

#[test]
fn bundle_names_have_no_platform_suffix() {
    assert_eq!(bundle_asset_name("LanguageServer"), "DotRush.Bundle.LanguageServer.zip");
    assert_eq!(bundle_asset_name("DebuggerMono"), "DotRush.Bundle.DebuggerMono.zip");
}

#[test]
fn find_asset_takes_the_first_match() {
    let r = dotrush_release();
    assert_eq!(find_asset(&r.assets, "DotRush.Bundle.LanguageServer.zip"), Some(1));
    assert_eq!(find_asset(&r.assets, "DotRush.Bundle.DebuggerMono.zip"), Some(0));
    assert_eq!(find_asset(&r.assets, "missing.zip"), None);
    assert_eq!(find_asset(&Vec::new(), "missing.zip"), None);
}

#[test]
fn language_server_first_start_downloads_and_reports() {
    let requests = run(
        language_server_dll(),
        vec![
            InstallEvent::FileChecked(false),
            InstallEvent::StatusShown,
            InstallEvent::ReleaseFetched(Ok(dotrush_release())),
            InstallEvent::Downloaded(Ok(())),
            InstallEvent::FileChecked(true),
            InstallEvent::StatusShown,
            InstallEvent::PathResolved(Ok(s("/work/bin/LanguageServer/DotRush.dll"))),
        ],
    );
    assert_eq!(
        requests,
        vec![
            InstallAction::CheckFile(s("./bin/LanguageServer/DotRush.dll")),
            InstallAction::ShowStatus(InstallStatus::Downloading),
            InstallAction::FetchLatestRelease(s("JaneySprings/DotRush")),
            InstallAction::DownloadZip(s("https://x/ls.zip"), s("./bin/LanguageServer")),
            InstallAction::CheckFile(s("./bin/LanguageServer/DotRush.dll")),
            InstallAction::ShowStatus(InstallStatus::Ready),
            InstallAction::ResolvePath(s("./bin/LanguageServer/DotRush.dll")),
            InstallAction::Finish(Ok(s("/work/bin/LanguageServer/DotRush.dll"))),
        ]
    );
}

#[test]
fn language_server_already_installed_is_not_downloaded() {
    let requests = run(
        language_server_dll(),
        vec![
            InstallEvent::FileChecked(true),
            InstallEvent::StatusShown,
            InstallEvent::PathResolved(Ok(s("/w/DotRush.dll"))),
        ],
    );
    assert_eq!(
        requests,
        vec![
            InstallAction::CheckFile(s("./bin/LanguageServer/DotRush.dll")),
            InstallAction::ShowStatus(InstallStatus::Ready),
            InstallAction::ResolvePath(s("./bin/LanguageServer/DotRush.dll")),
            InstallAction::Finish(Ok(s("/w/DotRush.dll"))),
        ]
    );
}

#[test]
fn language_server_missing_after_extraction_is_reported() {
    let requests = run(
        language_server_dll(),
        vec![
            InstallEvent::FileChecked(false),
            InstallEvent::StatusShown,
            InstallEvent::ReleaseFetched(Ok(dotrush_release())),
            InstallEvent::Downloaded(Ok(())),
            InstallEvent::FileChecked(false),
            InstallEvent::StatusShown,
        ],
    );
    let message = s("DotRush.dll not found after extracting the language server bundle");
    assert_eq!(requests[5], InstallAction::ShowStatus(InstallStatus::Failed(message.clone())));
    assert_eq!(requests[6], InstallAction::Finish(Err(message)));
}

#[test]
fn language_server_release_failure_is_reported_as_is() {
    let requests = run(
        language_server_dll(),
        vec![
            InstallEvent::FileChecked(false),
            InstallEvent::StatusShown,
            InstallEvent::ReleaseFetched(Err(s("rate limited"))),
            InstallEvent::StatusShown,
        ],
    );
    assert_eq!(requests[3], InstallAction::ShowStatus(InstallStatus::Failed(s("rate limited"))));
    assert_eq!(requests[4], InstallAction::Finish(Err(s("rate limited"))));
}

#[test]
fn language_server_download_failure_names_the_asset() {
    let requests = run(
        language_server_dll(),
        vec![
            InstallEvent::FileChecked(false),
            InstallEvent::StatusShown,
            InstallEvent::ReleaseFetched(Ok(dotrush_release())),
            InstallEvent::Downloaded(Err(s("timeout"))),
        ],
    );
    assert_eq!(
        requests[4],
        InstallAction::ShowStatus(InstallStatus::Failed(s(
            "Failed to download 'DotRush.Bundle.LanguageServer.zip': timeout"
        )))
    );
}

#[test]
fn language_server_path_failure_is_not_shown() {
    let requests = run(
        language_server_dll(),
        vec![
            InstallEvent::FileChecked(true),
            InstallEvent::StatusShown,
            InstallEvent::PathResolved(Err(s("no cwd"))),
        ],
    );
    assert_eq!(requests[3], InstallAction::Finish(Err(s("Cannot resolve DotRush.dll path: no cwd"))));
}

#[test]
fn mono_release_without_bundle_fails_quietly() {
    let requests = run(
        mono::ensure_installed(),
        vec![
            InstallEvent::FileChecked(false),
            InstallEvent::ReleaseFetched(Ok(release("v9", &[("other.zip", "u")]))),
        ],
    );
    assert_eq!(
        requests,
        vec![
            InstallAction::CheckFile(s("./bin/DebuggerMono/monodbg.dll")),
            InstallAction::FetchLatestRelease(s("JaneySprings/DotRush")),
            InstallAction::Finish(Err(s(
                "Asset 'DotRush.Bundle.DebuggerMono.zip' not found in DotRush release v9"
            ))),
        ]
    );
}

#[test]
fn mono_missing_after_download() {
    let requests = run(
        mono::ensure_installed(),
        vec![
            InstallEvent::FileChecked(false),
            InstallEvent::ReleaseFetched(Ok(dotrush_release())),
            InstallEvent::Downloaded(Ok(())),
            InstallEvent::FileChecked(false),
        ],
    );
    assert_eq!(requests[2], InstallAction::DownloadZip(s("https://x/mono.zip"), s("./bin/DebuggerMono")));
    assert_eq!(requests[4], InstallAction::Finish(Err(s("Cannot find monodbg.dll after download"))));
}

#[test]
fn clrdbg_is_marked_executable_after_download() {
    let requests = run(
        ncdbg::ensure_installed(Os::Linux, Architecture::X8664),
        vec![
            InstallEvent::FileChecked(false),
            InstallEvent::ReleaseFetched(Ok(release(
                "2.0",
                &[("clrdbg_osx-arm64.zip", "u1"), ("clrdbg_linux-x64.zip", "u2")],
            ))),
            InstallEvent::Downloaded(Ok(())),
            InstallEvent::FileChecked(true),
            InstallEvent::MadeExecutable(Ok(())),
            InstallEvent::PathResolved(Ok(s("/w/bin/Debugger/clrdbg"))),
        ],
    );
    assert_eq!(
        requests,
        vec![
            InstallAction::CheckFile(s("./bin/Debugger/clrdbg")),
            InstallAction::FetchLatestRelease(s("JaneySprings/clrdbg")),
            InstallAction::DownloadZip(s("u2"), s("./bin/Debugger")),
            InstallAction::CheckFile(s("./bin/Debugger/clrdbg")),
            InstallAction::MakeExecutable(s("./bin/Debugger/clrdbg")),
            InstallAction::ResolvePath(s("./bin/Debugger/clrdbg")),
            InstallAction::Finish(Ok(s("/w/bin/Debugger/clrdbg"))),
        ]
    );
}

#[test]
fn clrdbg_already_installed_is_not_marked_again() {
    let requests = run(
        ncdbg::ensure_installed(Os::Windows, Architecture::X8664),
        vec![InstallEvent::FileChecked(true), InstallEvent::PathResolved(Err(s("gone")))],
    );
    assert_eq!(
        requests,
        vec![
            InstallAction::CheckFile(s("./bin/Debugger/clrdbg.exe")),
            InstallAction::ResolvePath(s("./bin/Debugger/clrdbg.exe")),
            InstallAction::Finish(Err(s("Cannot resolve clrdbg.exe path: gone"))),
        ]
    );
}

#[test]
fn clrdbg_on_32_bit_x86_fails_before_any_download() {
    let requests = run(ncdbg::ensure_installed(Os::Windows, Architecture::X86), vec![InstallEvent::FileChecked(false)]);
    assert_eq!(requests[1], InstallAction::Finish(Err(s("clrdbg is not available for 32-bit x86"))));
}

#[test]
fn clrdbg_chmod_failure_is_returned() {
    let requests = run(
        ncdbg::ensure_installed(Os::Mac, Architecture::Aarch64),
        vec![
            InstallEvent::FileChecked(false),
            InstallEvent::ReleaseFetched(Ok(release("1", &[("clrdbg_osx-arm64.zip", "u")]))),
            InstallEvent::Downloaded(Ok(())),
            InstallEvent::FileChecked(true),
            InstallEvent::MadeExecutable(Err(s("permission denied"))),
        ],
    );
    assert_eq!(requests[5], InstallAction::Finish(Err(s("permission denied"))));
}

#[test]
fn unexpected_answers_change_nothing() {
    let requests = run(
        mono::ensure_installed(),
        vec![InstallEvent::StatusShown, InstallEvent::Downloaded(Ok(())), InstallEvent::PathResolved(Ok(s("x")))],
    );
    for request in requests {
        assert_eq!(request, InstallAction::CheckFile(s("./bin/DebuggerMono/monodbg.dll")));
    }
}

#[test]
fn finished_installer_stays_finished() {
    let mut installer = mono::ensure_installed();
    installer.advance(InstallEvent::FileChecked(true));
    installer.advance(InstallEvent::PathResolved(Ok(s("/p"))));
    installer.advance(InstallEvent::FileChecked(false));
    installer.advance(InstallEvent::StatusShown);
    assert_eq!(installer.request(), InstallAction::Finish(Ok(s("/p"))));
}

#[test]
fn every_run_ends_within_nine_answers() {
    // Answer every request with the "worst" plausible answer and count.
    let mut installer = language_server_dll();
    let mut answered = 0;
    loop {
        let answer = match installer.request() {
            InstallAction::Finish(_) => break,
            InstallAction::CheckFile(_) => InstallEvent::FileChecked(answered > 0),
            InstallAction::ShowStatus(_) => InstallEvent::StatusShown,
            InstallAction::FetchLatestRelease(_) => InstallEvent::ReleaseFetched(Ok(dotrush_release())),
            InstallAction::DownloadZip(_, _) => InstallEvent::Downloaded(Ok(())),
            InstallAction::MakeExecutable(_) => InstallEvent::MadeExecutable(Ok(())),
            InstallAction::ResolvePath(p) => InstallEvent::PathResolved(Ok(p)),
        };
        installer.advance(answer);
        answered += 1;
        assert!(answered <= 9);
    }
    assert_eq!(answered, 7);
}
