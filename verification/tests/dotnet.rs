use dotrush::dotnet::find;
use dotrush::platform::Os;

const MISSING: &str = "Cannot find 'dotnet'. Install the .NET SDK 10 or higher and make sure 'dotnet' is available on PATH (or set DOTNET_ROOT).";

fn env(items: &[(&str, &str)]) -> Vec<(String, String)> {
    items.iter().map(|(k, v)| (k.to_string(), v.to_string())).collect()
}

#[test]
fn path_search_wins_over_dotnet_root() {
    let shell = env(&[("DOTNET_ROOT", "/opt/dotnet")]);
    assert_eq!(
        find(Some("/usr/bin/dotnet".to_string()), &shell, Os::Linux),
        Ok("/usr/bin/dotnet".to_string())
    );
}

#[test]
fn dotnet_root_gives_host_inside_it() {
    let shell = env(&[("DOTNET_ROOT", "/opt/dotnet/")]);
    assert_eq!(find(None, &shell, Os::Linux), Ok("/opt/dotnet/dotnet".to_string()));
    assert_eq!(find(None, &shell, Os::Mac), Ok("/opt/dotnet/dotnet".to_string()));
}

#[test]
fn dotnet_root_on_windows_names_the_exe() {
    let shell = env(&[("DOTNET_ROOT", "C:\\Program Files\\dotnet\\")]);
    assert_eq!(
        find(None, &shell, Os::Windows),
        Ok("C:\\Program Files\\dotnet/dotnet.exe".to_string())
    );
}

#[test]
fn last_dotnet_root_counts() {
    let shell = env(&[("DOTNET_ROOT", "/first"), ("DOTNET_ROOT", "/second")]);
    assert_eq!(find(None, &shell, Os::Linux), Ok("/second/dotnet".to_string()));
}

#[test]
fn empty_dotnet_root_is_unset() {
    let shell = env(&[("DOTNET_ROOT", "")]);
    assert_eq!(find(None, &shell, Os::Linux), Err(MISSING.to_string()));
}

#[test]
fn no_host_anywhere_is_an_error() {
    let shell = env(&[("PATH", "/usr/bin")]);
    assert_eq!(find(None, &shell, Os::Windows), Err(MISSING.to_string()));
}

#[test]
fn relative_dotnet_root_is_not_taken() {
    let shell = env(&[("DOTNET_ROOT", "dotnet-root")]);
    assert_eq!(find(None, &shell, Os::Linux), Err(MISSING.to_string()));
}

#[test]
fn relative_path_search_result_falls_back_to_dotnet_root() {
    let shell = env(&[("DOTNET_ROOT", "/opt/dotnet")]);
    assert_eq!(find(Some("dotnet".to_string()), &shell, Os::Linux), Ok("/opt/dotnet/dotnet".to_string()));
    assert_eq!(find(Some("bin/dotnet".to_string()), &env(&[]), Os::Mac), Err(MISSING.to_string()));
}

#[test]
fn windows_roots_that_count_as_absolute() {
    assert_eq!(find(None, &env(&[("DOTNET_ROOT", "C:\\")]), Os::Windows), Ok("C:/dotnet.exe".to_string()));
    assert_eq!(find(None, &env(&[("DOTNET_ROOT", "d:/sdk")]), Os::Windows), Ok("d:/sdk/dotnet.exe".to_string()));
    assert_eq!(
        find(None, &env(&[("DOTNET_ROOT", "\\\\server\\dotnet")]), Os::Windows),
        Ok("\\\\server\\dotnet/dotnet.exe".to_string())
    );
    assert_eq!(find(None, &env(&[("DOTNET_ROOT", "C:dotnet")]), Os::Windows), Err(MISSING.to_string()));
}

#[test]
fn windows_drive_root_is_relative_on_linux() {
    assert_eq!(find(None, &env(&[("DOTNET_ROOT", "C:\\dotnet")]), Os::Linux), Err(MISSING.to_string()));
}

#[test]
fn root_slash_gives_host_at_root() {
    assert_eq!(find(None, &env(&[("DOTNET_ROOT", "/")]), Os::Linux), Ok("/dotnet".to_string()));
}
