use dotrush::env::{collect_env, lookup};
use dotrush::text::{join, same_text, trim_end_separators};

fn pairs(items: &[(&str, &str)]) -> Vec<(String, String)> {
    items.iter().map(|(k, v)| (k.to_string(), v.to_string())).collect()
}

#[test]
fn trim_removes_both_kinds_of_separator() {
    assert_eq!(trim_end_separators("/usr/share/dotnet/\\/"), "/usr/share/dotnet");
    assert_eq!(trim_end_separators("C:\\Program Files\\dotnet\\"), "C:\\Program Files\\dotnet");
}

#[test]
fn trim_keeps_text_without_trailing_separator() {
    assert_eq!(trim_end_separators("/opt/dotnet"), "/opt/dotnet");
    assert_eq!(trim_end_separators("a/b"), "a/b");
    assert_eq!(trim_end_separators(""), "");
}

#[test]
fn trim_of_only_separators_is_empty() {
    assert_eq!(trim_end_separators("//\\\\"), "");
}

#[test]
fn trim_is_idempotent() {
    let once = trim_end_separators("/x/y//");
    assert_eq!(trim_end_separators(&once), once);
}

#[test]
fn trim_handles_non_ascii() {
    assert_eq!(trim_end_separators("/home/jörg/ドット/"), "/home/jörg/ドット");
}

#[test]
fn join_puts_one_slash_between() {
    assert_eq!(join("./bin", "Debugger"), "./bin/Debugger");
}

#[test]
fn same_text_compares_characters() {
    assert!(same_text("launch", "launch"));
    assert!(!same_text("launch", "Launch"));
    assert!(!same_text("launch", "launch "));
}

#[test]
fn lookup_finds_last_assignment() {
    let env = pairs(&[("DOTNET_ROOT", "/a"), ("PATH", "/bin"), ("DOTNET_ROOT", "/b")]);
    assert_eq!(lookup(&env, "DOTNET_ROOT"), Some("/b".to_string()));
    assert_eq!(lookup(&env, "PATH"), Some("/bin".to_string()));
}

#[test]
fn lookup_of_unassigned_name_is_none() {
    let env = pairs(&[("PATH", "/bin")]);
    assert_eq!(lookup(&env, "DOTNET_ROOT"), None);
    assert_eq!(lookup(&Vec::new(), "PATH"), None);
}

#[test]
fn collect_env_keeps_each_name_once_with_last_value() {
    let env = pairs(&[("A", "1"), ("B", "2"), ("A", "3"), ("C", "4"), ("B", "5")]);
    assert_eq!(collect_env(&env), pairs(&[("A", "3"), ("B", "5"), ("C", "4")]));
}

#[test]
fn collect_env_agrees_with_lookup() {
    let env = pairs(&[("X", "1"), ("Y", "2"), ("X", "")]);
    let collected = collect_env(&env);
    for name in ["X", "Y", "Z"] {
        assert_eq!(lookup(&collected, name), lookup(&env, name));
    }
}

#[test]
fn collect_env_of_nothing_is_empty() {
    assert!(collect_env(&Vec::new()).is_empty());
}
