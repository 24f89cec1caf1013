//! Locating the `dotnet` host.
//!
//! The editor resolves a relative command against the extension's working
//! directory, so a bare `dotnet` would never be found: the host found on the
//! user's `PATH` is preferred, then the host inside `DOTNET_ROOT` from the
//! login shell; a relative path from either is not taken.

use vstd::prelude::*;
use crate::env::{env_map, env_view, lookup};
use crate::platform::Os;
use crate::text::{
    is_path_separator, joined, law_trim_trailing_separators, text_option, text_result, trim_end_separators,
    trim_trailing_separators,
};

verus! {

/// The file name of the `dotnet` host on `os`.
pub open spec fn host_file_name(os: Os) -> Seq<char> {
    if os == Os::Windows {
        "dotnet.exe"@
    } else {
        "dotnet"@
    }
}

/// The error given when no `dotnet` host can be located.
pub open spec fn host_missing_message() -> Seq<char> {
    "Cannot find 'dotnet'. Install the .NET SDK 10 or higher and make sure 'dotnet' is available on PATH (or set DOTNET_ROOT)."@
}

/// A letter that names a Windows drive.
pub open spec fn is_drive_letter(c: char) -> bool {
    ('a' <= c && c <= 'z') || ('A' <= c && c <= 'Z')
}

/// Whether `p` is an absolute path on `os`: rooted at `/` on macOS and
/// Linux; on Windows rooted at a separator, or a drive letter, a colon and a
/// separator.
pub open spec fn is_absolute_path(p: Seq<char>, os: Os) -> bool {
    if os == Os::Windows {
        (p.len() >= 1 && is_path_separator(p[0])) || (p.len() >= 3 && is_drive_letter(p[0])
            && p[1] == ':' && is_path_separator(p[2]))
    } else {
        p.len() >= 1 && p[0] == '/'
    }
}

/// Where the `dotnet` host is, given what a `PATH` search found and the login
/// shell's environment: the search result when it is an absolute path, else
/// the host inside `DOTNET_ROOT` when that is an absolute path, else nowhere.
pub open spec fn host_location(
    on_path: Option<Seq<char>>,
    shell_env: Map<Seq<char>, Seq<char>>,
    os: Os,
) -> Result<Seq<char>, Seq<char>> {
    if on_path is Some && is_absolute_path(on_path->0, os) {
        Ok(on_path->0)
    } else if shell_env.dom().contains("DOTNET_ROOT"@) && is_absolute_path(shell_env["DOTNET_ROOT"@], os) {
        Ok(joined(trim_trailing_separators(shell_env["DOTNET_ROOT"@]), host_file_name(os)))
    } else {
        Err(host_missing_message())
    }
}

/// An absolute host found on `PATH` is preferred to `DOTNET_ROOT`; an empty
/// or relative `DOTNET_ROOT` counts as unset.
pub proof fn law_path_search_wins(
    on_path: Option<Seq<char>>,
    shell_env: Map<Seq<char>, Seq<char>>,
    os: Os,
)
    ensures
        on_path matches Some(p) ==> (is_absolute_path(p, os) ==> host_location(on_path, shell_env, os)
            == Ok::<Seq<char>, Seq<char>>(p)),
        shell_env.dom().contains("DOTNET_ROOT"@) && !is_absolute_path(shell_env["DOTNET_ROOT"@], os)
            ==> host_location(on_path, shell_env, os) == host_location(on_path, shell_env.remove("DOTNET_ROOT"@), os),
{
}

/// The host is always located as an absolute path.
pub proof fn law_host_is_absolute(
    on_path: Option<Seq<char>>,
    shell_env: Map<Seq<char>, Seq<char>>,
    os: Os,
)
    ensures
        host_location(on_path, shell_env, os) matches Ok(p) ==> is_absolute_path(p, os),
{
    if !(on_path is Some && is_absolute_path(on_path->0, os)) && shell_env.dom().contains("DOTNET_ROOT"@)
        && is_absolute_path(shell_env["DOTNET_ROOT"@], os) {
        let root = shell_env["DOTNET_ROOT"@];
        let dir = trim_trailing_separators(root);
        law_trim_trailing_separators(root);
        let p = joined(dir, host_file_name(os));
        assert(p == dir + "/"@ + host_file_name(os));
        reveal_strlit("/");
        assert("/"@ =~= seq!['/']);
        assert(p[dir.len() as int] == '/');
        if dir.len() > 0 {
            assert(p[0] == dir[0] && dir[0] == root[0]);
        }
        if dir.len() >= 2 {
            assert(p[1] == dir[1] && dir[1] == root[1]);
        }
        if dir.len() >= 3 {
            assert(p[2] == dir[2] && dir[2] == root[2]);
        }
        if os == Os::Windows && !(root.len() >= 1 && is_path_separator(root[0])) {
            // A drive root: the colon is no separator, so trimming keeps it.
            assert(dir.len() >= 2) by {
                if dir.len() < 2 {
                    assert(trim_trailing_separators(root.subrange(0, 2)) == trim_trailing_separators(root))
                        by {
                        lemma_trim_keeps_non_separator(root, 1);
                    }
                }
            }
        }
    }
}

proof fn lemma_trim_keeps_non_separator(s: Seq<char>, i: int)
    requires
        0 <= i < s.len(),
        !is_path_separator(s[i]),
    ensures
        trim_trailing_separators(s).len() > i,
    decreases s.len(),
{
    if s.len() > 0 && is_path_separator(s.last()) {
        assert(s.drop_last()[i] == s[i]);
        lemma_trim_keeps_non_separator(s.drop_last(), i);
    }
}

fn is_drive(c: char) -> (b: bool)
    ensures
        b == is_drive_letter(c),
{
    ('a' <= c && c <= 'z') || ('A' <= c && c <= 'Z')
}

/// Whether `p` is an absolute path on `os`.
pub fn is_absolute(p: &str, os: Os) -> (b: bool)
    ensures
        b == is_absolute_path(p@, os),
{
    let n = p.unicode_len();
    match os {
        Os::Windows => {
            if n >= 1 {
                let c = p.get_char(0);
                if c == '/' || c == '\\' {
                    return true;
                }
            }
            if n >= 3 {
                let c2 = p.get_char(2);
                is_drive(p.get_char(0)) && p.get_char(1) == ':' && (c2 == '/' || c2 == '\\')
            } else {
                false
            }
        },
        _ => n >= 1 && p.get_char(0) == '/',
    }
}

/// Locates the `dotnet` host as an absolute path: the path that a search of
/// `PATH` found (`on_path`) when it is absolute, else the executable in an
/// absolute `DOTNET_ROOT` of the login shell's environment (`shell_env`,
/// where a later assignment wins), else an error that tells the user how to
/// install it.
pub fn find(on_path: Option<String>, shell_env: &Vec<(String, String)>, os: Os) -> (r: Result<String, String>)
    ensures
        text_result(r) == host_location(text_option(on_path), env_map(env_view(shell_env@)), os),
        r matches Ok(p) ==> is_absolute_path(p@, os),
{
    proof {
        law_host_is_absolute(text_option(on_path), env_map(env_view(shell_env@)), os);
    }
    if let Some(path) = on_path {
        if is_absolute(path.as_str(), os) {
            return Ok(path);
        }
    }
    let root = lookup(shell_env, "DOTNET_ROOT");
    match root {
        Some(root) => {
            if is_absolute(root.as_str(), os) {
                let executable = match os {
                    Os::Windows => "dotnet.exe",
                    _ => "dotnet",
                };
                let dir = trim_end_separators(root.as_str());
                return Ok(crate::text::join(dir.as_str(), executable));
            }
        },
        None => {},
    }
    Err(String::from_str(
        "Cannot find 'dotnet'. Install the .NET SDK 10 or higher and make sure 'dotnet' is available on PATH (or set DOTNET_ROOT).",
    ))
}

} // verus!
