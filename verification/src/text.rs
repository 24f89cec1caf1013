//! Small text operations on paths and messages.

use vstd::prelude::*;

verus! {

/// A character that closes a directory name in a path: `/` or `\`.
pub open spec fn is_path_separator(c: char) -> bool {
    c == '/' || c == '\\'
}

/// `s` with every path separator at its end removed.
pub open spec fn trim_trailing_separators(s: Seq<char>) -> Seq<char>
    decreases s.len(),
{
    if s.len() > 0 && is_path_separator(s.last()) {
        trim_trailing_separators(s.drop_last())
    } else {
        s
    }
}

/// Trimming is idempotent, leaves no separator at the end, and keeps a
/// prefix of the text.
pub proof fn law_trim_trailing_separators(s: Seq<char>)
    ensures
        trim_trailing_separators(trim_trailing_separators(s)) == trim_trailing_separators(s),
        trim_trailing_separators(s).len() > 0 ==> !is_path_separator(trim_trailing_separators(s).last()),
        trim_trailing_separators(s).len() <= s.len(),
        trim_trailing_separators(s) == s.subrange(0, trim_trailing_separators(s).len() as int),
    decreases s.len(),
{
    if s.len() > 0 && is_path_separator(s.last()) {
        law_trim_trailing_separators(s.drop_last());
        assert(s.drop_last().subrange(0, trim_trailing_separators(s).len() as int)
            =~= s.subrange(0, trim_trailing_separators(s).len() as int));
    } else {
        assert(s.subrange(0, s.len() as int) =~= s);
    }
}

/// `dir`, a slash and `name`.
pub open spec fn joined(dir: Seq<char>, name: Seq<char>) -> Seq<char> {
    dir + "/"@ + name
}

fn separator_at(s: &str, i: usize) -> (b: bool)
    requires
        i < s@.len(),
    ensures
        b == is_path_separator(s@[i as int]),
{
    let c = s.get_char(i);
    c == '/' || c == '\\'
}

/// Removes the `/` and `\` characters at the end of `s`.
pub fn trim_end_separators(s: &str) -> (r: String)
    ensures
        r@ == trim_trailing_separators(s@),
{
    let n = s.unicode_len();
    let mut end = n;
    assert(s@.subrange(0, n as int) =~= s@);
    while end > 0 && separator_at(s, end - 1)
        invariant
            end <= n,
            n == s@.len(),
            trim_trailing_separators(s@) == trim_trailing_separators(s@.subrange(0, end as int)),
        decreases end,
    {
        assert(s@.subrange(0, end as int).drop_last() =~= s@.subrange(0, end - 1));
        end = end - 1;
    }
    String::from_str(s.substring_char(0, end))
}

/// Whether two texts hold the same characters.
pub fn same_text(a: &str, b: &str) -> (r: bool)
    ensures
        r == (a@ == b@),
{
    let x = String::from_str(a);
    let y = String::from_str(b);
    x == y
}

/// The path of `name` inside the directory `dir`.
pub fn join(dir: &str, name: &str) -> (r: String)
    ensures
        r@ == joined(dir@, name@),
{
    String::from_str(dir).concat("/").concat(name)
}

} // verus!

verus! {

/// A text result by its characters.
pub open spec fn text_result(r: Result<String, String>) -> Result<Seq<char>, Seq<char>> {
    match r {
        Ok(s) => Ok(s@),
        Err(e) => Err(e@),
    }
}

/// An optional text by its characters.
pub open spec fn text_option(o: Option<String>) -> Option<Seq<char>> {
    match o {
        Some(s) => Some(s@),
        None => None,
    }
}

} // verus!
