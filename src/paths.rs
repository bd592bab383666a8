use vstd::prelude::*;
use vstd::string::*;

verus! {

/// The string view of an optional owned string.
pub open spec fn opt_view(o: Option<String>) -> Option<Seq<char>> {
    match o {
        Some(s) => Some(s@),
        None => None,
    }
}

/// The string view of an optional borrowed string.
pub open spec fn opt_str_view(o: Option<&str>) -> Option<Seq<char>> {
    match o {
        Some(s) => Some(s@),
        None => None,
    }
}

/// Joining `p` onto `dir` with `/` separators: an absolute `p` replaces
/// `dir`; otherwise a separator is inserted unless `dir` is empty or already
/// ends in one. This follows Unix path rules only: a Windows path with a
/// drive letter or backslash separators counts as relative and is appended.
pub open spec fn path_join(dir: Seq<char>, p: Seq<char>) -> Seq<char> {
    if p.len() > 0 && p[0] == '/' {
        p
    } else if dir.len() == 0 || dir.last() == '/' {
        dir + p
    } else {
        dir + seq!['/'] + p
    }
}

/// Appends the relative or absolute path `p` to the directory `dir`.
pub fn join_path(dir: &str, p: &str) -> (r: String)
    ensures
        r@ == path_join(dir@, p@),
{
    let plen = p.unicode_len();
    if plen > 0 && p.get_char(0) == '/' {
        return String::from_str(p);
    }
    let dlen = dir.unicode_len();
    let mut s = String::from_str(dir);
    if !(dlen == 0 || dir.get_char(dlen - 1) == '/') {
        proof {
            reveal_strlit("/");
        }
        s.append("/");
    }
    s.append(p);
    s
}

/// Clones an optional string, keeping its contents.
pub fn clone_opt(o: &Option<String>) -> (r: Option<String>)
    ensures
        r == *o,
{
    match o {
        Some(s) => Some(s.clone()),
        None => None,
    }
}

/// Whether two optional strings hold the same text.
pub fn opt_text_eq(a: &Option<String>, b: &Option<String>) -> (r: bool)
    ensures
        r == (opt_view(*a) == opt_view(*b)),
{
    match (a, b) {
        (Some(x), Some(y)) => *x == *y,
        (None, None) => true,
        _ => false,
    }
}

} // verus!
