//! Path arithmetic on plain strings, following the conventions of each
//! supported operating system.
use crate::platform::Os;
use vstd::prelude::*;

verus! {

/// The separator written between two path components.
pub open spec fn separator(os: Os) -> char {
    if os == Os::Windows {
        '\\'
    } else {
        '/'
    }
}

/// Windows accepts both slashes between components; the other systems only `/`.
pub open spec fn is_separator(os: Os, c: char) -> bool {
    c == '/' || (os == Os::Windows && c == '\\')
}

/// An absolute path: rooted at `/` on POSIX; drive-qualified (`C:\`) or UNC
/// (`\\server`) on Windows.
pub open spec fn is_absolute(os: Os, p: Seq<char>) -> bool {
    if os == Os::Windows {
        ||| p.len() >= 3 && p[1] == ':' && is_separator(os, p[2])
        ||| p.len() >= 2 && is_separator(os, p[0]) && is_separator(os, p[1])
    } else {
        p.len() > 0 && p[0] == '/'
    }
}

/// `rel` resolved against `dir`: an absolute `rel` stands for itself, and
/// exactly one separator is placed between the two parts.
pub open spec fn joined(os: Os, dir: Seq<char>, rel: Seq<char>) -> Seq<char> {
    if is_absolute(os, rel) || dir.len() == 0 {
        rel
    } else if is_separator(os, dir.last()) {
        dir + rel
    } else {
        dir + seq![separator(os)] + rel
    }
}

/// Index of the last `.` in `s`, or -1 when there is none.
pub open spec fn last_dot(s: Seq<char>) -> int
    decreases s.len(),
{
    if s.len() == 0 {
        -1
    } else if s.last() == '.' {
        s.len() - 1
    } else {
        last_dot(s.drop_last())
    }
}

/// A file name without its extension. A leading dot starts a hidden file's
/// name, not an extension.
pub open spec fn file_stem(name: Seq<char>) -> Seq<char> {
    if last_dot(name) > 0 {
        name.subrange(0, last_dot(name))
    } else {
        name
    }
}

proof fn lemma_last_dot_prefix(s: Seq<char>, i: int)
    requires
        0 <= i <= s.len(),
        forall|j: int| i <= j < s.len() ==> s[j] != '.',
    ensures
        last_dot(s) == last_dot(s.subrange(0, i)),
    decreases s.len() - i,
{
    if i == s.len() {
        assert(s.subrange(0, i) =~= s);
    } else {
        assert(s.drop_last().subrange(0, i) =~= s.subrange(0, i));
        lemma_last_dot_prefix(s.drop_last(), i);
    }
}

pub fn separator_str(os: Os) -> (r: &'static str)
    ensures
        r@ == seq![separator(os)],
{
    proof {
        reveal_strlit("\\");
        reveal_strlit("/");
    }
    match os {
        Os::Windows => "\\",
        _ => "/",
    }
}

fn is_separator_char(os: Os, c: char) -> (r: bool)
    ensures
        r == is_separator(os, c),
{
    c == '/' || (os == Os::Windows && c == '\\')
}

pub fn is_absolute_path(os: Os, p: &str) -> (r: bool)
    ensures
        r == is_absolute(os, p@),
{
    let n = p.unicode_len();
    match os {
        Os::Windows => {
            if n >= 3 && p.get_char(1) == ':' && is_separator_char(os, p.get_char(2)) {
                true
            } else {
                n >= 2 && is_separator_char(os, p.get_char(0)) && is_separator_char(
                    os,
                    p.get_char(1),
                )
            }
        },
        _ => n > 0 && p.get_char(0) == '/',
    }
}

/// Resolves `rel` against the directory `dir`.
pub fn join_path(os: Os, dir: &str, rel: &str) -> (r: String)
    ensures
        r@ == joined(os, dir@, rel@),
{
    let n = dir.unicode_len();
    if is_absolute_path(os, rel) || n == 0 {
        return String::from_str(rel);
    }
    let mut r = String::from_str(dir);
    if !is_separator_char(os, dir.get_char(n - 1)) {
        r.append(separator_str(os));
    }
    r.append(rel);
    r
}

/// The file name with its extension, if any, replaced by `.json`.
pub fn json_file_name(name: &str) -> (r: String)
    ensures
        r@ == file_stem(name@) + ".json"@,
{
    let n = name.unicode_len();
    let mut i: usize = n;
    while i > 0
        invariant
            i <= n,
            n == name@.len(),
            forall|j: int| i <= j < n ==> name@[j] != '.',
        ensures
            i == 0 || name@[i - 1] == '.',
        decreases i,
    {
        if name.get_char(i - 1) == '.' {
            break;
        }
        i = i - 1;
    }
    proof {
        if i == 0 {
            lemma_last_dot_prefix(name@, 0);
        } else {
            lemma_last_dot_prefix(name@, i as int);
        }
    }
    let mut r = if i > 1 {
        String::from_str(name.substring_char(0, i - 1))
    } else {
        String::from_str(name)
    };
    r.append(".json");
    r
}

} // verus!
