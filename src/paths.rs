use vstd::prelude::*;

verus! {

/// A character that may not stand in a path given to the registry.
pub open spec fn is_forbidden(c: char) -> bool {
    c == '<' || c == '>' || c == ':' || c == '"' || c == '|' || c == '?' || c == '*'
}

/// Unicode white space, the characters that `str::trim` removes.
pub open spec fn is_space(c: char) -> bool {
    ||| c == '\t' || c == '\n' || c == '\u{0B}' || c == '\u{0C}' || c == '\r' || c == ' '
    ||| c == '\u{85}' || c == '\u{A0}' || c == '\u{1680}'
    ||| ('\u{2000}' <= c && c <= '\u{200A}')
    ||| c == '\u{2028}' || c == '\u{2029}' || c == '\u{202F}' || c == '\u{205F}'
    ||| c == '\u{3000}'
}

/// A path text is acceptable when it is not blank and holds no forbidden character.
pub open spec fn path_text_ok(s: Seq<char>) -> bool {
    &&& exists|i: int| 0 <= i < s.len() && !is_space(#[trigger] s[i])
    &&& forall|i: int| 0 <= i < s.len() ==> !is_forbidden(#[trigger] s[i])
}

pub fn is_space_char(c: char) -> (r: bool)
    ensures
        r == is_space(c),
{
    c == '\t' || c == '\n' || c == '\u{0B}' || c == '\u{0C}' || c == '\r' || c == ' '
        || c == '\u{85}' || c == '\u{A0}' || c == '\u{1680}'
        || ('\u{2000}' <= c && c <= '\u{200A}')
        || c == '\u{2028}' || c == '\u{2029}' || c == '\u{202F}' || c == '\u{205F}'
        || c == '\u{3000}'
}

fn is_forbidden_char(c: char) -> (r: bool)
    ensures
        r == is_forbidden(c),
{
    c == '<' || c == '>' || c == ':' || c == '"' || c == '|' || c == '?' || c == '*'
}

/// Whether `s` is a path text the registry accepts.
pub fn path_text_acceptable(s: &str) -> (r: bool)
    ensures
        r == path_text_ok(s@),
{
    let n = s.unicode_len();
    let mut i: usize = 0;
    let mut seen_non_space = false;
    while i < n
        invariant
            n == s@.len(),
            i <= n,
            seen_non_space <==> exists|j: int| 0 <= j < i && !is_space(#[trigger] s@[j]),
            forall|j: int| 0 <= j < i ==> !is_forbidden(#[trigger] s@[j]),
        decreases n - i,
    {
        let c = s.get_char(i);
        if is_forbidden_char(c) {
            return false;
        }
        if !is_space_char(c) {
            seen_non_space = true;
        }
        i = i + 1;
    }
    seen_non_space
}

/// How a path given for a new directory stands.
#[derive(Debug, PartialEq, Eq, Structural, Clone, Copy)]
pub enum PathStatus {
    Available,
    Invalid,
    Exist,
}

/// How a path text stands, given whether something is on disk there.
pub open spec fn path_status_of(s: Seq<char>, on_disk: bool) -> PathStatus {
    if !path_text_ok(s) {
        PathStatus::Invalid
    } else if on_disk {
        PathStatus::Exist
    } else {
        PathStatus::Available
    }
}

/// Classifies a path text; `on_disk` tells whether something is on disk there.
pub fn valid_path(received: &String, on_disk: bool) -> (r: PathStatus)
    ensures
        !path_text_ok(received@) ==> r == PathStatus::Invalid,
        path_text_ok(received@) && on_disk ==> r == PathStatus::Exist,
        path_text_ok(received@) && !on_disk ==> r == PathStatus::Available,
        r == path_status_of(received@, on_disk),
{
    if !path_text_acceptable(received.as_str()) {
        PathStatus::Invalid
    } else if on_disk {
        PathStatus::Exist
    } else {
        PathStatus::Available
    }
}

/// Whether a path text ends in a separator.
pub open spec fn ends_with_sep(s: Seq<char>) -> bool {
    s.len() > 0 && s.last() == '/'
}

/// `base` as a directory prefix: with exactly the separator it ends in, or one added.
pub open spec fn dir_prefix(base: Seq<char>) -> Seq<char> {
    if ends_with_sep(base) {
        base
    } else {
        base.push('/')
    }
}

/// The path of the entry `name` inside the directory `base`.
pub open spec fn child_of(base: Seq<char>, name: Seq<char>) -> Seq<char> {
    dir_prefix(base) + name
}

/// Whether `child` lies at or under `parent`. Both are taken as canonical
/// paths (absolute, with no `.` or `..` parts and no doubled separators), on
/// which a prefix up to a separator is a prefix of path components.
pub open spec fn is_subdir_of(parent: Seq<char>, child: Seq<char>) -> bool {
    child == parent || dir_prefix(parent).is_prefix_of(child)
}

/// Every entry of a directory lies under it.
pub proof fn lemma_child_is_subdir(base: Seq<char>, name: Seq<char>)
    ensures
        is_subdir_of(base, child_of(base, name)),
{
    assert(child_of(base, name).subrange(0, dir_prefix(base).len() as int) =~= dir_prefix(base));
}

fn ends_with_separator(s: &str) -> (r: bool)
    ensures
        r == ends_with_sep(s@),
{
    let n = s.unicode_len();
    n > 0 && s.get_char(n - 1) == '/'
}

fn as_dir_prefix(base: &String) -> (r: String)
    ensures
        r@ == dir_prefix(base@),
{
    let mut r = base.clone();
    if !ends_with_separator(base.as_str()) {
        r.append("/");
        proof {
            reveal_strlit("/");
        }
        assert(r@ =~= base@.push('/'));
    }
    r
}

/// The path of the entry `name` inside the directory `base`.
pub fn child_path(base: &String, name: &str) -> (r: String)
    ensures
        r@ == child_of(base@, name@),
{
    let mut r = as_dir_prefix(base);
    r.append(name);
    r
}

fn is_prefix(prefix: &str, s: &str) -> (r: bool)
    ensures
        r == prefix@.is_prefix_of(s@),
{
    let n = prefix.unicode_len();
    let m = s.unicode_len();
    if n > m {
        return false;
    }
    let mut i: usize = 0;
    while i < n
        invariant
            n == prefix@.len(),
            m == s@.len(),
            n <= m,
            i <= n,
            forall|j: int| 0 <= j < i ==> prefix@[j] == s@[j],
        decreases n - i,
    {
        if prefix.get_char(i) != s.get_char(i) {
            return false;
        }
        i = i + 1;
    }
    assert(s@.subrange(0, n as int) =~= prefix@);
    true
}

/// Filesystem helpers whose decisions need no disk: the caller looks at the
/// disk and hands over what it saw.
pub struct LocalStuff;

impl LocalStuff {
    /// Whether `child` lies at or under `parent`, both canonical paths.
    pub fn is_subdir(parent: &String, child: &String) -> (r: bool)
        ensures
            r == is_subdir_of(parent@, child@),
    {
        if *child == *parent {
            return true;
        }
        let p = as_dir_prefix(parent);
        is_prefix(p.as_str(), child.as_str())
    }

    /// Whether a path may be taken as a configured directory: an acceptable
    /// text naming nothing on disk yet, or an empty directory.
    pub fn usable_path(path: &String, on_disk: bool, has_entries: bool) -> (r: bool)
        ensures
            r == (path_text_ok(path@) && (!on_disk || !has_entries)),
    {
        path_text_acceptable(path.as_str()) && (!on_disk || !has_entries)
    }

    /// Whether a command line has exactly the expected number of words.
    pub fn cmd_len(cmd: &Vec<String>, expected: usize) -> (r: bool)
        ensures
            r == (cmd@.len() == expected),
    {
        cmd.len() == expected
    }
}

} // verus!
