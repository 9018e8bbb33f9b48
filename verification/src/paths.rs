//! Host path formatting for native Windows tools.
use vstd::prelude::*;
use vstd::string::*;

verus! {

/// The separator a native Windows tool expects in place of `c`.
pub open spec fn windows_separator(c: char) -> char {
    if c == '/' || c == '\\' {
        '\\'
    } else {
        c
    }
}

/// `path` with every forward or backward slash written as a backslash.
pub open spec fn spec_windows_host_path(path: Seq<char>) -> Seq<char> {
    path.map_values(|c: char| windows_separator(c))
}

/// `s` without its trailing run of backslashes.
pub open spec fn trim_trailing_backslashes(s: Seq<char>) -> Seq<char>
    decreases s.len(),
{
    if s.len() > 0 && s.last() == '\\' {
        trim_trailing_backslashes(s.drop_last())
    } else {
        s
    }
}

/// `name` placed inside the directory `dir`, both as native Windows paths.
pub open spec fn spec_windows_join(dir: Seq<char>, name: Seq<char>) -> Seq<char> {
    trim_trailing_backslashes(spec_windows_host_path(dir)) + seq!['\\'] + name
}

/// Formats a host path for native Windows tools: every `/` and `\` becomes `\`.
pub fn windows_host_path(path: &str) -> (res: String)
    ensures
        res@ == spec_windows_host_path(path@),
{
    let n = path.unicode_len();
    let mut res = String::new();
    let mut i: usize = 0;
    while i < n
        invariant
            n == path@.len(),
            i <= n,
            res@ == spec_windows_host_path(path@.take(i as int)),
        decreases n - i,
    {
        let c = path.get_char(i);
        if c == '/' || c == '\\' {
            res.append("\\");
        } else {
            let one = path.substring_char(i, i + 1);
            res.append(one);
        }
        proof {
            reveal_strlit("\\");
            assert(path@.take(i + 1) =~= path@.take(i as int).push(c));
        }
        i = i + 1;
    }
    proof {
        assert(path@.take(n as int) =~= path@);
    }
    res
}

/// Dropping the trailing backslashes of `s` keeps its first `k` characters,
/// where `k` is where that trailing run begins.
proof fn lemma_trim_is_prefix(s: Seq<char>, k: int)
    requires
        0 <= k <= s.len(),
        forall|j: int| k <= j < s.len() ==> s[j] == '\\',
        k == 0 || s[k - 1] != '\\',
    ensures
        trim_trailing_backslashes(s) == s.take(k),
    decreases s.len(),
{
    if s.len() > 0 && s.last() == '\\' {
        lemma_trim_is_prefix(s.drop_last(), k);
        assert(s.drop_last().take(k) =~= s.take(k));
    } else {
        assert(s.take(k) =~= s);
    }
}

/// Joins a directory and a file name into one native Windows path: the
/// directory is normalised as by `windows_host_path`, its trailing backslashes
/// are dropped, and exactly one backslash separates it from `name`.
pub fn windows_join(dir: &str, name: &str) -> (res: String)
    ensures
        res@ == spec_windows_join(dir@, name@),
{
    let host = windows_host_path(dir);
    let n = host.as_str().unicode_len();
    let mut k: usize = n;
    while k > 0 && host.as_str().get_char(k - 1) == '\\'
        invariant
            n == host@.len(),
            k <= n,
            forall|j: int| k <= j < n ==> host@[j] == '\\',
        decreases k,
    {
        k = k - 1;
    }
    proof {
        lemma_trim_is_prefix(host@, k as int);
        reveal_strlit("\\");
    }
    let trimmed = host.as_str().substring_char(0, k);
    let mut res = String::from_str(trimmed);
    res.append("\\");
    res.append(name);
    res
}

/// `name` placed inside the directory `dir`, as the plugin's own (WASI)
/// path joining does it: an absolute `name` replaces `dir`; otherwise one `/`
/// is put between them unless `dir` is empty or already ends with `/`.
pub open spec fn spec_guest_join(dir: Seq<char>, name: Seq<char>) -> Seq<char> {
    if name.len() > 0 && name[0] == '/' {
        name
    } else if dir.len() == 0 || dir.last() == '/' {
        dir + name
    } else {
        dir + seq!['/'] + name
    }
}

/// Joins a directory and a file name with `/` separators, as the plugin's
/// own path joining does when it runs under WASI, whatever the host.
pub fn guest_path_join(dir: &str, name: &str) -> (res: String)
    ensures
        res@ == spec_guest_join(dir@, name@),
{
    proof {
        reveal_strlit("/");
    }
    let n = dir.unicode_len();
    let m = name.unicode_len();
    if m > 0 && name.get_char(0) == '/' {
        return String::from_str(name);
    }
    let mut res = String::from_str(dir);
    if n > 0 && dir.get_char(n - 1) != '/' {
        res.append("/");
    }
    res.append(name);
    res
}

/// A host path for native Windows tools has no forward slash, as many
/// characters as the original path, and every character that is not a
/// separator unchanged.
pub proof fn law_host_path_uses_backslashes(path: Seq<char>)
    ensures
        spec_windows_host_path(path).len() == path.len(),
        !spec_windows_host_path(path).contains('/'),
        forall|i: int|
            0 <= i < path.len() && path[i] != '/' && path[i] != '\\' ==> #[trigger] spec_windows_host_path(
                path,
            )[i] == path[i],
{
}

/// Formatting a path for native Windows tools twice is formatting it once.
pub proof fn law_host_path_idempotent(path: Seq<char>)
    ensures
        spec_windows_host_path(spec_windows_host_path(path)) == spec_windows_host_path(path),
{
    assert(spec_windows_host_path(spec_windows_host_path(path)) =~= spec_windows_host_path(path));
}

/// A trailing separator of either kind on the directory does not change a
/// Windows join.
pub proof fn law_join_ignores_trailing_separator(dir: Seq<char>, name: Seq<char>)
    ensures
        spec_windows_join(dir.push('\\'), name) == spec_windows_join(dir, name),
        spec_windows_join(dir.push('/'), name) == spec_windows_join(dir, name),
{
    assert(spec_windows_host_path(dir.push('\\')) =~= spec_windows_host_path(dir).push('\\'));
    assert(spec_windows_host_path(dir.push('/')) =~= spec_windows_host_path(dir).push('\\'));
    assert(spec_windows_host_path(dir).push('\\').drop_last() =~= spec_windows_host_path(dir));
}

/// What precedes the name in a Windows join ends in exactly one backslash
/// and holds no forward slash.
pub proof fn law_join_single_separator(dir: Seq<char>, name: Seq<char>)
    ensures
        ({
            let head = trim_trailing_backslashes(spec_windows_host_path(dir));
            &&& spec_windows_join(dir, name) == head + seq!['\\'] + name
            &&& (head.len() == 0 || head.last() != '\\')
            &&& !head.contains('/')
        }),
{
    lemma_trim_properties(spec_windows_host_path(dir));
    law_host_path_uses_backslashes(dir);
    let host = spec_windows_host_path(dir);
    let head = trim_trailing_backslashes(host);
    assert forall|i: int| 0 <= i < head.len() implies head[i] != '/' by {
        assert(head[i] == host[i]);
        assert(!host.contains('/'));
        if host[i] == '/' {
            assert(host.contains('/'));
        }
    }
}

/// Dropping trailing backslashes leaves a prefix that does not end in one.
proof fn lemma_trim_properties(s: Seq<char>)
    ensures
        s.take(trim_trailing_backslashes(s).len() as int) == trim_trailing_backslashes(s),
        trim_trailing_backslashes(s).len() <= s.len(),
        trim_trailing_backslashes(s).len() == 0 || trim_trailing_backslashes(s).last() != '\\',
    decreases s.len(),
{
    if s.len() > 0 && s.last() == '\\' {
        lemma_trim_properties(s.drop_last());
        let t = trim_trailing_backslashes(s.drop_last());
        assert(s.drop_last().take(t.len() as int) =~= s.take(t.len() as int));
    } else {
        assert(s.take(s.len() as int) =~= s);
    }
}

} // verus!
