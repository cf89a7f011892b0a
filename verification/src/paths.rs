//! Path shaping for the host filesystem: stripping the spurious leading `/`
//! a Windows host reports, and joining a workspace root with a relative path.

use vstd::prelude::*;

verus! {

/// The operating systems the host distinguishes when shaping paths.
#[derive(Clone, Copy, PartialEq, Eq, Structural, Debug)]
pub enum Os {
    Mac,
    Linux,
    Windows,
}

/// `s` with every leading `/` character removed.
pub open spec fn trim_leading_slashes(s: Seq<char>) -> Seq<char>
    decreases s.len(),
{
    if s.len() > 0 && s[0] == '/' {
        trim_leading_slashes(s.skip(1))
    } else {
        s
    }
}

/// What sanitizing a path means per operating system: on Windows the leading
/// `/` characters are dropped, elsewhere the path is unchanged.
pub open spec fn sanitized_path(os: Os, path: Seq<char>) -> Seq<char> {
    match os {
        Os::Windows => trim_leading_slashes(path),
        _ => path,
    }
}

proof fn lemma_trim_leading_slashes_skip(s: Seq<char>, i: int)
    requires
        0 <= i <= s.len(),
        forall|j: int| 0 <= j < i ==> s[j] == '/',
        i == s.len() || s[i] != '/',
    ensures
        trim_leading_slashes(s) == s.skip(i),
    decreases i,
{
    if i == 0 {
        assert(s.skip(0) =~= s);
    } else {
        assert(s[0] == '/');
        lemma_trim_leading_slashes_skip(s.skip(1), i - 1);
        assert(s.skip(1).skip(i - 1) =~= s.skip(i));
    }
}

/// Removes the leading `/` characters a Windows host prepends to otherwise
/// absolute paths; on macOS and Linux the path is returned unchanged.
pub fn sanitize_windows_path(os: Os, path: String) -> (r: String)
    ensures
        r@ == sanitized_path(os, path@),
{
    match os {
        Os::Mac | Os::Linux => path,
        Os::Windows => {
            let s = path.as_str();
            let n = s.unicode_len();
            let mut i: usize = 0;
            while i < n && s.get_char(i) == '/'
                invariant
                    0 <= i <= n,
                    n == s@.len(),
                    s@ == path@,
                    forall|j: int| 0 <= j < i ==> s@[j] == '/',
                decreases n - i,
            {
                i = i + 1;
            }
            let trimmed = s.substring_char(i, n).to_owned();
            proof {
                lemma_trim_leading_slashes_skip(path@, i as int);
                assert(path@.subrange(i as int, n as int) =~= path@.skip(i as int));
            }
            trimmed
        }
    }
}

/// The path of `rel` under the directory `root`: the two joined with a `/`,
/// unless `root` already ends with one.
pub open spec fn joined_path(root: Seq<char>, rel: Seq<char>) -> Seq<char> {
    if root.len() > 0 && root[root.len() - 1] == '/' {
        root + rel
    } else {
        root + seq!['/'] + rel
    }
}

/// Joins a directory path and a relative path with a single `/` separator.
pub fn join_path(root: &str, rel: &str) -> (r: String)
    ensures
        r@ == joined_path(root@, rel@),
{
    let n = root.unicode_len();
    if n > 0 && root.get_char(n - 1) == '/' {
        root.to_owned().concat(rel)
    } else {
        let mut out = root.to_owned();
        out.append("/");
        let out = out.concat(rel);
        proof {
            reveal_strlit("/");
            assert(out@ =~= root@ + seq!['/'] + rel@);
        }
        out
    }
}

} // verus!
