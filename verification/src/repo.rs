//! Repository names from GitHub URLs, for the download cache.
//!
//! `extract_repo_name` reads the repository name out of a GitHub URL:
//! after the first `github.com/` that is followed by an owner segment
//! and a name, the name runs until a `/`, a `.` or the end. A URL
//! without such a shape falls back to a generic name.

use vstd::prelude::*;
use vstd::string::StrSliceExecFns;

use crate::manifest::copy_range;
use crate::matcher::pat8n;
use crate::text::{is_at, occurs_at};

verus! {

/// The literal `github.com/`.
pub open spec fn kw_github_host() -> Seq<char> {
    seq!['g', 'i', 't', 'h', 'u', 'b', '.', 'c', 'o', 'm', '/']
}

/// The fallback name when no repository name can be read.
pub open spec fn kw_generic_repo() -> Seq<char> {
    seq!['g', 'i', 't', 'h', 'u', 'b', '_', 'r', 'e', 'p', 'o']
}

/// The end of the segment beginning at `from`: the first `/`, or also
/// the first `.` when `dots` end segments, or the end of the string.
pub open spec fn seg_end(s: Seq<char>, from: int, dots: bool) -> int
    decreases s.len() - from,
{
    if from < 0 || from >= s.len() {
        s.len() as int
    } else if s[from] == '/' || (dots && s[from] == '.') {
        from
    } else {
        seg_end(s, from + 1, dots)
    }
}

/// Find the end of the segment beginning at `from`.
fn scan_seg_end(s: &Vec<char>, from: usize, dots: bool) -> (r: usize)
    requires
        from <= s@.len(),
    ensures
        r as int == seg_end(s@, from as int, dots),
        from <= r <= s@.len(),
{
    let mut i: usize = from;
    while i < s.len() && !(s[i] == '/' || (dots && s[i] == '.'))
        invariant
            from <= i <= s@.len(),
            seg_end(s@, from as int, dots) == seg_end(s@, i as int, dots),
        decreases s.len() - i,
    {
        assert(seg_end(s@, i as int, dots) == seg_end(s@, i + 1 as int, dots));
        i += 1;
    }
    proof {
        lemma_seg_end(s@, from as int, dots);
    }
    i
}

/// The bounds of a segment end.
proof fn lemma_seg_end(s: Seq<char>, from: int, dots: bool)
    requires
        0 <= from <= s.len(),
    ensures
        from <= seg_end(s, from, dots) <= s.len(),
    decreases s.len() - from,
{
    if from < s.len() && !(s[from] == '/' || (dots && s[from] == '.')) {
        lemma_seg_end(s, from + 1, dots);
    }
}

/// Where the host name occurs at `i`, the repository name it
/// introduces: the owner segment must be nonempty and closed by `/`,
/// and the name must be nonempty.
pub open spec fn repo_name_at(s: Seq<char>, i: int) -> Option<(int, int)> {
    if !is_at(s, i, kw_github_host()) {
        None
    } else {
        let p = i + kw_github_host().len();
        let oe = seg_end(s, p, false);
        if oe == p || oe >= s.len() {
            None
        } else {
            let ne = seg_end(s, oe + 1, true);
            if ne == oe + 1 {
                None
            } else {
                Some((oe + 1, ne))
            }
        }
    }
}

/// The repository name of the first host occurrence that carries one.
pub open spec fn scan_repo_name(s: Seq<char>, i: int) -> Option<(int, int)>
    decreases s.len() + 1 - i,
{
    if i + kw_github_host().len() > s.len() {
        None
    } else {
        match repo_name_at(s, i) {
            Some(r) => Some(r),
            None => scan_repo_name(s, i + 1),
        }
    }
}

/// The repository name a GitHub URL carries, if any.
pub open spec fn spec_repo_name(s: Seq<char>) -> Option<Seq<char>> {
    match scan_repo_name(s, 0) {
        Some((a, b)) => Some(s.subrange(a, b)),
        None => None,
    }
}

/// Build `github.com/`.
fn pat_github_host() -> (r: Vec<char>)
    ensures
        r@ == kw_github_host(),
{
    let mut v = pat8n(8, 'g', 'i', 't', 'h', 'u', 'b', '.', 'c');
    v.push('o');
    v.push('m');
    v.push('/');
    assert(v@ =~= kw_github_host());
    v
}

/// Build `github_repo`.
fn pat_generic_repo() -> (r: Vec<char>)
    ensures
        r@ == kw_generic_repo(),
{
    let mut v = pat8n(8, 'g', 'i', 't', 'h', 'u', 'b', '_', 'r');
    v.push('e');
    v.push('p');
    v.push('o');
    assert(v@ =~= kw_generic_repo());
    v
}

/// Extract the repository name from a GitHub URL, or fall back to a
/// generic name when the URL carries none.
pub fn extract_repo_name(url: &Vec<char>) -> (r: Vec<char>)
    ensures
        r@ == match spec_repo_name(url@) {
            Some(n) => n,
            None => kw_generic_repo(),
        },
{
    let host = pat_github_host();
    let len = url.len();
    let mut i: usize = 0;
    loop
        invariant
            host@ == kw_github_host(),
            len == url@.len(),
            i <= len + 1,
            scan_repo_name(url@, 0) == scan_repo_name(url@, i as int),
        decreases len + 1 - i,
    {
        if len < 11 || i > len - 11 {
            assert(scan_repo_name(url@, i as int) is None);
            return pat_generic_repo();
        }
        if occurs_at(url, i, &host) {
            let p = i + 11;
            assert(p <= len);
            let oe = scan_seg_end(url, p, false);
            if oe > p && oe < len {
                let ns = oe + 1;
                let ne = scan_seg_end(url, ns, true);
                if ne > ns {
                    assert(repo_name_at(url@, i as int) == Some((ns as int, ne as int)));
                    assert(scan_repo_name(url@, i as int) == Some((ns as int, ne as int)));
                    return copy_range(url, ns, ne);
                }
            }
        }
        assert(repo_name_at(url@, i as int) is None);
        assert(scan_repo_name(url@, i as int) == scan_repo_name(url@, i + 1 as int));
        i += 1;
    }
}

/// The directory name a downloaded repository is stored under: the
/// repository name and a fresh eight-character suffix, joined by `_`.
pub fn unique_repo_dir(url: &Vec<char>) -> (r: Vec<char>)
    ensures
        exists|tok: Seq<char>|
            tok.len() == 8 && r@ == (match spec_repo_name(url@) {
                Some(n) => n,
                None => kw_generic_repo(),
            }) + seq!['_'] + tok,
{
    let mut name = extract_repo_name(url);
    let ghost base = name@;
    name.push('_');
    let token = crate::storage::fresh_token();
    let ghost tok_full = token@;
    let t = token.as_str();
    let mut k: usize = 0;
    while k < 8
        invariant
            tok_full.len() == 32,
            t@ == tok_full,
            k <= 8,
            name@ == base + seq!['_'] + tok_full.subrange(0, k as int),
        decreases 8 - k,
    {
        let c = t.get_char(k);
        name.push(c);
        assert(name@ =~= base + seq!['_'] + tok_full.subrange(0, k + 1 as int));
        k += 1;
    }
    proof {
        assert(name@ == base + seq!['_'] + tok_full.subrange(0, 8));
        assert(tok_full.subrange(0, 8).len() == 8);
    }
    name
}

} // verus!
