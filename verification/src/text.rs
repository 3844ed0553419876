//! Primitives for scanning lines of source text, represented as
//! sequences of characters.

use vstd::prelude::*;

verus! {

/// True for characters that may form an identifier: ASCII letters,
/// digits and `_`.
pub open spec fn is_ident_char(c: char) -> bool {
    ('a' <= c && c <= 'z') || ('A' <= c && c <= 'Z') || ('0' <= c && c <= '9') || c == '_'
}

/// True for ASCII whitespace.
pub open spec fn is_space_char(c: char) -> bool {
    c == ' ' || c == '\t' || c == '\r'
}

/// Executable identifier-character test.
pub fn ident_char(c: char) -> (r: bool)
    ensures
        r == is_ident_char(c),
{
    ('a' <= c && c <= 'z') || ('A' <= c && c <= 'Z') || ('0' <= c && c <= '9') || c == '_'
}

/// Executable whitespace test.
pub fn space_char(c: char) -> (r: bool)
    ensures
        r == is_space_char(c),
{
    c == ' ' || c == '\t' || c == '\r'
}

/// The pattern `pat` occurs in `s` starting at index `i`.
pub open spec fn is_at(s: Seq<char>, i: int, pat: Seq<char>) -> bool {
    &&& 0 <= i
    &&& i + pat.len() <= s.len()
    &&& s.subrange(i, i + pat.len() as int) == pat
}

/// The pattern `pat` occurs somewhere in `s`.
pub open spec fn contains_pat(s: Seq<char>, pat: Seq<char>) -> bool {
    exists|i: int| is_at(s, i, pat)
}

/// Whether `pat` occurs in `s` at exactly index `i`.
pub fn occurs_at(s: &Vec<char>, i: usize, pat: &Vec<char>) -> (r: bool)
    ensures
        r == is_at(s@, i as int, pat@),
{
    if i > s.len() || pat.len() > s.len() - i {
        assert(!is_at(s@, i as int, pat@));
        return false;
    }
    let mut k: usize = 0;
    while k < pat.len()
        invariant
            i + pat.len() <= s.len(),
            k <= pat.len(),
            forall|m: int| 0 <= m < k ==> s@[i + m] == pat@[m],
        decreases pat.len() - k,
    {
        if s[i + k] != pat[k] {
            assert(s@.subrange(i as int, i + pat@.len() as int)[k as int] != pat@[k as int]);
            return false;
        }
        k += 1;
    }
    assert(s@.subrange(i as int, i + pat@.len() as int) =~= pat@);
    true
}

/// The index of the first occurrence of `pat` in `s` at or after `from`,
/// if there is one.
pub open spec fn first_at(s: Seq<char>, pat: Seq<char>, from: int) -> Option<int>
    decreases s.len() + 1 - from,
{
    if from + pat.len() > s.len() {
        None
    } else if is_at(s, from, pat) {
        Some(from)
    } else {
        first_at(s, pat, from + 1)
    }
}

/// What a `first_at` answer means, occurrence by occurrence.
pub proof fn lemma_first_at(s: Seq<char>, pat: Seq<char>, from: int)
    requires
        0 <= from,
    ensures
        match first_at(s, pat, from) {
            Some(j) => from <= j && is_at(s, j, pat) && (forall|k: int|
                from <= k < j ==> !is_at(s, k, pat)),
            None => forall|k: int| from <= k ==> !is_at(s, k, pat),
        },
    decreases s.len() + 1 - from,
{
    if from + pat.len() > s.len() {
        assert forall|k: int| from <= k implies !is_at(s, k, pat) by {
            assert(k + pat.len() > s.len());
        }
    } else if is_at(s, from, pat) {
    } else {
        lemma_first_at(s, pat, from + 1);
    }
}

/// Find the first occurrence of `pat` at or after `from`.
pub fn find_from(s: &Vec<char>, pat: &Vec<char>, from: usize) -> (r: Option<usize>)
    ensures
        match r {
            Some(j) => first_at(s@, pat@, from as int) == Some(j as int),
            None => first_at(s@, pat@, from as int) is None,
        },
{
    let mut i: usize = from;
    loop
        invariant
            from <= i,
            first_at(s@, pat@, from as int) == first_at(s@, pat@, i as int),
        decreases s@.len() + 1 - i,
    {
        if i > s.len() || pat.len() > s.len() - i {
            assert(first_at(s@, pat@, i as int) is None);
            return None;
        }
        if occurs_at(s, i, pat) {
            assert(first_at(s@, pat@, i as int) == Some(i as int));
            return Some(i);
        }
        proof {
            if pat@.len() == 0 {
                assert(s@.subrange(i as int, i as int) =~= pat@);
                assert(is_at(s@, i as int, pat@));
            }
        }
        assert(i < s.len());
        assert(first_at(s@, pat@, i as int) == first_at(s@, pat@, i + 1 as int));
        i += 1;
    }
}

/// Whether `pat` occurs anywhere in `s`.
pub fn contains_sub(s: &Vec<char>, pat: &Vec<char>) -> (r: bool)
    ensures
        r == contains_pat(s@, pat@),
{
    let r = find_from(s, pat, 0);
    proof {
        lemma_first_at(s@, pat@, 0);
        if first_at(s@, pat@, 0) is None {
            assert(forall|i: int| is_at(s@, i, pat@) ==> 0 <= i);
            assert(!contains_pat(s@, pat@));
        }
    }
    r.is_some()
}

/// The index of the first character of `s` that is not whitespace;
/// `s.len()` when every character is.
pub open spec fn first_nonspace(s: Seq<char>, from: int) -> int
    decreases s.len() - from,
{
    if from < 0 || from >= s.len() {
        s.len() as int
    } else if is_space_char(s[from]) {
        first_nonspace(s, from + 1)
    } else {
        from
    }
}

/// Everything `first_nonspace` promises about its answer.
pub proof fn lemma_first_nonspace(s: Seq<char>, from: int)
    requires
        0 <= from <= s.len(),
    ensures
        from <= first_nonspace(s, from) <= s.len(),
        forall|k: int| from <= k < first_nonspace(s, from) ==> is_space_char(s[k]),
        first_nonspace(s, from) < s.len() ==> !is_space_char(s[first_nonspace(s, from)]),
    decreases s.len() - from,
{
    if from < s.len() && is_space_char(s[from]) {
        lemma_first_nonspace(s, from + 1);
    }
}

/// Find the first non-whitespace character position, or `s.len()`.
pub fn skip_spaces(s: &Vec<char>) -> (r: usize)
    ensures
        r as int == first_nonspace(s@, 0),
{
    let mut i: usize = 0;
    while i < s.len() && space_char(s[i])
        invariant
            0 <= i <= s.len(),
            first_nonspace(s@, 0) == first_nonspace(s@, i as int),
        decreases s.len() - i,
    {
        assert(first_nonspace(s@, i as int) == first_nonspace(s@, i + 1 as int));
        i += 1;
    }
    i
}

/// `name` occurs at `i` and does not continue an identifier begun to its
/// left.
pub open spec fn token_at(s: Seq<char>, i: int, name: Seq<char>) -> bool {
    is_at(s, i, name) && (i == 0 || !is_ident_char(s[i - 1]))
}

/// Somewhere in `s`, `name` stands on an identifier boundary and is
/// immediately followed by `follow`.
pub open spec fn token_followed_by(s: Seq<char>, name: Seq<char>, follow: Seq<char>) -> bool {
    exists|i: int| token_at(s, i, name) && is_at(s, i + name.len(), follow)
}

/// `name` stands at `i` as a whole token: boundaries on both sides.
pub open spec fn whole_token_at(s: Seq<char>, i: int, name: Seq<char>) -> bool {
    token_at(s, i, name) && (i + name.len() == s.len() || !is_ident_char(s[i + name.len()]))
}

/// `name` occurs somewhere in `s` as a whole token.
pub open spec fn has_whole_token(s: Seq<char>, name: Seq<char>) -> bool {
    exists|i: int| whole_token_at(s, i, name)
}

/// Decide `token_followed_by` by scanning every position.
pub fn find_token_followed_by(s: &Vec<char>, name: &Vec<char>, follow: &Vec<char>) -> (r: bool)
    requires
        name@.len() >= 1,
    ensures
        r == token_followed_by(s@, name@, follow@),
{
    if name.len() > s.len() {
        assert(forall|k: int|
            token_at(s@, k, name@) ==> k + name@.len() <= s@.len());
        return false;
    }
    let mut i: usize = 0;
    while i <= s.len() - name.len()
        invariant
            name@.len() >= 1,
            name@.len() <= s@.len(),
            i <= s@.len(),
            forall|k: int|
                0 <= k < i ==> !(token_at(s@, k, name@) && is_at(s@, k + name@.len(), follow@)),
        decreases s.len() + 1 - i,
    {
        if occurs_at(s, i, name) && (i == 0 || !ident_char(s[i - 1])) {
            if occurs_at(s, i + name.len(), follow) {
                assert(token_at(s@, i as int, name@) && is_at(
                    s@,
                    i + name@.len(),
                    follow@,
                ));
                return true;
            }
        }
        i += 1;
    }
    assert(forall|k: int|
        token_at(s@, k, name@) && is_at(s@, k + name@.len(), follow@) ==> 0 <= k < i);
    false
}

/// Decide `has_whole_token` by scanning every position.
pub fn find_whole_token(s: &Vec<char>, name: &Vec<char>) -> (r: bool)
    requires
        name@.len() >= 1,
    ensures
        r == has_whole_token(s@, name@),
{
    if name.len() > s.len() {
        assert(forall|k: int| token_at(s@, k, name@) ==> k + name@.len() <= s@.len());
        return false;
    }
    let mut i: usize = 0;
    while i <= s.len() - name.len()
        invariant
            name@.len() >= 1,
            name@.len() <= s@.len(),
            i <= s@.len(),
            forall|k: int| 0 <= k < i ==> !whole_token_at(s@, k, name@),
        decreases s.len() + 1 - i,
    {
        if occurs_at(s, i, name) && (i == 0 || !ident_char(s[i - 1])) {
            if i + name.len() == s.len() || !ident_char(s[i + name.len()]) {
                assert(whole_token_at(s@, i as int, name@));
                return true;
            }
        }
        i += 1;
    }
    assert(forall|k: int| whole_token_at(s@, k, name@) ==> 0 <= k < i);
    false
}

/// A line is blank when every character is whitespace.
pub open spec fn is_blank(s: Seq<char>) -> bool {
    forall|i: int| 0 <= i < s.len() ==> is_space_char(s[i])
}

/// Whether the line is blank.
pub fn blank_line(s: &Vec<char>) -> (r: bool)
    ensures
        r == is_blank(s@),
{
    let i = skip_spaces(s);
    proof {
        lemma_first_nonspace(s@, 0);
    }
    i == s.len()
}

} // verus!
