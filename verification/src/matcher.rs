//! The usage matcher: which lines of a file evidence usage of a declared
//! dependency.
//!
//! Matching is layered and ecosystem-aware. A line is attributed to a
//! dependency when any rule matches it: import syntax, qualified access
//! through the ecosystem's namespace separator, macro or decorator
//! invocation, a curated conventional alias, a curated attribute or derive
//! marker, or the use of a symbol named on one of the dependency's own
//! import lines. Alias and attribute rules compare the dependency name
//! case-insensitively; syntactic rules use the exact declared name (with
//! `-` read as `_` for Rust, as the compiler does).

use vstd::prelude::*;

use crate::classify::{effective_flags, line_views, spec_line_effective};
use crate::ecosystem::Ecosystem;
use crate::text::{first_at, first_nonspace, find_from, is_at, is_ident_char, contains_pat,
    contains_sub, find_token_followed_by, find_whole_token, has_whole_token, ident_char, occurs_at,
    skip_spaces, token_at, token_followed_by};

verus! {

/// A Rust crate name as it appears in source: `-` becomes `_`.
pub open spec fn spec_norm(name: Seq<char>) -> Seq<char> {
    name.map_values(|c: char| if c == '-' { '_' } else { c })
}

/// Normalize a dependency name for Rust source matching.
pub fn norm_name(name: &Vec<char>) -> (r: Vec<char>)
    ensures
        r@ == spec_norm(name@),
{
    let mut out: Vec<char> = Vec::new();
    let mut i: usize = 0;
    while i < name.len()
        invariant
            out@.len() == i,
            i <= name@.len(),
            forall|k: int| 0 <= k < i ==> out@[k] == spec_norm(name@)[k],
        decreases name.len() - i,
    {
        if name[i] == '-' {
            out.push('_');
        } else {
            out.push(name[i]);
        }
        i += 1;
    }
    assert(out@ =~= spec_norm(name@));
    out
}

/// `a` equals `b` up to lowering ASCII letters of `a`; `b` is expected in
/// lower case.
pub open spec fn lower_char_eq(a: char, b: char) -> bool {
    a == b || ('A' <= a && a <= 'Z' && a as u32 + 32 == b as u32)
}

/// Case-insensitive comparison of `s` against the lower-case word `t`.
pub open spec fn lower_eq(s: Seq<char>, t: Seq<char>) -> bool {
    s.len() == t.len() && forall|i: int| 0 <= i < s.len() ==> lower_char_eq(s[i], t[i])
}

/// Decide `lower_eq` character by character.
pub fn lower_eq_chars(s: &Vec<char>, t: &Vec<char>) -> (r: bool)
    ensures
        r == lower_eq(s@, t@),
{
    if s.len() != t.len() {
        return false;
    }
    let mut i: usize = 0;
    while i < s.len()
        invariant
            s@.len() == t@.len(),
            i <= s@.len(),
            forall|k: int| 0 <= k < i ==> lower_char_eq(s@[k], t@[k]),
        decreases s.len() - i,
    {
        let a = s[i];
        let b = t[i];
        if !(a == b || ('A' <= a && a <= 'Z' && (a as u32) + 32 == (b as u32))) {
            return false;
        }
        i += 1;
    }
    true
}

/// Build a one-character pattern.
pub fn pat1(a: char) -> (r: Vec<char>)
    ensures
        r@ == seq![a],
{
    let mut v: Vec<char> = Vec::new();
    v.push(a);
    assert(v@ =~= seq![a]);
    v
}

/// Build a two-character pattern.
pub fn pat2(a: char, b: char) -> (r: Vec<char>)
    ensures
        r@ == seq![a, b],
{
    let mut v: Vec<char> = Vec::new();
    v.push(a);
    v.push(b);
    assert(v@ =~= seq![a, b]);
    v
}

/// Build a three-character pattern.
pub fn pat3(a: char, b: char, c: char) -> (r: Vec<char>)
    ensures
        r@ == seq![a, b, c],
{
    let mut v: Vec<char> = Vec::new();
    v.push(a);
    v.push(b);
    v.push(c);
    assert(v@ =~= seq![a, b, c]);
    v
}

/// Build a pattern of up to eight characters, cut to `n`.
pub fn pat8n(n: usize, a: char, b: char, c: char, d: char, e: char, f: char, g: char, h: char) -> (r:
    Vec<char>)
    requires
        1 <= n <= 8,
    ensures
        r@ =~= seq![a, b, c, d, e, f, g, h].subrange(0, n as int),
{
    let mut v: Vec<char> = Vec::new();
    v.push(a);
    if n >= 2 {
        v.push(b);
    }
    if n >= 3 {
        v.push(c);
    }
    if n >= 4 {
        v.push(d);
    }
    if n >= 5 {
        v.push(e);
    }
    if n >= 6 {
        v.push(f);
    }
    if n >= 7 {
        v.push(g);
    }
    if n >= 8 {
        v.push(h);
    }
    v
}

/// The word `use` followed by a space.
pub open spec fn kw_use() -> Seq<char> {
    seq!['u', 's', 'e', ' ']
}

/// The word `import` followed by a space.
pub open spec fn kw_import() -> Seq<char> {
    seq!['i', 'm', 'p', 'o', 'r', 't', ' ']
}

/// The word `from` followed by a space.
pub open spec fn kw_from() -> Seq<char> {
    seq!['f', 'r', 'o', 'm', ' ']
}

/// The word `import` between spaces.
pub open spec fn kw_mid_import() -> Seq<char> {
    seq![' ', 'i', 'm', 'p', 'o', 'r', 't', ' ']
}

/// The word `export` followed by a space.
pub open spec fn kw_export() -> Seq<char> {
    seq!['e', 'x', 'p', 'o', 'r', 't', ' ']
}

/// A `require` call up to its opening parenthesis.
pub open spec fn kw_require() -> Seq<char> {
    seq!['r', 'e', 'q', 'u', 'i', 'r', 'e', '(']
}

/// The word `from` between spaces.
pub open spec fn kw_mid_from() -> Seq<char> {
    seq![' ', 'f', 'r', 'o', 'm', ' ']
}

/// Build `use `.
pub fn pat_use() -> (r: Vec<char>)
    ensures
        r@ == kw_use(),
{
    let v = pat8n(4, 'u', 's', 'e', ' ', ' ', ' ', ' ', ' ');
    assert(v@ =~= kw_use());
    v
}

/// Build `import `.
pub fn pat_import() -> (r: Vec<char>)
    ensures
        r@ == kw_import(),
{
    let v = pat8n(7, 'i', 'm', 'p', 'o', 'r', 't', ' ', ' ');
    assert(v@ =~= kw_import());
    v
}

/// Build `from `.
pub fn pat_from() -> (r: Vec<char>)
    ensures
        r@ == kw_from(),
{
    let v = pat8n(5, 'f', 'r', 'o', 'm', ' ', ' ', ' ', ' ');
    assert(v@ =~= kw_from());
    v
}

/// Build ` import `.
pub fn pat_mid_import() -> (r: Vec<char>)
    ensures
        r@ == kw_mid_import(),
{
    let v = pat8n(8, ' ', 'i', 'm', 'p', 'o', 'r', 't', ' ');
    assert(v@ =~= kw_mid_import());
    v
}

/// Build `export `.
pub fn pat_export() -> (r: Vec<char>)
    ensures
        r@ == kw_export(),
{
    let v = pat8n(7, 'e', 'x', 'p', 'o', 'r', 't', ' ', ' ');
    assert(v@ =~= kw_export());
    v
}

/// Build `require(`.
pub fn pat_require() -> (r: Vec<char>)
    ensures
        r@ == kw_require(),
{
    let v = pat8n(8, 'r', 'e', 'q', 'u', 'i', 'r', 'e', '(');
    assert(v@ =~= kw_require());
    v
}

/// Build ` from `.
pub fn pat_mid_from() -> (r: Vec<char>)
    ensures
        r@ == kw_mid_from(),
{
    let v = pat8n(6, ' ', 'f', 'r', 'o', 'm', ' ', ' ', ' ');
    assert(v@ =~= kw_mid_from());
    v
}

/// A Rust `use` of the crate `name`: the trimmed line starts with `use `
/// and `name` follows, ended by `::`, a separator, or the line end.
pub open spec fn rust_import_match(line: Seq<char>, name: Seq<char>) -> bool {
    let ns = first_nonspace(line, 0);
    let after = ns + 4 + name.len();
    &&& is_at(line, ns, kw_use())
    &&& is_at(line, ns + 4, name)
    &&& (after == line.len() || line[after] == ':' || line[after] == ';' || line[after] == ' ')
}

/// A Python `import name` or `from name ...` statement.
pub open spec fn python_import_match(line: Seq<char>, name: Seq<char>) -> bool {
    let ns = first_nonspace(line, 0);
    ||| {
        let after = ns + 7 + name.len();
        &&& is_at(line, ns, kw_import())
        &&& is_at(line, ns + 7, name)
        &&& (after == line.len() || line[after] == '.' || line[after] == ' ' || line[after] == ',')
    }
    ||| {
        let after = ns + 5 + name.len();
        &&& is_at(line, ns, kw_from())
        &&& is_at(line, ns + 5, name)
        &&& (after == line.len() || line[after] == '.' || line[after] == ' ')
    }
}

/// `name` stands in quotes, alone or as the head of a module path.
pub open spec fn quoted_name(line: Seq<char>, name: Seq<char>) -> bool {
    exists|i: int|
        {
            let after = i + 1 + name.len();
            &&& 0 <= i < line.len()
            &&& (#[trigger] line[i] == '\'' || line[i] == '"')
            &&& is_at(line, i + 1, name)
            &&& after < line.len()
            &&& (line[after] == line[i] || line[after] == '/')
        }
}

/// A JavaScript import of the package `name`: an `import`/`export` clause,
/// a `require` call or a `from` clause naming the quoted package.
pub open spec fn js_import_match(line: Seq<char>, name: Seq<char>) -> bool {
    let ns = first_nonspace(line, 0);
    &&& (is_at(line, ns, kw_import()) || is_at(line, ns, kw_export()) || contains_pat(
        line,
        kw_require(),
    ) || contains_pat(line, kw_mid_from()))
    &&& quoted_name(line, name)
}

/// The import-syntax rule of the file's ecosystem.
pub open spec fn spec_import_match(name: Seq<char>, line: Seq<char>, eco: Ecosystem) -> bool {
    match eco {
        Ecosystem::Rust => rust_import_match(line, spec_norm(name)),
        Ecosystem::Python => python_import_match(line, name),
        Ecosystem::JavaScript => js_import_match(line, name),
        Ecosystem::Unknown => false,
    }
}

/// The qualified-access rule: the name immediately followed by the
/// ecosystem's namespace separator, anywhere in the line.
pub open spec fn spec_qualified_match(name: Seq<char>, line: Seq<char>, eco: Ecosystem) -> bool {
    match eco {
        Ecosystem::Rust => token_followed_by(line, spec_norm(name), seq![':', ':']),
        Ecosystem::Python => token_followed_by(line, name, seq!['.']),
        Ecosystem::JavaScript => token_followed_by(line, name, seq!['.']),
        Ecosystem::Unknown => false,
    }
}

/// The invocation rule: a Rust macro call `name!(..)`, `name![..]` or
/// `name!{..}`, or a Python decorator `@name`.
pub open spec fn spec_invocation_match(name: Seq<char>, line: Seq<char>, eco: Ecosystem) -> bool {
    match eco {
        Ecosystem::Rust => {
            let n = spec_norm(name);
            token_followed_by(line, n, seq!['!', '(']) || token_followed_by(line, n, seq!['!', '['])
                || token_followed_by(line, n, seq!['!', '{'])
        },
        Ecosystem::Python => {
            let ns = first_nonspace(line, 0);
            let after = ns + 1 + name.len();
            &&& is_at(line, ns, seq!['@'])
            &&& is_at(line, ns + 1, name)
            &&& (after == line.len() || !is_ident_char(line[after]))
        },
        _ => false,
    }
}

/// The alias rule: curated conventional short names, bound by `as` in
/// their ecosystem, used with attribute access.
pub open spec fn spec_alias_match(name: Seq<char>, line: Seq<char>, eco: Ecosystem) -> bool {
    eco is Python && {
        ||| (lower_eq(name, seq!['n', 'u', 'm', 'p', 'y']) && token_followed_by(
            line,
            seq!['n', 'p'],
            seq!['.'],
        ))
        ||| (lower_eq(name, seq!['p', 'a', 'n', 'd', 'a', 's']) && token_followed_by(
            line,
            seq!['p', 'd'],
            seq!['.'],
        ))
        ||| (lower_eq(name, seq!['m', 'a', 't', 'p', 'l', 'o', 't', 'l', 'i', 'b'])
            && token_followed_by(line, seq!['p', 'l', 't'], seq!['.']))
    }
}

/// The word `derive`.
pub open spec fn kw_derive() -> Seq<char> {
    seq!['d', 'e', 'r', 'i', 'v', 'e']
}

/// The trait name `Serialize`.
pub open spec fn kw_serialize() -> Seq<char> {
    seq!['S', 'e', 'r', 'i', 'a', 'l', 'i', 'z', 'e']
}

/// The trait name `Deserialize`.
pub open spec fn kw_deserialize() -> Seq<char> {
    seq!['D', 'e', 's', 'e', 'r', 'i', 'a', 'l', 'i', 'z', 'e']
}

/// The trait name `Error`.
pub open spec fn kw_cap_error() -> Seq<char> {
    seq!['E', 'r', 'r', 'o', 'r']
}

/// The attribute prefix `#[error(`.
pub open spec fn kw_error_attr() -> Seq<char> {
    seq!['#', '[', 'e', 'r', 'r', 'o', 'r', '(']
}

/// The attribute/derive rule: curated markers that signal a dependency
/// without naming it, such as serialization derives and error-derive
/// annotations.
pub open spec fn spec_attribute_match(name: Seq<char>, line: Seq<char>, eco: Ecosystem) -> bool {
    eco is Rust && {
        ||| (lower_eq(name, seq!['s', 'e', 'r', 'd', 'e']) && has_whole_token(line, kw_derive())
            && (has_whole_token(line, kw_serialize()) || has_whole_token(line, kw_deserialize())))
        ||| (lower_eq(name, seq!['t', 'h', 'i', 's', 'e', 'r', 'r', 'o', 'r']) && ((has_whole_token(
            line,
            kw_derive(),
        ) && has_whole_token(line, kw_cap_error())) || contains_pat(line, kw_error_attr())))
    }
}

/// Any of the direct (single-line) rules.
pub open spec fn spec_direct_match(name: Seq<char>, line: Seq<char>, eco: Ecosystem) -> bool {
    ||| spec_import_match(name, line, eco)
    ||| spec_qualified_match(name, line, eco)
    ||| spec_invocation_match(name, line, eco)
    ||| spec_alias_match(name, line, eco)
    ||| spec_attribute_match(name, line, eco)
}

/// Decide `quoted_name` by scanning for a quote followed by the name.
pub fn find_quoted_name(line: &Vec<char>, name: &Vec<char>) -> (r: bool)
    ensures
        r == quoted_name(line@, name@),
{
    let mut i: usize = 0;
    while i < line.len()
        invariant
            i <= line@.len(),
            forall|k: int|
                0 <= k < i ==> !{
                    let after = k + 1 + name@.len();
                    &&& (#[trigger] line@[k] == '\'' || line@[k] == '"')
                    &&& is_at(line@, k + 1, name@)
                    &&& after < line@.len()
                    &&& (line@[after] == line@[k] || line@[after] == '/')
                },
        decreases line.len() - i,
    {
        let q = line[i];
        if (q == '\'' || q == '"') && occurs_at(line, i + 1, name) {
            let after = i + 1 + name.len();
            if after < line.len() && (line[after] == q || line[after] == '/') {
                return true;
            }
        }
        i += 1;
    }
    false
}

/// Decide the import-syntax rule.
pub fn import_match(name: &Vec<char>, line: &Vec<char>, eco: Ecosystem) -> (r: bool)
    requires
        name@.len() >= 1,
    ensures
        r == spec_import_match(name@, line@, eco),
{
    match eco {
        Ecosystem::Rust => {
            let n = norm_name(name);
            let ns = skip_spaces(line);
            let p = pat_use();
            if !occurs_at(line, ns, &p) {
                return false;
            }
            let len = line.len();
            assert(kw_use().len() == 4 && ns + 4 <= len);
            if !occurs_at(line, ns + 4, &n) {
                return false;
            }
            let after = ns + 4 + n.len();
            after == line.len() || line[after] == ':' || line[after] == ';' || line[after] == ' '
        },
        Ecosystem::Python => {
            let ns = skip_spaces(line);
            let pi = pat_import();
            let pf = pat_from();
            let len = line.len();
            let a = if occurs_at(line, ns, &pi) {
                assert(kw_import().len() == 7 && ns + 7 <= len);
                if occurs_at(line, ns + 7, name) {
                    let after = ns + 7 + name.len();
                    after == line.len() || line[after] == '.' || line[after] == ' ' || line[after]
                        == ','
                } else {
                    false
                }
            } else {
                false
            };
            let b = if occurs_at(line, ns, &pf) {
                assert(kw_from().len() == 5 && ns + 5 <= len);
                if occurs_at(line, ns + 5, name) {
                    let after = ns + 5 + name.len();
                    after == line.len() || line[after] == '.' || line[after] == ' '
                } else {
                    false
                }
            } else {
                false
            };
            a || b
        },
        Ecosystem::JavaScript => {
            let ns = skip_spaces(line);
            let pi = pat_import();
            let pe = pat_export();
            let pr = pat_require();
            let pf = pat_mid_from();
            let head = occurs_at(line, ns, &pi) || occurs_at(line, ns, &pe) || contains_sub(
                line,
                &pr,
            ) || contains_sub(line, &pf);
            head && find_quoted_name(line, name)
        },
        Ecosystem::Unknown => false,
    }
}

/// Decide the qualified-access rule.
pub fn qualified_match(name: &Vec<char>, line: &Vec<char>, eco: Ecosystem) -> (r: bool)
    requires
        name@.len() >= 1,
    ensures
        r == spec_qualified_match(name@, line@, eco),
{
    match eco {
        Ecosystem::Rust => {
            let n = norm_name(name);
            let sep = pat2(':', ':');
            find_token_followed_by(line, &n, &sep)
        },
        Ecosystem::Python | Ecosystem::JavaScript => {
            let sep = pat1('.');
            find_token_followed_by(line, name, &sep)
        },
        Ecosystem::Unknown => false,
    }
}

/// Decide the invocation rule.
pub fn invocation_match(name: &Vec<char>, line: &Vec<char>, eco: Ecosystem) -> (r: bool)
    requires
        name@.len() >= 1,
    ensures
        r == spec_invocation_match(name@, line@, eco),
{
    match eco {
        Ecosystem::Rust => {
            let n = norm_name(name);
            let f1 = pat2('!', '(');
            let f2 = pat2('!', '[');
            let f3 = pat2('!', '{');
            find_token_followed_by(line, &n, &f1) || find_token_followed_by(line, &n, &f2)
                || find_token_followed_by(line, &n, &f3)
        },
        Ecosystem::Python => {
            let ns = skip_spaces(line);
            let at = pat1('@');
            if !occurs_at(line, ns, &at) {
                return false;
            }
            let len = line.len();
            assert(ns + 1 <= len);
            if !occurs_at(line, ns + 1, name) {
                return false;
            }
            let after = ns + 1 + name.len();
            after == line.len() || !ident_char(line[after])
        },
        _ => false,
    }
}

/// Decide the alias rule.
pub fn alias_match(name: &Vec<char>, line: &Vec<char>, eco: Ecosystem) -> (r: bool)
    ensures
        r == spec_alias_match(name@, line@, eco),
{
    if !matches!(eco, Ecosystem::Python) {
        return false;
    }
    let dot = pat1('.');
    let numpy = pat8n(5, 'n', 'u', 'm', 'p', 'y', ' ', ' ', ' ');
    assert(numpy@ =~= seq!['n', 'u', 'm', 'p', 'y']);
    let pandas = pat8n(6, 'p', 'a', 'n', 'd', 'a', 's', ' ', ' ');
    assert(pandas@ =~= seq!['p', 'a', 'n', 'd', 'a', 's']);
    let mut matplotlib = pat8n(8, 'm', 'a', 't', 'p', 'l', 'o', 't', 'l');
    matplotlib.push('i');
    matplotlib.push('b');
    assert(matplotlib@ =~= seq!['m', 'a', 't', 'p', 'l', 'o', 't', 'l', 'i', 'b']);
    let np = pat2('n', 'p');
    let pd = pat2('p', 'd');
    let plt = pat3('p', 'l', 't');
    (lower_eq_chars(name, &numpy) && find_token_followed_by(line, &np, &dot)) || (lower_eq_chars(
        name,
        &pandas,
    ) && find_token_followed_by(line, &pd, &dot)) || (lower_eq_chars(name, &matplotlib)
        && find_token_followed_by(line, &plt, &dot))
}

/// Decide the attribute/derive rule.
pub fn attribute_match(name: &Vec<char>, line: &Vec<char>, eco: Ecosystem) -> (r: bool)
    ensures
        r == spec_attribute_match(name@, line@, eco),
{
    if !matches!(eco, Ecosystem::Rust) {
        return false;
    }
    let serde = pat8n(5, 's', 'e', 'r', 'd', 'e', ' ', ' ', ' ');
    assert(serde@ =~= seq!['s', 'e', 'r', 'd', 'e']);
    let mut thiserror = pat8n(8, 't', 'h', 'i', 's', 'e', 'r', 'r', 'o');
    thiserror.push('r');
    assert(thiserror@ =~= seq!['t', 'h', 'i', 's', 'e', 'r', 'r', 'o', 'r']);
    let derive = pat8n(6, 'd', 'e', 'r', 'i', 'v', 'e', ' ', ' ');
    assert(derive@ =~= kw_derive());
    let mut serialize = pat8n(8, 'S', 'e', 'r', 'i', 'a', 'l', 'i', 'z');
    serialize.push('e');
    assert(serialize@ =~= kw_serialize());
    let mut deserialize = pat8n(8, 'D', 'e', 's', 'e', 'r', 'i', 'a', 'l');
    deserialize.push('i');
    deserialize.push('z');
    deserialize.push('e');
    assert(deserialize@ =~= kw_deserialize());
    let cap_error = pat8n(5, 'E', 'r', 'r', 'o', 'r', ' ', ' ', ' ');
    assert(cap_error@ =~= kw_cap_error());
    let error_attr = pat8n(8, '#', '[', 'e', 'r', 'r', 'o', 'r', '(');
    assert(error_attr@ =~= kw_error_attr());
    (lower_eq_chars(name, &serde) && find_whole_token(line, &derive) && (find_whole_token(
        line,
        &serialize,
    ) || find_whole_token(line, &deserialize))) || (lower_eq_chars(name, &thiserror) && ((
    find_whole_token(line, &derive) && find_whole_token(line, &cap_error)) || contains_sub(
        line,
        &error_attr,
    )))
}

/// Where the list of imported symbols begins on an import line, clamped
/// to the line length.
pub open spec fn spec_region_start(line: Seq<char>, eco: Ecosystem) -> int {
    let len = line.len() as int;
    let raw = match eco {
        Ecosystem::Rust => first_nonspace(line, 0) + 4,
        Ecosystem::Python => {
            let ns = first_nonspace(line, 0);
            if is_at(line, ns, kw_import()) {
                ns + 7
            } else {
                match first_at(line, kw_mid_import(), 0) {
                    Some(j) => j + 8,
                    None => len,
                }
            }
        },
        Ecosystem::JavaScript => 0,
        Ecosystem::Unknown => len,
    };
    if raw > len {
        len
    } else {
        raw
    }
}

/// Compute where the imported-symbol region begins.
pub fn region_start(line: &Vec<char>, eco: Ecosystem) -> (r: usize)
    ensures
        r as int == spec_region_start(line@, eco),
        r <= line@.len(),
{
    let len = line.len();
    let raw: usize = match eco {
        Ecosystem::Rust => {
            let ns = skip_spaces(line);
            proof {
                crate::text::lemma_first_nonspace(line@, 0);
            }
            if ns <= len && 4 <= len - ns {
                ns + 4
            } else {
                return len;
            }
        },
        Ecosystem::Python => {
            let ns = skip_spaces(line);
            proof {
                crate::text::lemma_first_nonspace(line@, 0);
            }
            let pi = pat_import();
            if occurs_at(line, ns, &pi) {
                assert(kw_import().len() == 7 && ns + 7 <= len);
                ns + 7
            } else {
                let pm = pat_mid_import();
                match find_from(line, &pm, 0) {
                    Some(j) => {
                        assert(is_at(line@, j as int, kw_mid_import())) by {
                            crate::text::lemma_first_at(line@, kw_mid_import(), 0);
                        }
                        assert(kw_mid_import().len() == 8 && j + 8 <= len);
                        j + 8
                    },
                    None => len,
                }
            }
        },
        Ecosystem::JavaScript => 0,
        Ecosystem::Unknown => len,
    };
    if raw > len {
        len
    } else {
        raw
    }
}

/// A maximal identifier run occupies `[i, j)` of the line.
pub open spec fn ident_run_at(line: Seq<char>, i: int, j: int) -> bool {
    &&& 0 <= i < j <= line.len()
    &&& (forall|k: int| i <= k < j ==> is_ident_char(#[trigger] line[k]))
    &&& (i == 0 || !is_ident_char(line[i - 1]))
    &&& (j == line.len() || !is_ident_char(line[j]))
}

/// A maximal run has one end.
pub proof fn lemma_run_end_unique(line: Seq<char>, i: int, j1: int, j2: int)
    requires
        ident_run_at(line, i, j1),
        ident_run_at(line, i, j2),
    ensures
        j1 == j2,
{
    if j1 < j2 {
        assert(is_ident_char(line[j1]));
    } else if j2 < j1 {
        assert(is_ident_char(line[j2]));
    }
}

/// Keywords of import syntax that are never taken for imported symbols.
pub open spec fn spec_reserved_word(sym: Seq<char>) -> bool {
    ||| sym == seq!['a', 's']
    ||| sym == seq!['u', 's', 'e']
    ||| sym == seq!['c', 'r', 'a', 't', 'e']
    ||| sym == seq!['s', 'e', 'l', 'f']
    ||| sym == seq!['s', 'u', 'p', 'e', 'r']
    ||| sym == seq!['p', 'u', 'b']
    ||| sym == seq!['m', 'o', 'd']
    ||| sym == seq!['i', 'm', 'p', 'o', 'r', 't']
    ||| sym == seq!['f', 'r', 'o', 'm']
    ||| sym == seq!['r', 'e', 'q', 'u', 'i', 'r', 'e']
    ||| sym == seq!['e', 'x', 'p', 'o', 'r', 't']
    ||| sym == seq!['c', 'o', 'n', 's', 't']
    ||| sym == seq!['l', 'e', 't']
    ||| sym == seq!['v', 'a', 'r']
    ||| sym == seq!['f', 'u', 'n', 'c', 't', 'i', 'o', 'n']
    ||| sym == seq!['r', 'e', 't', 'u', 'r', 'n']
    ||| sym == seq!['t', 'y', 'p', 'e']
    ||| sym == seq!['d', 'e', 'f', 'a', 'u', 'l', 't']
}

/// Exact comparison of two character vectors.
pub fn chars_eq(a: &Vec<char>, b: &Vec<char>) -> (r: bool)
    ensures
        r == (a@ == b@),
{
    if a.len() != b.len() {
        return false;
    }
    let mut i: usize = 0;
    while i < a.len()
        invariant
            a@.len() == b@.len(),
            i <= a@.len(),
            forall|k: int| 0 <= k < i ==> a@[k] == b@[k],
        decreases a.len() - i,
    {
        if a[i] != b[i] {
            return false;
        }
        i += 1;
    }
    assert(a@ =~= b@);
    true
}

/// Decide whether a symbol is a reserved word of import syntax.
pub fn reserved_word(sym: &Vec<char>) -> (r: bool)
    ensures
        r == spec_reserved_word(sym@),
{
    let kw_as = pat2('a', 's');
    let use_w = pat3('u', 's', 'e');
    let crate_w = pat8n(5, 'c', 'r', 'a', 't', 'e', ' ', ' ', ' ');
    assert(crate_w@ =~= seq!['c', 'r', 'a', 't', 'e']);
    let self_w = pat8n(4, 's', 'e', 'l', 'f', ' ', ' ', ' ', ' ');
    assert(self_w@ =~= seq!['s', 'e', 'l', 'f']);
    let super_w = pat8n(5, 's', 'u', 'p', 'e', 'r', ' ', ' ', ' ');
    assert(super_w@ =~= seq!['s', 'u', 'p', 'e', 'r']);
    let pub_w = pat3('p', 'u', 'b');
    let mod_w = pat3('m', 'o', 'd');
    let import_w = pat8n(6, 'i', 'm', 'p', 'o', 'r', 't', ' ', ' ');
    assert(import_w@ =~= seq!['i', 'm', 'p', 'o', 'r', 't']);
    let from_w = pat8n(4, 'f', 'r', 'o', 'm', ' ', ' ', ' ', ' ');
    assert(from_w@ =~= seq!['f', 'r', 'o', 'm']);
    let require_w = pat8n(7, 'r', 'e', 'q', 'u', 'i', 'r', 'e', ' ');
    assert(require_w@ =~= seq!['r', 'e', 'q', 'u', 'i', 'r', 'e']);
    let export_w = pat8n(6, 'e', 'x', 'p', 'o', 'r', 't', ' ', ' ');
    assert(export_w@ =~= seq!['e', 'x', 'p', 'o', 'r', 't']);
    let const_w = pat8n(5, 'c', 'o', 'n', 's', 't', ' ', ' ', ' ');
    assert(const_w@ =~= seq!['c', 'o', 'n', 's', 't']);
    let let_w = pat3('l', 'e', 't');
    let var_w = pat3('v', 'a', 'r');
    let function_w = pat8n(8, 'f', 'u', 'n', 'c', 't', 'i', 'o', 'n');
    assert(function_w@ =~= seq!['f', 'u', 'n', 'c', 't', 'i', 'o', 'n']);
    let return_w = pat8n(6, 'r', 'e', 't', 'u', 'r', 'n', ' ', ' ');
    assert(return_w@ =~= seq!['r', 'e', 't', 'u', 'r', 'n']);
    let type_w = pat8n(4, 't', 'y', 'p', 'e', ' ', ' ', ' ', ' ');
    assert(type_w@ =~= seq!['t', 'y', 'p', 'e']);
    let default_w = pat8n(7, 'd', 'e', 'f', 'a', 'u', 'l', 't', ' ');
    assert(default_w@ =~= seq!['d', 'e', 'f', 'a', 'u', 'l', 't']);
    chars_eq(sym, &kw_as) || chars_eq(sym, &use_w) || chars_eq(sym, &crate_w) || chars_eq(
        sym,
        &self_w,
    ) || chars_eq(sym, &super_w) || chars_eq(sym, &pub_w) || chars_eq(sym, &mod_w) || chars_eq(
        sym,
        &import_w,
    ) || chars_eq(sym, &from_w) || chars_eq(sym, &require_w) || chars_eq(sym, &export_w)
        || chars_eq(sym, &const_w) || chars_eq(sym, &let_w) || chars_eq(sym, &var_w) || chars_eq(
        sym,
        &function_w,
    ) || chars_eq(sym, &return_w) || chars_eq(sym, &type_w) || chars_eq(sym, &default_w)
}

/// `sym` is an imported symbol of the line: a maximal identifier run of
/// at least two characters within the import region, not a keyword.
pub open spec fn spec_import_symbol(line: Seq<char>, eco: Ecosystem, sym: Seq<char>) -> bool {
    exists|i: int, j: int|
        {
            &&& #[trigger] ident_run_at(line, i, j)
            &&& i >= spec_region_start(line, eco)
            &&& j - i >= 2
            &&& sym == line.subrange(i, j)
            &&& !spec_reserved_word(sym)
        }
}

/// `sym` is used on the line: as a call, a constructor or literal, an
/// access, or a type annotation.
pub open spec fn spec_symbol_use(line: Seq<char>, sym: Seq<char>) -> bool {
    exists|i: int|
        #[trigger] token_at(line, i, sym) && {
            let after = i + sym.len();
            ||| (after < line.len() && (line[after] == '(' || line[after] == '{' || line[after]
                == '.' || line[after] == ':'))
            ||| (after + 1 < line.len() && line[after] == ' ' && line[after + 1] == '{')
            ||| (i >= 2 && line[i - 2] == ':' && line[i - 1] == ' ')
        }
}

/// Decide `spec_symbol_use` by scanning every position.
pub fn symbol_use(line: &Vec<char>, sym: &Vec<char>) -> (r: bool)
    requires
        sym@.len() >= 1,
    ensures
        r == spec_symbol_use(line@, sym@),
{
    let len = line.len();
    if sym.len() > len {
        assert(forall|k: int| token_at(line@, k, sym@) ==> k + sym@.len() <= line@.len());
        return false;
    }
    let mut i: usize = 0;
    while i <= len - sym.len()
        invariant
            sym@.len() >= 1,
            sym@.len() <= line@.len(),
            len == line@.len(),
            i <= line@.len(),
            forall|k: int|
                0 <= k < i ==> !(#[trigger] token_at(line@, k, sym@) && {
                    let after = k + sym@.len();
                    ||| (after < line@.len() && (line@[after] == '(' || line@[after] == '{'
                        || line@[after] == '.' || line@[after] == ':'))
                    ||| (after + 1 < line@.len() && line@[after] == ' ' && line@[after + 1] == '{')
                    ||| (k >= 2 && line@[k - 2] == ':' && line@[k - 1] == ' ')
                }),
        decreases len - i,
    {
        if occurs_at(line, i, sym) && (i == 0 || !ident_char(line[i - 1])) {
            let after = i + sym.len();
            let hit = (after < len && (line[after] == '(' || line[after] == '{' || line[after]
                == '.' || line[after] == ':')) || (after < len && line[after] == ' ' && after + 1
                < len && line[after + 1] == '{') || (i >= 2 && line[i - 2] == ':' && line[i - 1]
                == ' ');
            if hit {
                assert(token_at(line@, i as int, sym@));
                assert(spec_symbol_use(line@, sym@));
                return true;
            }
        }
        i += 1;
    }
    assert(forall|k: int| token_at(line@, k, sym@) ==> 0 <= k < i);
    false
}

/// Extract the imported symbols of an import line: every maximal
/// identifier run of the import region, keywords and one-letter names
/// aside.
pub fn extract_symbols(line: &Vec<char>, eco: Ecosystem) -> (r: Vec<Vec<char>>)
    ensures
        forall|k: int| 0 <= k < r@.len() ==> spec_import_symbol(line@, eco, (#[trigger] r@[k])@),
        forall|k: int| 0 <= k < r@.len() ==> (#[trigger] r@[k])@.len() >= 2,
        forall|sym: Seq<char>|
            #[trigger] spec_import_symbol(line@, eco, sym) ==> exists|k: int|
                0 <= k < r@.len() && r@[k]@ == sym,
{
    let rs = region_start(line, eco);
    let len = line.len();
    let mut syms: Vec<Vec<char>> = Vec::new();
    let mut pos: usize = rs;
    while pos < len
        invariant
            rs as int == spec_region_start(line@, eco),
            rs <= pos,
            len == line@.len(),
            forall|k: int|
                0 <= k < syms@.len() ==> spec_import_symbol(line@, eco, (#[trigger] syms@[k])@),
            forall|k: int| 0 <= k < syms@.len() ==> (#[trigger] syms@[k])@.len() >= 2,
            forall|i: int, j: int|
                (#[trigger] ident_run_at(line@, i, j)) && rs <= i < pos && j - i >= 2
                    && !spec_reserved_word(line@.subrange(i, j)) ==> exists|k: int|
                    0 <= k < syms@.len() && syms@[k]@ == line@.subrange(i, j),
        decreases len - pos,
    {
        if ident_char(line[pos]) && (pos == 0 || !ident_char(line[pos - 1])) {
            let mut j: usize = pos + 1;
            while j < len && ident_char(line[j])
                invariant
                    pos < j <= len,
                    len == line@.len(),
                    forall|k: int| pos <= k < j ==> is_ident_char(#[trigger] line@[k]),
                decreases len - j,
            {
                j += 1;
            }
            assert(ident_run_at(line@, pos as int, j as int));
            let mut sym: Vec<char> = Vec::new();
            let mut c: usize = pos;
            while c < j
                invariant
                    pos <= c <= j <= len,
                    len == line@.len(),
                    sym@ =~= line@.subrange(pos as int, c as int),
                decreases j - c,
            {
                sym.push(line[c]);
                assert(sym@ =~= line@.subrange(pos as int, c + 1 as int));
                c += 1;
            }
            assert(sym@ == line@.subrange(pos as int, j as int));
            let keep = j - pos >= 2 && !reserved_word(&sym);
            let ghost pre = syms@;
            let ghost sym_view = sym@;
            if keep {
                syms.push(sym);
            }
            proof {
                let oldpos = pos as int;
                let run_end = j as int;
                assert forall|i2: int, j2: int|
                    (#[trigger] ident_run_at(line@, i2, j2)) && rs <= i2 < run_end && j2 - i2 >= 2
                        && !spec_reserved_word(line@.subrange(i2, j2)) implies exists|k: int|
                    0 <= k < syms@.len() && syms@[k]@ == line@.subrange(i2, j2) by {
                    if i2 < oldpos {
                        let k = choose|k: int|
                            0 <= k < pre.len() && pre[k]@ == line@.subrange(i2, j2);
                        assert(syms@[k]@ == line@.subrange(i2, j2));
                    } else if i2 == oldpos {
                        lemma_run_end_unique(line@, i2, j2, run_end);
                        assert(syms@[syms@.len() - 1]@ == line@.subrange(i2, j2));
                    } else {
                        assert(is_ident_char(line@[i2 - 1]));
                        assert(false);
                    }
                }
            }
            pos = j;
        } else {
            proof {
                assert forall|j2: int| !ident_run_at(line@, pos as int, j2) by {
                    if ident_run_at(line@, pos as int, j2) {
                        assert(is_ident_char(line@[pos as int]));
                    }
                }
            }
            pos += 1;
        }
    }
    proof {
        assert forall|sym: Seq<char>| #[trigger] spec_import_symbol(line@, eco, sym) implies exists|
            k: int,
        | 0 <= k < syms@.len() && syms@[k]@ == sym by {
            let (i, j) = choose|i: int, j: int|
                {
                    &&& #[trigger] ident_run_at(line@, i, j)
                    &&& i >= spec_region_start(line@, eco)
                    &&& j - i >= 2
                    &&& sym == line@.subrange(i, j)
                    &&& !spec_reserved_word(sym)
                };
            assert(ident_run_at(line@, i, j) && rs <= i < pos && j - i >= 2 && !spec_reserved_word(
                line@.subrange(i, j),
            ));
        }
    }
    syms
}

/// Decide whether any of the symbols is used on the line.
pub fn any_symbol_use(line: &Vec<char>, syms: &Vec<Vec<char>>) -> (r: bool)
    requires
        forall|k: int| 0 <= k < syms@.len() ==> (#[trigger] syms@[k])@.len() >= 1,
    ensures
        r == exists|k: int| 0 <= k < syms@.len() && spec_symbol_use(line@, (#[trigger] syms@[k])@),
{
    let mut k: usize = 0;
    while k < syms.len()
        invariant
            forall|m: int| 0 <= m < syms@.len() ==> (#[trigger] syms@[m])@.len() >= 1,
            k <= syms@.len(),
            forall|m: int| 0 <= m < k ==> !spec_symbol_use(line@, (#[trigger] syms@[m])@),
        decreases syms.len() - k,
    {
        if symbol_use(line, &syms[k]) {
            return true;
        }
        k += 1;
    }
    false
}

/// The imported-symbol rule, line pair by line pair: the import line
/// names the dependency and brings a symbol in, and the code line uses
/// that symbol.
pub open spec fn spec_symbol_evidence(
    name: Seq<char>,
    import_line: Seq<char>,
    code_line: Seq<char>,
    eco: Ecosystem,
) -> bool {
    spec_import_match(name, import_line, eco) && exists|sym: Seq<char>|
        #[trigger] spec_import_symbol(import_line, eco, sym) && spec_symbol_use(code_line, sym)
}

/// Decide the imported-symbol rule for one pair of lines.
pub fn symbol_evidence(
    name: &Vec<char>,
    import_line: &Vec<char>,
    code_line: &Vec<char>,
    eco: Ecosystem,
) -> (r: bool)
    requires
        name@.len() >= 1,
    ensures
        r == spec_symbol_evidence(name@, import_line@, code_line@, eco),
{
    if !import_match(name, import_line, eco) {
        return false;
    }
    let syms = extract_symbols(import_line, eco);
    let used = any_symbol_use(code_line, &syms);
    proof {
        if used {
            let k = choose|k: int|
                0 <= k < syms@.len() && spec_symbol_use(code_line@, (#[trigger] syms@[k])@);
            assert(spec_import_symbol(import_line@, eco, syms@[k]@));
        } else {
            if spec_symbol_evidence(name@, import_line@, code_line@, eco) {
                let sym = choose|sym: Seq<char>|
                    #[trigger] spec_import_symbol(import_line@, eco, sym) && spec_symbol_use(
                        code_line@,
                        sym,
                    );
                let k = choose|k: int| 0 <= k < syms@.len() && syms@[k]@ == sym;
                assert(spec_symbol_use(code_line@, syms@[k]@));
                assert(false);
            }
        }
    }
    used
}

/// Decide whether any direct rule matches the line.
pub fn direct_match(name: &Vec<char>, line: &Vec<char>, eco: Ecosystem) -> (r: bool)
    requires
        name@.len() >= 1,
    ensures
        r == spec_direct_match(name@, line@, eco),
{
    import_match(name, line, eco) || qualified_match(name, line, eco) || invocation_match(
        name,
        line,
        eco,
    ) || alias_match(name, line, eco) || attribute_match(name, line, eco)
}

/// Line `i` of the file is attributed to the dependency: it is effective
/// code, and a direct rule matches it or a symbol imported for the
/// dependency anywhere in the file is used on it.
pub open spec fn spec_line_hit(
    name: Seq<char>,
    lines: Seq<Seq<char>>,
    eco: Ecosystem,
    i: int,
) -> bool {
    spec_line_effective(lines, eco, i) && (spec_direct_match(name, lines[i], eco) || exists|j: int|
        0 <= j < lines.len() && #[trigger] spec_symbol_evidence(name, lines[j], lines[i], eco))
}

/// The set of lines attributed to the dependency in this file, as flags.
pub fn line_hits(name: &Vec<char>, lines: &Vec<Vec<char>>, eco: Ecosystem) -> (r: Vec<bool>)
    requires
        name@.len() >= 1,
    ensures
        r@.len() == lines@.len(),
        forall|i: int|
            0 <= i < lines@.len() ==> r@[i] == spec_line_hit(name@, line_views(lines@), eco, i),
{
    let eff = effective_flags(lines, eco);
    let mut r: Vec<bool> = Vec::new();
    let mut i: usize = 0;
    while i < lines.len()
        invariant
            name@.len() >= 1,
            i <= lines@.len(),
            r@.len() == i,
            eff@.len() == lines@.len(),
            forall|k: int|
                0 <= k < lines@.len() ==> eff@[k] == spec_line_effective(line_views(lines@), eco, k),
            forall|k: int|
                0 <= k < i ==> r@[k] == spec_line_hit(name@, line_views(lines@), eco, k),
        decreases lines.len() - i,
    {
        assert(line_views(lines@)[i as int] == lines@[i as int]@);
        let hit: bool = if !eff[i] {
            false
        } else if direct_match(name, &lines[i], eco) {
            true
        } else {
            let mut j: usize = 0;
            let mut found: bool = false;
            while j < lines.len() && !found
                invariant
                    name@.len() >= 1,
                    i < lines@.len(),
                    j <= lines@.len(),
                    found ==> exists|j2: int|
                        0 <= j2 < lines@.len() && #[trigger] spec_symbol_evidence(
                            name@,
                            line_views(lines@)[j2],
                            line_views(lines@)[i as int],
                            eco,
                        ),
                    !found ==> forall|j2: int|
                        0 <= j2 < j ==> !spec_symbol_evidence(
                            name@,
                            #[trigger] line_views(lines@)[j2],
                            line_views(lines@)[i as int],
                            eco,
                        ),
                decreases (if found { 0int } else { 1int }), lines.len() - j,
            {
                assert(line_views(lines@)[j as int] == lines@[j as int]@);
                if symbol_evidence(name, &lines[j], &lines[i], eco) {
                    found = true;
                    assert(spec_symbol_evidence(
                        name@,
                        line_views(lines@)[j as int],
                        line_views(lines@)[i as int],
                        eco,
                    ));
                } else {
                    j += 1;
                }
            }
            found
        };
        r.push(hit);
        i += 1;
    }
    r
}

} // verus!
