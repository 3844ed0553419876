//! The project-type detector: recognizing a manifest file and parsing it
//! into an ordered list of declared dependencies.
//!
//! Parsing is line-oriented, as the rest of the analyzer is. A `Cargo.toml`
//! yields the entries of its `[dependencies]` sections; a `package.json`
//! the entries of its `"dependencies"` block; a `requirements.txt` its
//! requirement lines. Lines that do not fit these shapes are skipped, and
//! an unrecognized or unparsable manifest degrades to an empty dependency
//! list rather than failing the analysis. A missing version is reported
//! as `*`; where an entry holds several quoted values, the first quoted
//! value is taken for the version, a documented approximation.

use vstd::prelude::*;

use crate::ecosystem::Ecosystem;
use crate::classify::line_views;
use crate::matcher::{pat1, pat8n};
use crate::text::{first_at, first_nonspace, find_from, is_at, is_ident_char, ident_char,
    lemma_first_at, occurs_at, skip_spaces};

verus! {

/// A dependency declared by the manifest: its name and version.
pub struct DeclaredDependency {
    pub name: Vec<char>,
    pub declared_version: Vec<char>,
}

impl View for DeclaredDependency {
    type V = (Seq<char>, Seq<char>);

    open spec fn view(&self) -> (Seq<char>, Seq<char>) {
        (self.name@, self.declared_version@)
    }
}

/// A manifest file handed to the detector: its file name and its lines.
pub struct ManifestFile {
    pub file_name: Vec<char>,
    pub lines: Vec<Vec<char>>,
}

/// The name `Cargo.toml`.
pub open spec fn kw_cargo_toml() -> Seq<char> {
    seq!['C', 'a', 'r', 'g', 'o', '.', 't', 'o', 'm', 'l']
}

/// The name `package.json`.
pub open spec fn kw_package_json() -> Seq<char> {
    seq!['p', 'a', 'c', 'k', 'a', 'g', 'e', '.', 'j', 's', 'o', 'n']
}

/// The name `requirements.txt`.
pub open spec fn kw_requirements_txt() -> Seq<char> {
    seq!['r', 'e', 'q', 'u', 'i', 'r', 'e', 'm', 'e', 'n', 't', 's', '.', 't', 'x', 't']
}

/// The section header `[dependencies`.
pub open spec fn kw_deps_header() -> Seq<char> {
    seq!['[', 'd', 'e', 'p', 'e', 'n', 'd', 'e', 'n', 'c', 'i', 'e', 's']
}

/// The block key `"dependencies"`.
pub open spec fn kw_deps_key() -> Seq<char> {
    seq!['"', 'd', 'e', 'p', 'e', 'n', 'd', 'e', 'n', 'c', 'i', 'e', 's', '"']
}

/// The ecosystem a manifest file name stands for.
pub open spec fn spec_manifest_ecosystem(file_name: Seq<char>) -> Ecosystem {
    if file_name == kw_cargo_toml() {
        Ecosystem::Rust
    } else if file_name == kw_package_json() {
        Ecosystem::JavaScript
    } else if file_name == kw_requirements_txt() {
        Ecosystem::Python
    } else {
        Ecosystem::Unknown
    }
}

/// Build `Cargo.toml`.
fn pat_cargo_toml() -> (r: Vec<char>)
    ensures
        r@ == kw_cargo_toml(),
{
    let mut v = pat8n(8, 'C', 'a', 'r', 'g', 'o', '.', 't', 'o');
    v.push('m');
    v.push('l');
    assert(v@ =~= kw_cargo_toml());
    v
}

/// Build `package.json`.
fn pat_package_json() -> (r: Vec<char>)
    ensures
        r@ == kw_package_json(),
{
    let mut v = pat8n(8, 'p', 'a', 'c', 'k', 'a', 'g', 'e', '.');
    v.push('j');
    v.push('s');
    v.push('o');
    v.push('n');
    assert(v@ =~= kw_package_json());
    v
}

/// Build `requirements.txt`.
fn pat_requirements_txt() -> (r: Vec<char>)
    ensures
        r@ == kw_requirements_txt(),
{
    let mut v = pat8n(8, 'r', 'e', 'q', 'u', 'i', 'r', 'e', 'm');
    v.push('e');
    v.push('n');
    v.push('t');
    v.push('s');
    v.push('.');
    v.push('t');
    v.push('x');
    v.push('t');
    assert(v@ =~= kw_requirements_txt());
    v
}

/// Build `[dependencies`.
fn pat_deps_header() -> (r: Vec<char>)
    ensures
        r@ == kw_deps_header(),
{
    let mut v = pat8n(8, '[', 'd', 'e', 'p', 'e', 'n', 'd', 'e');
    v.push('n');
    v.push('c');
    v.push('i');
    v.push('e');
    v.push('s');
    assert(v@ =~= kw_deps_header());
    v
}

/// Build `"dependencies"`.
fn pat_deps_key() -> (r: Vec<char>)
    ensures
        r@ == kw_deps_key(),
{
    let mut v = pat8n(8, '"', 'd', 'e', 'p', 'e', 'n', 'd', 'e');
    v.push('n');
    v.push('c');
    v.push('i');
    v.push('e');
    v.push('s');
    v.push('"');
    assert(v@ =~= kw_deps_key());
    v
}

/// Classify a manifest file name.
pub fn manifest_ecosystem(file_name: &Vec<char>) -> (r: Ecosystem)
    ensures
        r == spec_manifest_ecosystem(file_name@),
{
    let cargo = pat_cargo_toml();
    let pkg = pat_package_json();
    let req = pat_requirements_txt();
    if crate::matcher::chars_eq(file_name, &cargo) {
        Ecosystem::Rust
    } else if crate::matcher::chars_eq(file_name, &pkg) {
        Ecosystem::JavaScript
    } else if crate::matcher::chars_eq(file_name, &req) {
        Ecosystem::Python
    } else {
        Ecosystem::Unknown
    }
}

/// A character that may stand in a package name.
pub open spec fn is_pkg_char(c: char, eco: Ecosystem) -> bool {
    is_ident_char(c) || c == '-' || (eco is Python && c == '.')
}

/// The end of the package-name run beginning at `from`.
pub open spec fn pkg_end(line: Seq<char>, eco: Ecosystem, from: int) -> int
    decreases line.len() - from,
{
    if from < 0 || from >= line.len() {
        line.len() as int
    } else if is_pkg_char(line[from], eco) {
        pkg_end(line, eco, from + 1)
    } else {
        from
    }
}

/// What `pkg_end` promises.
pub proof fn lemma_pkg_end(line: Seq<char>, eco: Ecosystem, from: int)
    requires
        0 <= from <= line.len(),
    ensures
        from <= pkg_end(line, eco, from) <= line.len(),
        forall|k: int| from <= k < pkg_end(line, eco, from) ==> is_pkg_char(line[k], eco),
        pkg_end(line, eco, from) < line.len() ==> !is_pkg_char(line[pkg_end(line, eco, from)], eco),
    decreases line.len() - from,
{
    if from < line.len() && is_pkg_char(line[from], eco) {
        lemma_pkg_end(line, eco, from + 1);
    }
}

/// Executable package-name character test.
pub fn pkg_char(c: char, eco: Ecosystem) -> (r: bool)
    ensures
        r == is_pkg_char(c, eco),
{
    ident_char(c) || c == '-' || (matches!(eco, Ecosystem::Python) && c == '.')
}

/// Find the end of the package-name run beginning at `from`.
pub fn scan_pkg_end(line: &Vec<char>, eco: Ecosystem, from: usize) -> (r: usize)
    requires
        from <= line@.len(),
    ensures
        r as int == pkg_end(line@, eco, from as int),
        from <= r <= line@.len(),
{
    let mut i: usize = from;
    while i < line.len() && pkg_char(line[i], eco)
        invariant
            from <= i <= line@.len(),
            pkg_end(line@, eco, from as int) == pkg_end(line@, eco, i as int),
        decreases line.len() - i,
    {
        assert(pkg_end(line@, eco, i as int) == pkg_end(line@, eco, i + 1 as int));
        i += 1;
    }
    proof {
        lemma_pkg_end(line@, eco, from as int);
    }
    i
}

/// The manifest-parser state before line `i`: whether the line stands in
/// the dependencies section of the manifest.
pub open spec fn spec_manifest_state(lines: Seq<Seq<char>>, eco: Ecosystem, i: int) -> bool
    decreases i,
{
    if i <= 0 {
        eco is Python
    } else {
        spec_manifest_step(lines[i - 1], eco, spec_manifest_state(lines, eco, i - 1))
    }
}

/// The parser state after one line.
pub open spec fn spec_manifest_step(line: Seq<char>, eco: Ecosystem, st: bool) -> bool {
    let ns = first_nonspace(line, 0);
    match eco {
        Ecosystem::Rust => {
            if ns < line.len() && line[ns] == '[' {
                is_at(line, ns, kw_deps_header())
            } else {
                st
            }
        },
        Ecosystem::JavaScript => {
            if is_at(line, ns, kw_deps_key()) {
                true
            } else if st && first_at(line, seq!['}'], 0) is Some {
                false
            } else {
                st
            }
        },
        Ecosystem::Python => true,
        Ecosystem::Unknown => false,
    }
}

/// The dependency declared on the line, given the parser state, if any.
pub open spec fn spec_line_dep(line: Seq<char>, eco: Ecosystem, st: bool) -> Option<
    (Seq<char>, Seq<char>),
> {
    if !st {
        None
    } else {
        let ns = first_nonspace(line, 0);
        match eco {
            Ecosystem::Rust => {
                if ns < line.len() && is_pkg_char(line[ns], eco) {
                    let ne = pkg_end(line, eco, ns);
                    if first_nonspace(line, ne) < line.len() && line[first_nonspace(line, ne)]
                        == '=' {
                        Some((line.subrange(ns, ne), spec_first_quoted(line, ne)))
                    } else {
                        None
                    }
                } else {
                    None
                }
            },
            Ecosystem::JavaScript => {
                if ns < line.len() && line[ns] == '"' && !is_at(line, ns, kw_deps_key()) {
                    match first_at(line, seq!['"'], ns + 1) {
                        Some(q) => {
                            if q > ns + 1 {
                                Some((line.subrange(ns + 1, q), spec_first_quoted(line, q + 1)))
                            } else {
                                None
                            }
                        },
                        None => None,
                    }
                } else {
                    None
                }
            },
            Ecosystem::Python => {
                if ns < line.len() && is_pkg_char(line[ns], eco) && line[ns] != '.' && line[ns]
                    != '-' {
                    let ne = pkg_end(line, eco, ns);
                    Some((line.subrange(ns, ne), spec_req_version(line, ne)))
                } else {
                    None
                }
            },
            Ecosystem::Unknown => None,
        }
    }
}

/// The first quoted value at or after `from`, or `*` when there is none.
pub open spec fn spec_first_quoted(line: Seq<char>, from: int) -> Seq<char> {
    match first_at(line, seq!['"'], from) {
        Some(q1) => match first_at(line, seq!['"'], q1 + 1) {
            Some(q2) => line.subrange(q1 + 1, q2),
            None => seq!['*'],
        },
        None => seq!['*'],
    }
}

/// The version of a requirement line: what follows `==`, or `*`.
pub open spec fn spec_req_version(line: Seq<char>, from: int) -> Seq<char> {
    match first_at(line, seq!['=', '='], from) {
        Some(e) => line.subrange(e + 2, line.len() as int),
        None => seq!['*'],
    }
}

/// The dependencies declared by the first `i` manifest lines, in order.
pub open spec fn spec_parse_deps(lines: Seq<Seq<char>>, eco: Ecosystem, i: int) -> Seq<
    (Seq<char>, Seq<char>),
>
    decreases i,
{
    if i <= 0 {
        Seq::empty()
    } else {
        let prev = spec_parse_deps(lines, eco, i - 1);
        match spec_line_dep(lines[i - 1], eco, spec_manifest_state(lines, eco, i - 1)) {
            Some(d) => prev.push(d),
            None => prev,
        }
    }
}

/// Every declared dependency has a nonempty name.
pub proof fn lemma_parsed_names_nonempty(lines: Seq<Seq<char>>, eco: Ecosystem, i: int)
    ensures
        forall|k: int|
            0 <= k < spec_parse_deps(lines, eco, i).len() ==> (#[trigger] spec_parse_deps(
                lines,
                eco,
                i,
            )[k]).0.len() >= 1,
    decreases i,
{
    if i > 0 {
        lemma_parsed_names_nonempty(lines, eco, i - 1);
        let st = spec_manifest_state(lines, eco, i - 1);
        let line = lines[i - 1];
        let prev = spec_parse_deps(lines, eco, i - 1);
        let cur = spec_parse_deps(lines, eco, i);
        match spec_line_dep(line, eco, st) {
            Some(d) => {
                crate::text::lemma_first_nonspace(line, 0);
                let ns = first_nonspace(line, 0);
                match eco {
                    Ecosystem::Rust | Ecosystem::Python => {
                        lemma_pkg_end(line, eco, ns);
                        assert(pkg_end(line, eco, ns) > ns);
                    },
                    Ecosystem::JavaScript => {
                        lemma_first_at(line, seq!['"'], ns + 1);
                    },
                    Ecosystem::Unknown => {},
                }
                assert(d.0.len() >= 1);
                assert(cur == prev.push(d));
                assert forall|k: int| 0 <= k < cur.len() implies (#[trigger] cur[k]).0.len()
                    >= 1 by {
                    if k < prev.len() {
                        assert(cur[k] == prev[k]);
                    } else {
                        assert(cur[k] == d);
                    }
                }
            },
            None => {
                assert(cur == prev);
            },
        }
    }
}

/// Extract a subrange of a line as a fresh vector.
pub fn copy_range(line: &Vec<char>, from: usize, to: usize) -> (r: Vec<char>)
    requires
        from <= to <= line@.len(),
    ensures
        r@ == line@.subrange(from as int, to as int),
{
    let mut v: Vec<char> = Vec::new();
    let mut i: usize = from;
    while i < to
        invariant
            from <= i <= to <= line@.len(),
            v@ =~= line@.subrange(from as int, i as int),
        decreases to - i,
    {
        v.push(line[i]);
        assert(v@ =~= line@.subrange(from as int, i + 1 as int));
        i += 1;
    }
    assert(v@ =~= line@.subrange(from as int, to as int));
    v
}

/// Build `*`, the version reported when none is declared.
fn star() -> (r: Vec<char>)
    ensures
        r@ == seq!['*'],
{
    pat1('*')
}

/// Extract the first quoted value at or after `from`.
fn first_quoted(line: &Vec<char>, from: usize) -> (r: Vec<char>)
    requires
        from <= line@.len(),
    ensures
        r@ == spec_first_quoted(line@, from as int),
{
    let len = line.len();
    let quote = pat1('"');
    match find_from(line, &quote, from) {
        Some(q1) => {
            proof {
                lemma_first_at(line@, seq!['"'], from as int);
            }
            assert(q1 < line@.len());
            match find_from(line, &quote, q1 + 1) {
                Some(q2) => {
                    proof {
                        lemma_first_at(line@, seq!['"'], q1 + 1 as int);
                    }
                    copy_range(line, q1 + 1, q2)
                },
                None => star(),
            }
        },
        None => star(),
    }
}

/// One step of the manifest parser state.
pub fn manifest_step(line: &Vec<char>, eco: Ecosystem, st: bool) -> (r: bool)
    ensures
        r == spec_manifest_step(line@, eco, st),
{
    let ns = skip_spaces(line);
    match eco {
        Ecosystem::Rust => {
            if ns < line.len() && line[ns] == '[' {
                let hdr = pat_deps_header();
                occurs_at(line, ns, &hdr)
            } else {
                st
            }
        },
        Ecosystem::JavaScript => {
            let key = pat_deps_key();
            if occurs_at(line, ns, &key) {
                true
            } else if st {
                let close = pat1('}');
                match find_from(line, &close, 0) {
                    Some(_) => false,
                    None => st,
                }
            } else {
                st
            }
        },
        Ecosystem::Python => true,
        Ecosystem::Unknown => false,
    }
}

/// Parse the dependency declared on one line, if any.
pub fn line_dep(line: &Vec<char>, eco: Ecosystem, st: bool) -> (r: Option<DeclaredDependency>)
    ensures
        match r {
            Some(d) => spec_line_dep(line@, eco, st) == Some(d@),
            None => spec_line_dep(line@, eco, st) is None,
        },
{
    if !st {
        return None;
    }
    let ns = skip_spaces(line);
    proof {
        crate::text::lemma_first_nonspace(line@, 0);
    }
    match eco {
        Ecosystem::Rust => {
            if ns < line.len() && (ident_char(line[ns]) || line[ns] == '-') {
                let ne = scan_pkg_end(line, eco, ns);
                let nx = {
                    let mut i: usize = ne;
                    while i < line.len() && crate::text::space_char(line[i])
                        invariant
                            ne <= i <= line@.len(),
                            first_nonspace(line@, ne as int) == first_nonspace(line@, i as int),
                        decreases line.len() - i,
                    {
                        assert(first_nonspace(line@, i as int) == first_nonspace(
                            line@,
                            i + 1 as int,
                        ));
                        i += 1;
                    }
                    i
                };
                if nx < line.len() && line[nx] == '=' {
                    let name = copy_range(line, ns, ne);
                    let version = first_quoted(line, ne);
                    Some(DeclaredDependency { name, declared_version: version })
                } else {
                    None
                }
            } else {
                None
            }
        },
        Ecosystem::JavaScript => {
            let key = pat_deps_key();
            if ns < line.len() && line[ns] == '"' && !occurs_at(line, ns, &key) {
                let quote = pat1('"');
                assert(ns + 1 <= line@.len());
                match find_from(line, &quote, ns + 1) {
                    Some(q) => {
                        proof {
                            lemma_first_at(line@, seq!['"'], ns + 1 as int);
                        }
                        if q > ns + 1 {
                            let name = copy_range(line, ns + 1, q);
                            assert(q + 1 <= line@.len());
                            let version = first_quoted(line, q + 1);
                            Some(DeclaredDependency { name, declared_version: version })
                        } else {
                            None
                        }
                    },
                    None => None,
                }
            } else {
                None
            }
        },
        Ecosystem::Python => {
            if ns < line.len() && ident_char(line[ns]) {
                let ne = scan_pkg_end(line, eco, ns);
                let name = copy_range(line, ns, ne);
                let eq = pat2_eq();
                let version = match find_from(line, &eq, ne) {
                    Some(e) => {
                        proof {
                            lemma_first_at(line@, seq!['=', '='], ne as int);
                        }
                        copy_range(line, e + 2, line.len())
                    },
                    None => star(),
                };
                Some(DeclaredDependency { name, declared_version: version })
            } else {
                None
            }
        },
        Ecosystem::Unknown => None,
    }
}

/// Build `==`.
fn pat2_eq() -> (r: Vec<char>)
    ensures
        r@ == seq!['=', '='],
{
    crate::matcher::pat2('=', '=')
}

/// Parse a manifest's lines into its declared dependencies, in file
/// order.
pub fn parse_deps(lines: &Vec<Vec<char>>, eco: Ecosystem) -> (r: Vec<DeclaredDependency>)
    ensures
        r@.map_values(|d: DeclaredDependency| d@) == spec_parse_deps(
            line_views(lines@),
            eco,
            lines@.len() as int,
        ),
        forall|k: int| 0 <= k < r@.len() ==> (#[trigger] r@[k]).name@.len() >= 1,
{
    let mut deps: Vec<DeclaredDependency> = Vec::new();
    let mut st: bool = matches!(eco, Ecosystem::Python);
    let mut i: usize = 0;
    while i < lines.len()
        invariant
            i <= lines@.len(),
            st == spec_manifest_state(line_views(lines@), eco, i as int),
            deps@.map_values(|d: DeclaredDependency| d@) == spec_parse_deps(
                line_views(lines@),
                eco,
                i as int,
            ),
            forall|k: int| 0 <= k < deps@.len() ==> (#[trigger] deps@[k]).name@.len() >= 1,
        decreases lines.len() - i,
    {
        assert(line_views(lines@)[i as int] == lines@[i as int]@);
        let ghost pre = deps@;
        match line_dep(&lines[i], eco, st) {
            Some(d) => {
                proof {
                    lemma_parsed_names_nonempty(line_views(lines@), eco, i + 1 as int);
                    let parsed = spec_parse_deps(line_views(lines@), eco, i + 1 as int);
                    assert(parsed[parsed.len() - 1].0.len() >= 1);
                }
                deps.push(d);
                assert(deps@.map_values(|x: DeclaredDependency| x@) =~= pre.map_values(
                    |x: DeclaredDependency| x@,
                ).push(deps@[deps@.len() - 1]@));
            },
            None => {},
        }
        let next = manifest_step(&lines[i], eco, st);
        st = next;
        i += 1;
    }
    deps
}

/// Detect the project type and its declared dependencies. A missing or
/// unrecognized manifest is not an error: the ecosystem is `Unknown` and
/// the dependency list empty.
pub fn detect(manifest: &Option<ManifestFile>) -> (r: (Ecosystem, Vec<DeclaredDependency>))
    ensures
        match manifest {
            Some(m) => {
                &&& r.0 == spec_manifest_ecosystem(m.file_name@)
                &&& r.1@.map_values(|d: DeclaredDependency| d@) == spec_parse_deps(
                    line_views(m.lines@),
                    spec_manifest_ecosystem(m.file_name@),
                    m.lines@.len() as int,
                )
            },
            None => r.0 is Unknown && r.1@.len() == 0,
        },
        forall|k: int| 0 <= k < r.1@.len() ==> (#[trigger] r.1@[k]).name@.len() >= 1,
{
    match manifest {
        Some(m) => {
            let eco = manifest_ecosystem(&m.file_name);
            let deps = parse_deps(&m.lines, eco);
            (eco, deps)
        },
        None => (Ecosystem::Unknown, Vec::new()),
    }
}

} // verus!
