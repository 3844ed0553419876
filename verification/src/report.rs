//! The analysis report: per-file statistics, per-dependency usage, and
//! the assembled project analysis.

use vstd::prelude::*;

use crate::classify::{effective_count, line_views, spec_effective_count, spec_line_effective,
    lemma_effective_count_le};
use crate::ecosystem::{spec_ecosystem_of_extension, Ecosystem};
use crate::manifest::{copy_range, DeclaredDependency, ManifestFile};
use crate::matcher::{import_match, invocation_match, line_hits, qualified_match,
    spec_import_match, spec_invocation_match, spec_line_hit, spec_qualified_match};

verus! {

/// A file handed to the analyzer by the directory walker. `content` is
/// `None` when the file could not be read or decoded; such a file is
/// skipped, never failing the analysis.
pub struct ScannedFile {
    pub relative_path: Vec<char>,
    pub extension: Vec<char>,
    pub size_in_bytes: u64,
    pub content: Option<Vec<Vec<char>>>,
}

/// One analyzed source file of the report.
pub struct SourceFile {
    pub relative_path: Vec<char>,
    pub extension: Vec<char>,
    pub size_in_bytes: u64,
    pub total_line_count: u64,
    pub effective_code_line_count: u64,
    pub has_import_evidence: bool,
    pub has_function_evidence: bool,
}

/// Usage statistics of one declared dependency. The percentage is kept
/// exactly, in hundredths of a percent, rounded down.
pub struct DependencyUsage {
    pub name: Vec<char>,
    pub version: Vec<char>,
    pub unique_used_line_count: u64,
    pub percentage_of_total_code_hundredths: u64,
    pub import_occurrence_count: u64,
}

/// The simplified projection of a dependency row.
pub struct SimplifiedDependencyUsage {
    pub name: Vec<char>,
    pub unique_used_line_count: u64,
    pub percentage_of_total_code_hundredths: u64,
}

/// The root result of one analysis run.
pub struct ProjectAnalysis {
    pub files: Vec<SourceFile>,
    pub dependency_usage: Vec<DependencyUsage>,
    pub total_import_statement_count: u64,
    pub total_code_lines: u64,
    pub detected_project_type: Ecosystem,
}

/// The ecosystem of a scanned file, from its extension.
pub open spec fn file_eco(f: ScannedFile) -> Ecosystem {
    spec_ecosystem_of_extension(f.extension@)
}

/// How many of the first `i` lines are attributed to the dependency.
pub open spec fn spec_hit_count(
    name: Seq<char>,
    lines: Seq<Seq<char>>,
    eco: Ecosystem,
    i: int,
) -> nat
    decreases i,
{
    if i <= 0 {
        0
    } else {
        spec_hit_count(name, lines, eco, i - 1) + (if spec_line_hit(name, lines, eco, i - 1) {
            1nat
        } else {
            0nat
        })
    }
}

/// How many of the first `i` lines are attributed to the dependency and
/// fall within the first twenty lines of the file: the documented proxy
/// for an import statement.
pub open spec fn spec_early_hit_count(
    name: Seq<char>,
    lines: Seq<Seq<char>>,
    eco: Ecosystem,
    i: int,
) -> nat
    decreases i,
{
    if i <= 0 {
        0
    } else {
        spec_early_hit_count(name, lines, eco, i - 1) + (if spec_line_hit(name, lines, eco, i - 1)
            && i - 1 < 20 {
            1nat
        } else {
            0nat
        })
    }
}

/// Attributed lines are never more numerous than effective lines.
pub proof fn lemma_hit_count_le_effective(
    name: Seq<char>,
    lines: Seq<Seq<char>>,
    eco: Ecosystem,
    i: int,
)
    requires
        i >= 0,
    ensures
        spec_hit_count(name, lines, eco, i) <= spec_effective_count(lines, eco, i),
    decreases i,
{
    if i > 0 {
        lemma_hit_count_le_effective(name, lines, eco, i - 1);
    }
}

/// Early attributed lines are never more numerous than attributed lines.
pub proof fn lemma_early_le_hit(name: Seq<char>, lines: Seq<Seq<char>>, eco: Ecosystem, i: int)
    requires
        i >= 0,
    ensures
        spec_early_hit_count(name, lines, eco, i) <= spec_hit_count(name, lines, eco, i),
    decreases i,
{
    if i > 0 {
        lemma_early_le_hit(name, lines, eco, i - 1);
    }
}

/// Count a dependency's attributed lines in one file: all of them, and
/// those within the first twenty lines.
pub fn file_dep_counts(name: &Vec<char>, lines: &Vec<Vec<char>>, eco: Ecosystem) -> (r: (
    usize,
    usize,
))
    requires
        name@.len() >= 1,
    ensures
        r.0 == spec_hit_count(name@, line_views(lines@), eco, lines@.len() as int),
        r.1 == spec_early_hit_count(name@, line_views(lines@), eco, lines@.len() as int),
        r.1 <= r.0 <= lines@.len(),
{
    let hits = line_hits(name, lines, eco);
    let mut count: usize = 0;
    let mut early: usize = 0;
    let mut i: usize = 0;
    while i < hits.len()
        invariant
            hits@.len() == lines@.len(),
            i <= hits@.len(),
            forall|k: int|
                0 <= k < hits@.len() ==> hits@[k] == spec_line_hit(
                    name@,
                    line_views(lines@),
                    eco,
                    k,
                ),
            count == spec_hit_count(name@, line_views(lines@), eco, i as int),
            early == spec_early_hit_count(name@, line_views(lines@), eco, i as int),
            early <= count <= i,
        decreases hits.len() - i,
    {
        if hits[i] {
            count += 1;
            if i < 20 {
                early += 1;
            }
        }
        i += 1;
    }
    (count, early)
}

/// Some declared dependency matches the import-syntax rule somewhere in
/// the file.
pub open spec fn spec_file_has_import(
    deps: Seq<(Seq<char>, Seq<char>)>,
    lines: Seq<Seq<char>>,
    eco: Ecosystem,
) -> bool {
    exists|d: int, j: int|
        0 <= d < deps.len() && 0 <= j < lines.len() && spec_import_match(
            (#[trigger] deps[d]).0,
            #[trigger] lines[j],
            eco,
        )
}

/// Some declared dependency matches the qualified-access or invocation
/// rule somewhere in the file.
pub open spec fn spec_file_has_function(
    deps: Seq<(Seq<char>, Seq<char>)>,
    lines: Seq<Seq<char>>,
    eco: Ecosystem,
) -> bool {
    exists|d: int, j: int|
        0 <= d < deps.len() && 0 <= j < lines.len() && (spec_qualified_match(
            (#[trigger] deps[d]).0,
            #[trigger] lines[j],
            eco,
        ) || spec_invocation_match(deps[d].0, lines[j], eco))
}

/// The pair views of declared dependencies.
pub open spec fn dep_views(deps: Seq<DeclaredDependency>) -> Seq<(Seq<char>, Seq<char>)> {
    deps.map_values(|d: DeclaredDependency| d@)
}

/// The lines of a scanned file; an unreadable file has none.
pub open spec fn file_lines_of(f: ScannedFile) -> Seq<Seq<char>> {
    match f.content {
        Some(ls) => line_views(ls@),
        None => Seq::empty(),
    }
}

/// The line count of a scanned file; an unreadable file counts none.
pub open spec fn file_total_lines(f: ScannedFile) -> nat {
    file_lines_of(f).len()
}

/// The effective code lines of a scanned file.
pub open spec fn file_effective(f: ScannedFile) -> nat {
    spec_effective_count(file_lines_of(f), file_eco(f), file_total_lines(f) as int)
}

/// The readable files among the first `i`, in order.
pub open spec fn spec_kept(files: Seq<ScannedFile>, i: int) -> Seq<ScannedFile>
    decreases i,
{
    if i <= 0 {
        Seq::empty()
    } else {
        let prev = spec_kept(files, i - 1);
        match files[i - 1].content {
            Some(_) => prev.push(files[i - 1]),
            None => prev,
        }
    }
}

/// The total line count of the first `i` files.
pub open spec fn spec_total_lines(files: Seq<ScannedFile>, i: int) -> nat
    decreases i,
{
    if i <= 0 {
        0
    } else {
        spec_total_lines(files, i - 1) + file_total_lines(files[i - 1])
    }
}

/// The total effective code lines of the first `i` files: the
/// denominator of every usage percentage.
pub open spec fn spec_total_effective(files: Seq<ScannedFile>, i: int) -> nat
    decreases i,
{
    if i <= 0 {
        0
    } else {
        spec_total_effective(files, i - 1) + file_effective(files[i - 1])
    }
}

/// The dependency's unique used line count over the first `i` files: the
/// size of the union of its per-file line sets, which are disjoint
/// across files.
pub open spec fn spec_dep_unique(name: Seq<char>, files: Seq<ScannedFile>, i: int) -> nat
    decreases i,
{
    if i <= 0 {
        0
    } else {
        spec_dep_unique(name, files, i - 1) + spec_hit_count(
            name,
            file_lines_of(files[i - 1]),
            file_eco(files[i - 1]),
            file_total_lines(files[i - 1]) as int,
        )
    }
}

/// The dependency's import occurrences over the first `i` files.
pub open spec fn spec_dep_occ(name: Seq<char>, files: Seq<ScannedFile>, i: int) -> nat
    decreases i,
{
    if i <= 0 {
        0
    } else {
        spec_dep_occ(name, files, i - 1) + spec_early_hit_count(
            name,
            file_lines_of(files[i - 1]),
            file_eco(files[i - 1]),
            file_total_lines(files[i - 1]) as int,
        )
    }
}

/// Effective lines never outnumber lines.
pub proof fn lemma_total_effective_le_lines(files: Seq<ScannedFile>, i: int)
    requires
        i >= 0,
    ensures
        spec_total_effective(files, i) <= spec_total_lines(files, i),
    decreases i,
{
    if i > 0 {
        lemma_total_effective_le_lines(files, i - 1);
        lemma_effective_count_le(
            file_lines_of(files[i - 1]),
            file_eco(files[i - 1]),
            file_total_lines(files[i - 1]) as int,
        );
    }
}

/// Line totals grow with the file prefix.
pub proof fn lemma_total_lines_mono(files: Seq<ScannedFile>, i: int, j: int)
    requires
        0 <= i <= j,
    ensures
        spec_total_lines(files, i) <= spec_total_lines(files, j),
    decreases j - i,
{
    if i < j {
        lemma_total_lines_mono(files, i, j - 1);
    }
}

/// A dependency's counts are bounded by the effective line total.
pub proof fn lemma_dep_counts_le(name: Seq<char>, files: Seq<ScannedFile>, i: int)
    requires
        i >= 0,
    ensures
        spec_dep_occ(name, files, i) <= spec_dep_unique(name, files, i),
        spec_dep_unique(name, files, i) <= spec_total_effective(files, i),
    decreases i,
{
    if i > 0 {
        lemma_dep_counts_le(name, files, i - 1);
        let lines = file_lines_of(files[i - 1]);
        let eco = file_eco(files[i - 1]);
        let n = file_total_lines(files[i - 1]) as int;
        lemma_early_le_hit(name, lines, eco, n);
        lemma_hit_count_le_effective(name, lines, eco, n);
    }
}

/// The sum of the kept files' effective counts is the total: unreadable
/// files contribute nothing.
pub open spec fn spec_kept_effective_sum(kept: Seq<ScannedFile>, i: int) -> nat
    decreases i,
{
    if i <= 0 {
        0
    } else {
        spec_kept_effective_sum(kept, i - 1) + file_effective(kept[i - 1])
    }
}

/// An unreadable file has no effective lines, so the kept files carry
/// the whole total.
pub proof fn lemma_kept_sum(files: Seq<ScannedFile>, i: int)
    requires
        i >= 0,
    ensures
        spec_kept_effective_sum(spec_kept(files, i), spec_kept(files, i).len() as int)
            == spec_total_effective(files, i),
        spec_kept(files, i).len() <= i,
    decreases i,
{
    if i > 0 {
        lemma_kept_sum(files, i - 1);
        let prev = spec_kept(files, i - 1);
        match files[i - 1].content {
            Some(_) => {
                let cur = spec_kept(files, i);
                assert(cur == prev.push(files[i - 1]));
                assert(cur.len() as int - 1 == prev.len());
                assert forall|k: int| 0 <= k < prev.len() implies cur[k] == prev[k] by {}
                lemma_kept_sum_prefix(cur, prev, prev.len() as int);
                assert(spec_kept_effective_sum(cur, cur.len() as int)
                    == spec_kept_effective_sum(cur, cur.len() as int - 1) + file_effective(
                    cur[cur.len() - 1],
                ));
            },
            None => {
                assert(file_lines_of(files[i - 1]) == Seq::<Seq<char>>::empty());
                assert(file_effective(files[i - 1]) == 0);
            },
        }
    }
}

/// Two sequences equal on a prefix have equal prefix sums.
proof fn lemma_kept_sum_prefix(a: Seq<ScannedFile>, b: Seq<ScannedFile>, i: int)
    requires
        0 <= i <= a.len(),
        i <= b.len(),
        forall|k: int| 0 <= k < i ==> a[k] == b[k],
    ensures
        spec_kept_effective_sum(a, i) == spec_kept_effective_sum(b, i),
    decreases i,
{
    if i > 0 {
        lemma_kept_sum_prefix(a, b, i - 1);
    }
}

/// Decide `spec_file_has_import`.
pub fn file_has_import(deps: &Vec<DeclaredDependency>, lines: &Vec<Vec<char>>, eco: Ecosystem) -> (r:
    bool)
    requires
        forall|k: int| 0 <= k < deps@.len() ==> (#[trigger] deps@[k]).name@.len() >= 1,
    ensures
        r == spec_file_has_import(dep_views(deps@), line_views(lines@), eco),
{
    let mut d: usize = 0;
    while d < deps.len()
        invariant
            forall|k: int| 0 <= k < deps@.len() ==> (#[trigger] deps@[k]).name@.len() >= 1,
            d <= deps@.len(),
            forall|d2: int, j: int|
                0 <= d2 < d && 0 <= j < lines@.len() ==> !spec_import_match(
                    (#[trigger] dep_views(deps@)[d2]).0,
                    #[trigger] line_views(lines@)[j],
                    eco,
                ),
        decreases deps.len() - d,
    {
        let mut j: usize = 0;
        while j < lines.len()
            invariant
                forall|k: int| 0 <= k < deps@.len() ==> (#[trigger] deps@[k]).name@.len() >= 1,
                d < deps@.len(),
                j <= lines@.len(),
                forall|j2: int|
                    0 <= j2 < j ==> !spec_import_match(
                        dep_views(deps@)[d as int].0,
                        #[trigger] line_views(lines@)[j2],
                        eco,
                    ),
            decreases lines.len() - j,
        {
            assert(line_views(lines@)[j as int] == lines@[j as int]@);
            if import_match(&deps[d].name, &lines[j], eco) {
                assert(spec_import_match(
                    dep_views(deps@)[d as int].0,
                    line_views(lines@)[j as int],
                    eco,
                ));
                return true;
            }
            j += 1;
        }
        d += 1;
    }
    false
}

/// Decide `spec_file_has_function`.
pub fn file_has_function(
    deps: &Vec<DeclaredDependency>,
    lines: &Vec<Vec<char>>,
    eco: Ecosystem,
) -> (r: bool)
    requires
        forall|k: int| 0 <= k < deps@.len() ==> (#[trigger] deps@[k]).name@.len() >= 1,
    ensures
        r == spec_file_has_function(dep_views(deps@), line_views(lines@), eco),
{
    let mut d: usize = 0;
    while d < deps.len()
        invariant
            forall|k: int| 0 <= k < deps@.len() ==> (#[trigger] deps@[k]).name@.len() >= 1,
            d <= deps@.len(),
            forall|d2: int, j: int|
                0 <= d2 < d && 0 <= j < lines@.len() ==> !(spec_qualified_match(
                    (#[trigger] dep_views(deps@)[d2]).0,
                    #[trigger] line_views(lines@)[j],
                    eco,
                ) || spec_invocation_match(dep_views(deps@)[d2].0, line_views(lines@)[j], eco)),
        decreases deps.len() - d,
    {
        let mut j: usize = 0;
        while j < lines.len()
            invariant
                forall|k: int| 0 <= k < deps@.len() ==> (#[trigger] deps@[k]).name@.len() >= 1,
                d < deps@.len(),
                j <= lines@.len(),
                forall|j2: int|
                    0 <= j2 < j ==> !(spec_qualified_match(
                        dep_views(deps@)[d as int].0,
                        #[trigger] line_views(lines@)[j2],
                        eco,
                    ) || spec_invocation_match(
                        dep_views(deps@)[d as int].0,
                        line_views(lines@)[j2],
                        eco,
                    )),
            decreases lines.len() - j,
        {
            assert(line_views(lines@)[j as int] == lines@[j as int]@);
            if qualified_match(&deps[d].name, &lines[j], eco) || invocation_match(
                &deps[d].name,
                &lines[j],
                eco,
            ) {
                assert(dep_views(deps@)[d as int].0 == deps@[d as int].name@);
                return true;
            }
            j += 1;
        }
        d += 1;
    }
    false
}


/// The (unique count, manifest index) key of every dependency row,
/// before sorting.
pub open spec fn spec_pairs(deps: Seq<(Seq<char>, Seq<char>)>, files: Seq<ScannedFile>) -> Seq<
    (u64, usize),
> {
    Seq::new(
        deps.len(),
        |k: int|
            (spec_dep_unique(deps[k].0, files, files.len() as int) as u64, k as usize),
    )
}

/// The total of the first `d` dependencies' import occurrences.
pub open spec fn spec_total_import(
    deps: Seq<(Seq<char>, Seq<char>)>,
    files: Seq<ScannedFile>,
    d: int,
) -> nat
    decreases d,
{
    if d <= 0 {
        0
    } else {
        spec_total_import(deps, files, d - 1) + spec_dep_occ(
            deps[d - 1].0,
            files,
            files.len() as int,
        )
    }
}

/// The share of the total code, in hundredths of a percent, rounded
/// down; zero of an empty project.
pub open spec fn spec_pct(unique: nat, total: nat) -> nat {
    if total == 0 {
        0
    } else {
        unique * 10000 / total
    }
}

/// The ecosystem the detector reports for the manifest.
pub open spec fn spec_eco_of(manifest: Option<ManifestFile>) -> Ecosystem {
    match manifest {
        Some(m) => crate::manifest::spec_manifest_ecosystem(m.file_name@),
        None => Ecosystem::Unknown,
    }
}

/// The declared dependencies the detector reports for the manifest.
pub open spec fn spec_deps_of(manifest: Option<ManifestFile>) -> Seq<(Seq<char>, Seq<char>)> {
    match manifest {
        Some(m) => crate::manifest::spec_parse_deps(
            line_views(m.lines@),
            crate::manifest::spec_manifest_ecosystem(m.file_name@),
            m.lines@.len() as int,
        ),
        None => Seq::empty(),
    }
}

/// What a report row says of the scanned file it describes.
pub open spec fn source_file_ok(
    row: SourceFile,
    f: ScannedFile,
    deps: Seq<(Seq<char>, Seq<char>)>,
) -> bool {
    &&& row.relative_path@ == f.relative_path@
    &&& row.extension@ == f.extension@
    &&& row.size_in_bytes == f.size_in_bytes
    &&& row.total_line_count == file_total_lines(f)
    &&& row.effective_code_line_count == file_effective(f)
    &&& row.has_import_evidence == spec_file_has_import(deps, file_lines_of(f), file_eco(f))
    &&& row.has_function_evidence == spec_file_has_function(deps, file_lines_of(f), file_eco(f))
}

/// What a usage row says of the dependency its sort key points at.
pub open spec fn usage_row_ok(
    row: DependencyUsage,
    key: (u64, usize),
    deps: Seq<(Seq<char>, Seq<char>)>,
    files: Seq<ScannedFile>,
) -> bool {
    let idx = key.1 as int;
    &&& 0 <= idx < deps.len()
    &&& row.name@ == deps[idx].0
    &&& row.version@ == deps[idx].1
    &&& row.unique_used_line_count == key.0
    &&& row.unique_used_line_count == spec_dep_unique(deps[idx].0, files, files.len() as int)
    &&& row.import_occurrence_count == spec_dep_occ(deps[idx].0, files, files.len() as int)
    &&& row.percentage_of_total_code_hundredths == spec_pct(
        spec_dep_unique(deps[idx].0, files, files.len() as int),
        spec_total_effective(files, files.len() as int),
    )
}

/// The full functional characterization of an analysis result: every
/// field of the report is a function of the scanned files and the
/// manifest, so two runs over unchanged inputs agree field for field.
pub open spec fn analysis_of(
    a: ProjectAnalysis,
    files: Seq<ScannedFile>,
    manifest: Option<ManifestFile>,
) -> bool {
    let eco = spec_eco_of(manifest);
    let deps = spec_deps_of(manifest);
    let n = files.len() as int;
    let kept = spec_kept(files, n);
    let sorted = crate::aggregate::spec_sort_pairs(
        spec_pairs(deps, files),
        spec_pairs(deps, files).len() as int,
    );
    &&& a.detected_project_type == eco
    &&& a.total_code_lines == spec_total_effective(files, n)
    &&& a.total_import_statement_count == spec_total_import(deps, files, deps.len() as int)
    &&& a.files@.len() == kept.len()
    &&& forall|k: int|
        0 <= k < kept.len() ==> source_file_ok(#[trigger] a.files@[k], kept[k], deps)
    &&& a.dependency_usage@.len() == deps.len()
    &&& sorted.len() == deps.len()
    &&& forall|m: int|
        0 <= m < sorted.len() ==> usage_row_ok(
            #[trigger] a.dependency_usage@[m],
            sorted[m],
            deps,
            files,
        )
}

/// Copy a character vector.
pub fn copy_chars(v: &Vec<char>) -> (r: Vec<char>)
    ensures
        r@ == v@,
{
    let r = copy_range(v, 0, v.len());
    assert(v@.subrange(0, v@.len() as int) =~= v@);
    r
}

/// Analyze a scanned source tree against its manifest.
///
/// The report's files are the readable files, in order; its dependency
/// rows are one per declared dependency, sorted descending by unique
/// used line count with ties in manifest order; its totals are the sums
/// the rows show. The two bounds asked of the input keep every count
/// within its machine word.
pub fn analyze(files: &Vec<ScannedFile>, manifest: &Option<ManifestFile>) -> (r: ProjectAnalysis)
    requires
        spec_total_lines(files@, files@.len() as int) <= 0x1_0000_0000,
        spec_deps_of(*manifest).len() <= 0x1_0000,
    ensures
        analysis_of(r, files@, *manifest),
{
    let (detected, deps) = crate::manifest::detect(manifest);
    let ghost depv = spec_deps_of(*manifest);
    proof {
        assert(dep_views(deps@) =~= depv);
    }
    assert(deps@.len() == depv.len());
    let n = files.len();

    let mut rows: Vec<SourceFile> = Vec::new();
    let mut total_eff: u64 = 0;
    let mut i: usize = 0;
    while i < n
        invariant
            n == files@.len(),
            i <= n,
            spec_total_lines(files@, files@.len() as int) <= 0x1_0000_0000,
            dep_views(deps@) == depv,
            forall|k: int| 0 <= k < deps@.len() ==> (#[trigger] deps@[k]).name@.len() >= 1,
            total_eff == spec_total_effective(files@, i as int),
            rows@.len() == spec_kept(files@, i as int).len(),
            forall|k: int|
                0 <= k < rows@.len() ==> source_file_ok(
                    #[trigger] rows@[k],
                    spec_kept(files@, i as int)[k],
                    depv,
                ),
        decreases n - i,
    {
        let f = &files[i];
        let ghost fv = files@[i as int];
        match &f.content {
            Some(lines) => {
                assert(file_lines_of(fv) == line_views(lines@));
                let eco = Ecosystem::of_extension(&f.extension);
                let eff = effective_count(lines, eco);
                let has_imp = file_has_import(&deps, lines, eco);
                let has_fun = file_has_function(&deps, lines, eco);
                proof {
                    lemma_total_effective_le_lines(files@, i + 1);
                    lemma_total_lines_mono(files@, i + 1, files@.len() as int);
                }
                let row = SourceFile {
                    relative_path: copy_chars(&f.relative_path),
                    extension: copy_chars(&f.extension),
                    size_in_bytes: f.size_in_bytes,
                    total_line_count: lines.len() as u64,
                    effective_code_line_count: eff as u64,
                    has_import_evidence: has_imp,
                    has_function_evidence: has_fun,
                };
                let ghost pre = rows@;
                assert(source_file_ok(row, fv, depv));
                rows.push(row);
                total_eff = total_eff + (eff as u64);
                proof {
                    let kept1 = spec_kept(files@, i + 1 as int);
                    assert(kept1 == spec_kept(files@, i as int).push(fv));
                    assert forall|k: int| 0 <= k < rows@.len() implies source_file_ok(
                        #[trigger] rows@[k],
                        kept1[k],
                        depv,
                    ) by {
                        if k < pre.len() {
                            assert(rows@[k] == pre[k]);
                            assert(kept1[k] == spec_kept(files@, i as int)[k]);
                        } else {
                            assert(rows@[k] == row && kept1[k] == fv);
                        }
                    }
                }
            },
            None => {
                proof {
                    assert(file_lines_of(fv) == Seq::<Seq<char>>::empty());
                    assert(file_effective(fv) == 0);
                    assert(spec_kept(files@, i + 1 as int) == spec_kept(files@, i as int));
                }
            },
        }
        i += 1;
    }

    let mut pairs: Vec<(u64, usize)> = Vec::new();
    let mut occs: Vec<u64> = Vec::new();
    let mut total_import: u64 = 0;
    let mut d: usize = 0;
    while d < deps.len()
        invariant
            n == files@.len(),
            spec_total_lines(files@, files@.len() as int) <= 0x1_0000_0000,
            dep_views(deps@) == depv,
            depv.len() <= 0x1_0000,
            forall|k: int| 0 <= k < deps@.len() ==> (#[trigger] deps@[k]).name@.len() >= 1,
            d <= deps@.len(),
            deps@.len() == depv.len(),
            pairs@.len() == d,
            occs@.len() == d,
            forall|k: int| 0 <= k < d ==> pairs@[k] == spec_pairs(depv, files@)[k],
            forall|k: int|
                0 <= k < d ==> occs@[k] == spec_dep_occ(depv[k].0, files@, files@.len() as int),
            total_import == spec_total_import(depv, files@, d as int),
            total_import <= d * 0x1_0000_0000,
        decreases deps.len() - d,
    {
        let name = &deps[d].name;
        assert(depv[d as int].0 == name@);
        let mut unique: u64 = 0;
        let mut occ: u64 = 0;
        let mut i2: usize = 0;
        while i2 < n
            invariant
                n == files@.len(),
                spec_total_lines(files@, files@.len() as int) <= 0x1_0000_0000,
                name@.len() >= 1,
                i2 <= n,
                unique == spec_dep_unique(name@, files@, i2 as int),
                occ == spec_dep_occ(name@, files@, i2 as int),
            decreases n - i2,
        {
            let f2 = &files[i2];
            let ghost fv2 = files@[i2 as int];
            proof {
                lemma_dep_counts_le(name@, files@, i2 + 1);
                lemma_total_effective_le_lines(files@, i2 + 1);
                lemma_total_lines_mono(files@, i2 + 1, files@.len() as int);
            }
            match &f2.content {
                Some(lines2) => {
                    assert(file_lines_of(fv2) == line_views(lines2@));
                    let eco2 = Ecosystem::of_extension(&f2.extension);
                    let (c, e) = file_dep_counts(name, lines2, eco2);
                    unique = unique + (c as u64);
                    occ = occ + (e as u64);
                },
                None => {
                    proof {
                        assert(file_lines_of(fv2) == Seq::<Seq<char>>::empty());
                    }
                },
            }
            i2 += 1;
        }
        proof {
            lemma_dep_counts_le(name@, files@, files@.len() as int);
            lemma_total_effective_le_lines(files@, files@.len() as int);
            assert(spec_pairs(depv, files@)[d as int] == (unique, d as usize));
        }
        pairs.push((unique, d));
        occs.push(occ);
        total_import = total_import + occ;
        d += 1;
    }

    proof {
        assert(pairs@ =~= spec_pairs(depv, files@));
        crate::aggregate::lemma_sort_pairs_props(spec_pairs(depv, files@), depv.len() as int);
    }
    let sorted = crate::aggregate::sort_pairs(&pairs);
    let ghost sortedv = crate::aggregate::spec_sort_pairs(
        spec_pairs(depv, files@),
        spec_pairs(depv, files@).len() as int,
    );
    assert(sorted@ == sortedv);
    let mut urows: Vec<DependencyUsage> = Vec::new();
    let mut m: usize = 0;
    while m < sorted.len()
        invariant
            n == files@.len(),
            spec_total_lines(files@, files@.len() as int) <= 0x1_0000_0000,
            dep_views(deps@) == depv,
            deps@.len() == depv.len(),
            sorted@ == sortedv,
            sortedv == crate::aggregate::spec_sort_pairs(
                spec_pairs(depv, files@),
                spec_pairs(depv, files@).len() as int,
            ),
            sortedv.len() == depv.len(),
            forall|m2: int|
                #![trigger sortedv[m2]]
                0 <= m2 < sortedv.len() ==> exists|k: int|
                    0 <= k < depv.len() && #[trigger] spec_pairs(depv, files@)[k] == sortedv[m2],
            occs@.len() == depv.len(),
            forall|k: int|
                0 <= k < depv.len() ==> occs@[k] == spec_dep_occ(
                    depv[k].0,
                    files@,
                    files@.len() as int,
                ),
            total_eff == spec_total_effective(files@, files@.len() as int),
            m <= sortedv.len(),
            urows@.len() == m,
            forall|k: int|
                0 <= k < m ==> usage_row_ok(#[trigger] urows@[k], sortedv[k], depv, files@),
        decreases sorted.len() - m,
    {
        let p = sorted[m];
        let cnt = p.0;
        let idx = p.1;
        proof {
            let k = choose|k: int|
                0 <= k < depv.len() && #[trigger] spec_pairs(depv, files@)[k] == sortedv[m as int];
            assert(idx == k);
            lemma_dep_counts_le(depv[k].0, files@, files@.len() as int);
            lemma_total_effective_le_lines(files@, files@.len() as int);
            assert(spec_dep_unique(depv[k].0, files@, files@.len() as int) <= 0x1_0000_0000);
            assert(cnt == spec_dep_unique(depv[k].0, files@, files@.len() as int));
        }
        assert(idx < deps.len());
        let pct: u64 = if total_eff == 0 {
            0
        } else {
            assert(cnt <= total_eff);
            assert((cnt as int) * 10000 / (total_eff as int) <= 10000) by (nonlinear_arith)
                requires
                    cnt <= total_eff,
                    total_eff > 0,
            ;
            assert(cnt as int * 10000 < 0x8000_0000_0000_0000);
            (cnt * 10000) / total_eff
        };
        let row = DependencyUsage {
            name: copy_chars(&deps[idx].name),
            version: copy_chars(&deps[idx].declared_version),
            unique_used_line_count: cnt,
            percentage_of_total_code_hundredths: pct,
            import_occurrence_count: occs[idx],
        };
        assert(usage_row_ok(row, sortedv[m as int], depv, files@));
        urows.push(row);
        m += 1;
    }

    ProjectAnalysis {
        files: rows,
        dependency_usage: urows,
        total_import_statement_count: total_import,
        total_code_lines: total_eff,
        detected_project_type: detected,
    }
}


/// Build the simplified projection of the dependency rows.
pub fn simplified(a: &ProjectAnalysis) -> (r: Vec<SimplifiedDependencyUsage>)
    ensures
        r@.len() == a.dependency_usage@.len(),
        forall|k: int|
            0 <= k < r@.len() ==> {
                &&& (#[trigger] r@[k]).name@ == a.dependency_usage@[k].name@
                &&& r@[k].unique_used_line_count == a.dependency_usage@[k].unique_used_line_count
                &&& r@[k].percentage_of_total_code_hundredths
                    == a.dependency_usage@[k].percentage_of_total_code_hundredths
            },
{
    let mut out: Vec<SimplifiedDependencyUsage> = Vec::new();
    let mut k: usize = 0;
    while k < a.dependency_usage.len()
        invariant
            k <= a.dependency_usage@.len(),
            out@.len() == k,
            forall|k2: int|
                0 <= k2 < k ==> {
                    &&& (#[trigger] out@[k2]).name@ == a.dependency_usage@[k2].name@
                    &&& out@[k2].unique_used_line_count
                        == a.dependency_usage@[k2].unique_used_line_count
                    &&& out@[k2].percentage_of_total_code_hundredths
                        == a.dependency_usage@[k2].percentage_of_total_code_hundredths
                },
        decreases a.dependency_usage.len() - k,
    {
        let row = &a.dependency_usage[k];
        out.push(SimplifiedDependencyUsage {
            name: copy_chars(&row.name),
            unique_used_line_count: row.unique_used_line_count,
            percentage_of_total_code_hundredths: row.percentage_of_total_code_hundredths,
        });
        k += 1;
    }
    out
}

/// The sum of the report rows' effective line counts.
pub open spec fn spec_row_effective_sum(rows: Seq<SourceFile>, i: int) -> int
    decreases i,
{
    if i <= 0 {
        0
    } else {
        spec_row_effective_sum(rows, i - 1) + rows[i - 1].effective_code_line_count
    }
}

/// The percentage denominator is the sum of the report's per-file
/// effective line counts.
pub proof fn lemma_total_is_file_sum(
    a: ProjectAnalysis,
    files: Seq<ScannedFile>,
    manifest: Option<ManifestFile>,
)
    requires
        analysis_of(a, files, manifest),
    ensures
        spec_row_effective_sum(a.files@, a.files@.len() as int) == a.total_code_lines,
{
    let n = files.len() as int;
    let kept = spec_kept(files, n);
    lemma_kept_sum(files, n);
    lemma_row_sum_matches(a.files@, kept, kept.len() as int);
}

/// Rows that mirror the kept files sum to the kept files' total.
proof fn lemma_row_sum_matches(rows: Seq<SourceFile>, kept: Seq<ScannedFile>, i: int)
    requires
        0 <= i <= kept.len(),
        rows.len() == kept.len(),
        forall|k: int|
            0 <= k < kept.len() ==> (#[trigger] rows[k]).effective_code_line_count
                == file_effective(kept[k]),
    ensures
        spec_row_effective_sum(rows, i) == spec_kept_effective_sum(kept, i),
    decreases i,
{
    if i > 0 {
        lemma_row_sum_matches(rows, kept, i - 1);
    }
}

/// No dependency is credited more lines than the project's effective
/// total, and no percentage exceeds one hundred percent.
pub proof fn lemma_usage_bounds(
    a: ProjectAnalysis,
    files: Seq<ScannedFile>,
    manifest: Option<ManifestFile>,
)
    requires
        analysis_of(a, files, manifest),
    ensures
        forall|k: int|
            0 <= k < a.dependency_usage@.len() ==> (#[trigger] a.dependency_usage@[k]).unique_used_line_count
                <= a.total_code_lines,
        forall|k: int|
            0 <= k < a.dependency_usage@.len() ==> (#[trigger] a.dependency_usage@[k]).percentage_of_total_code_hundredths
                <= 10000,
{
    let n = files.len() as int;
    let deps = spec_deps_of(manifest);
    let total = spec_total_effective(files, n);
    assert forall|k: int| 0 <= k < a.dependency_usage@.len() implies {
        &&& (#[trigger] a.dependency_usage@[k]).unique_used_line_count <= a.total_code_lines
        &&& a.dependency_usage@[k].percentage_of_total_code_hundredths <= 10000
    } by {
        let row = a.dependency_usage@[k];
        let sorted = crate::aggregate::spec_sort_pairs(
            spec_pairs(deps, files),
            spec_pairs(deps, files).len() as int,
        );
        let idx = sorted[k].1 as int;
        let u = spec_dep_unique(deps[idx].0, files, n);
        lemma_dep_counts_le(deps[idx].0, files, n);
        if total > 0 {
            assert(u * 10000 / total <= 10000) by (nonlinear_arith)
                requires
                    u <= total,
                    total > 0,
            ;
        }
    }
}

/// Analysis is reproducible: two reports of the same scanned files and
/// manifest agree field for field.
pub proof fn lemma_analysis_deterministic(
    a1: ProjectAnalysis,
    a2: ProjectAnalysis,
    files: Seq<ScannedFile>,
    manifest: Option<ManifestFile>,
)
    requires
        analysis_of(a1, files, manifest),
        analysis_of(a2, files, manifest),
    ensures
        a1.detected_project_type == a2.detected_project_type,
        a1.total_code_lines == a2.total_code_lines,
        a1.total_import_statement_count == a2.total_import_statement_count,
        a1.files@.len() == a2.files@.len(),
        forall|k: int|
            0 <= k < a1.files@.len() ==> {
                &&& (#[trigger] a1.files@[k]).relative_path@ == a2.files@[k].relative_path@
                &&& a1.files@[k].extension@ == a2.files@[k].extension@
                &&& a1.files@[k].size_in_bytes == a2.files@[k].size_in_bytes
                &&& a1.files@[k].total_line_count == a2.files@[k].total_line_count
                &&& a1.files@[k].effective_code_line_count
                    == a2.files@[k].effective_code_line_count
                &&& a1.files@[k].has_import_evidence == a2.files@[k].has_import_evidence
                &&& a1.files@[k].has_function_evidence == a2.files@[k].has_function_evidence
            },
        a1.dependency_usage@.len() == a2.dependency_usage@.len(),
        forall|k: int|
            0 <= k < a1.dependency_usage@.len() ==> {
                &&& (#[trigger] a1.dependency_usage@[k]).name@ == a2.dependency_usage@[k].name@
                &&& a1.dependency_usage@[k].version@ == a2.dependency_usage@[k].version@
                &&& a1.dependency_usage@[k].unique_used_line_count
                    == a2.dependency_usage@[k].unique_used_line_count
                &&& a1.dependency_usage@[k].percentage_of_total_code_hundredths
                    == a2.dependency_usage@[k].percentage_of_total_code_hundredths
                &&& a1.dependency_usage@[k].import_occurrence_count
                    == a2.dependency_usage@[k].import_occurrence_count
            },
{
}

/// The report is sorted: by descending unique count, equal counts in
/// manifest order. The sort keys carry each row's manifest index.
pub proof fn lemma_usage_sorted(
    a: ProjectAnalysis,
    files: Seq<ScannedFile>,
    manifest: Option<ManifestFile>,
)
    requires
        analysis_of(a, files, manifest),
        spec_deps_of(manifest).len() <= usize::MAX,
    ensures
        forall|x: int, y: int|
            0 <= x < y < a.dependency_usage@.len() ==> crate::aggregate::precedes(
                #[trigger] crate::aggregate::spec_sort_pairs(
                    spec_pairs(spec_deps_of(manifest), files),
                    spec_pairs(spec_deps_of(manifest), files).len() as int,
                )[x],
                #[trigger] crate::aggregate::spec_sort_pairs(
                    spec_pairs(spec_deps_of(manifest), files),
                    spec_pairs(spec_deps_of(manifest), files).len() as int,
                )[y],
            ),
        forall|x: int, y: int|
            0 <= x < y < a.dependency_usage@.len() ==> (#[trigger] a.dependency_usage@[x]).unique_used_line_count
                >= (#[trigger] a.dependency_usage@[y]).unique_used_line_count,
{
    let deps = spec_deps_of(manifest);
    let pairs = spec_pairs(deps, files);
    assert(forall|k: int| 0 <= k < pairs.len() ==> (#[trigger] pairs[k]).1 == k);
    crate::aggregate::lemma_sort_pairs_props(pairs, pairs.len() as int);
    let sorted = crate::aggregate::spec_sort_pairs(pairs, pairs.len() as int);
    assert forall|x: int, y: int|
        0 <= x < y < a.dependency_usage@.len() implies (#[trigger] a.dependency_usage@[x]).unique_used_line_count
        >= (#[trigger] a.dependency_usage@[y]).unique_used_line_count by {
        assert(crate::aggregate::precedes(sorted[x], sorted[y]));
    }
}

/// A line holding qualified access to two dependencies is counted
/// toward both: attribution is not exclusive.
pub proof fn lemma_non_exclusive(
    name1: Seq<char>,
    name2: Seq<char>,
    lines: Seq<Seq<char>>,
    eco: Ecosystem,
    i: int,
)
    requires
        0 <= i < lines.len(),
        spec_line_effective(lines, eco, i),
        spec_qualified_match(name1, lines[i], eco),
        spec_qualified_match(name2, lines[i], eco),
    ensures
        spec_line_hit(name1, lines, eco, i),
        spec_line_hit(name2, lines, eco, i),
{
}

/// A blank line is never an effective code line.
pub proof fn lemma_blank_not_counted(lines: Seq<Seq<char>>, eco: Ecosystem, i: int)
    requires
        0 <= i < lines.len(),
        crate::text::is_blank(lines[i]),
    ensures
        !spec_line_effective(lines, eco, i),
{
    if !(eco is Unknown) {
        lemma_blank_scan(lines[i], eco, 0, crate::classify::spec_state_before(lines, eco, i));
    }
}

/// Scanning a blank line never meets code.
proof fn lemma_blank_scan(line: Seq<char>, eco: Ecosystem, pos: int, in_block: bool)
    requires
        crate::text::is_blank(line),
        !(eco is Unknown),
        pos >= 0,
    ensures
        !crate::classify::scan_has_code(line, eco, pos, in_block),
    decreases line.len() + 1 - pos,
{
    if pos < line.len() {
        if in_block {
            if crate::text::is_at(line, pos, crate::ecosystem::spec_block_close(eco)) {
                lemma_blank_scan(
                    line,
                    eco,
                    pos + crate::ecosystem::spec_block_close(eco).len(),
                    false,
                );
            } else {
                lemma_blank_scan(line, eco, pos + 1, true);
            }
        } else {
            if crate::text::is_at(line, pos, crate::ecosystem::spec_line_prefix(eco)) {
            } else if crate::text::is_at(line, pos, crate::ecosystem::spec_block_open(eco)) {
                lemma_blank_scan(
                    line,
                    eco,
                    pos + crate::ecosystem::spec_block_open(eco).len(),
                    true,
                );
            } else {
                lemma_blank_scan(line, eco, pos + 1, false);
            }
        }
    }
}

/// A line that is one self-contained single-line comment is never an
/// effective code line, entered outside a block comment.
pub proof fn lemma_comment_line_not_counted(line: Seq<char>, eco: Ecosystem)
    requires
        !(eco is Unknown),
        crate::text::is_at(
            line,
            crate::text::first_nonspace(line, 0),
            crate::ecosystem::spec_line_prefix(eco),
        ),
    ensures
        !crate::classify::spec_line_counted(line, eco, false),
{
    crate::text::lemma_first_nonspace(line, 0);
    lemma_comment_scan(line, eco, 0);
}

/// Scanning up to the comment prefix meets only whitespace.
proof fn lemma_comment_scan(line: Seq<char>, eco: Ecosystem, pos: int)
    requires
        !(eco is Unknown),
        0 <= pos <= crate::text::first_nonspace(line, 0),
        crate::text::is_at(
            line,
            crate::text::first_nonspace(line, 0),
            crate::ecosystem::spec_line_prefix(eco),
        ),
    ensures
        !crate::classify::scan_has_code(line, eco, pos, false),
    decreases line.len() + 1 - pos,
{
    crate::text::lemma_first_nonspace(line, 0);
    let ns = crate::text::first_nonspace(line, 0);
    if pos < line.len() {
        if crate::text::is_at(line, pos, crate::ecosystem::spec_line_prefix(eco)) {
        } else if pos == ns {
        } else {
            assert(crate::text::is_space_char(line[pos]));
            assert(!crate::text::is_at(line, pos, crate::ecosystem::spec_block_open(eco))) by {
                assert(crate::ecosystem::spec_block_open(eco)[0] != ' ' || eco is Python);
                if crate::text::is_at(line, pos, crate::ecosystem::spec_block_open(eco)) {
                    assert(line[pos] == crate::ecosystem::spec_block_open(eco)[0]);
                }
            }
            lemma_comment_scan(line, eco, pos + 1);
        }
    }
}

/// Without a recognized manifest the analysis still completes: the
/// project type is unknown, the dependency table is empty, and the
/// files are still reported.
pub proof fn lemma_no_manifest(a: ProjectAnalysis, files: Seq<ScannedFile>)
    requires
        analysis_of(a, files, None),
    ensures
        a.detected_project_type is Unknown,
        a.dependency_usage@.len() == 0,
        a.files@.len() == spec_kept(files, files.len() as int).len(),
{
}

} // verus!\n