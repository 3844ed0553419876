use deprank::ecosystem::Ecosystem;
use deprank::manifest::ManifestFile;
use deprank::report::{analyze, simplified, ProjectAnalysis, ScannedFile};

fn chars(s: &str) -> Vec<char> {
    s.chars().collect()
}

fn lines(text: &[&str]) -> Vec<Vec<char>> {
    text.iter().map(|l| chars(l)).collect()
}

fn file(path: &str, ext: &str, body: &[&str]) -> ScannedFile {
    ScannedFile {
        relative_path: chars(path),
        extension: chars(ext),
        size_in_bytes: body.iter().map(|l| l.len() as u64 + 1).sum(),
        content: Some(lines(body)),
    }
}

fn unreadable(path: &str, ext: &str) -> ScannedFile {
    ScannedFile {
        relative_path: chars(path),
        extension: chars(ext),
        size_in_bytes: 0,
        content: None,
    }
}

fn cargo_manifest(deps: &[&str]) -> Option<ManifestFile> {
    let mut body = vec!["[package]".to_string(), "name = \"demo\"".to_string()];
    body.push("[dependencies]".to_string());
    for d in deps {
        body.push(format!("{} = \"1.0\"", d));
    }
    let body_refs: Vec<&str> = body.iter().map(|s| s.as_str()).collect();
    Some(ManifestFile { file_name: chars("Cargo.toml"), lines: lines(&body_refs) })
}

fn string_of(v: &[char]) -> String {
    v.iter().collect()
}

fn row_named<'a>(a: &'a ProjectAnalysis, name: &str) -> &'a deprank::report::DependencyUsage {
    a.dependency_usage
        .iter()
        .find(|r| string_of(&r.name) == name)
        .expect("dependency row missing")
}

#[test]
fn scenario_three_line_file_full_usage() {
    let files = vec![file("src/main.rs", "rs", &["use foo::bar;", "", "foo::baz();"])];
    let manifest = cargo_manifest(&["foo"]);
    let a = analyze(&files, &manifest);
    assert_eq!(a.files.len(), 1);
    assert_eq!(a.files[0].total_line_count, 3);
    assert_eq!(a.files[0].effective_code_line_count, 2);
    assert_eq!(a.total_code_lines, 2);
    let row = row_named(&a, "foo");
    assert_eq!(row.unique_used_line_count, 2);
    assert_eq!(row.percentage_of_total_code_hundredths, 10000);
    let pct = 100.0 * (row.unique_used_line_count as f64) / (a.total_code_lines as f64);
    assert_eq!(pct, 100.0);
}

#[test]
fn scenario_unused_dependency_still_reported() {
    let files = vec![file("src/main.rs", "rs", &["use foo::bar;", "foo::baz();"])];
    let manifest = cargo_manifest(&["foo", "demo"]);
    let a = analyze(&files, &manifest);
    assert_eq!(a.dependency_usage.len(), 2);
    let row = row_named(&a, "demo");
    assert_eq!(row.unique_used_line_count, 0);
    assert_eq!(row.percentage_of_total_code_hundredths, 0);
    assert_eq!(row.import_occurrence_count, 0);
}

#[test]
fn scenario_unreadable_file_skipped() {
    let files = vec![
        file("src/a.rs", "rs", &["use foo::bar;", "foo::baz();"]),
        unreadable("src/broken.rs", "rs"),
    ];
    let manifest = cargo_manifest(&["foo"]);
    let a = analyze(&files, &manifest);
    assert_eq!(a.files.len(), 1);
    assert_eq!(string_of(&a.files[0].relative_path), "src/a.rs");
    assert_eq!(a.total_code_lines, 2);
    assert_eq!(row_named(&a, "foo").unique_used_line_count, 2);
}

#[test]
fn scenario_no_manifest_degrades() {
    let files = vec![file("src/a.rs", "rs", &["use foo::bar;", "foo::baz();"])];
    let a = analyze(&files, &None);
    assert_eq!(a.detected_project_type, Ecosystem::Unknown);
    assert_eq!(a.detected_project_type.tag(), "unknown");
    assert!(a.dependency_usage.is_empty());
    assert_eq!(a.files.len(), 1);
}

#[test]
fn unrecognized_manifest_degrades_like_none() {
    let files = vec![file("src/a.rs", "rs", &["foo::baz();"])];
    let manifest = Some(ManifestFile {
        file_name: chars("Makefile"),
        lines: lines(&["all:", "\techo hi"]),
    });
    let a = analyze(&files, &manifest);
    assert_eq!(a.detected_project_type, Ecosystem::Unknown);
    assert!(a.dependency_usage.is_empty());
}

#[test]
fn total_is_sum_of_file_counts() {
    let files = vec![
        file("a.rs", "rs", &["use foo::bar;", "// comment", "fn main() {}"]),
        file("b.rs", "rs", &["", "let x = 1;"]),
        unreadable("c.rs", "rs"),
    ];
    let a = analyze(&files, &cargo_manifest(&["foo"]));
    let sum: u64 = a.files.iter().map(|f| f.effective_code_line_count).sum();
    assert_eq!(sum, a.total_code_lines);
}

#[test]
fn line_counted_toward_both_dependencies() {
    let files = vec![file("a.rs", "rs", &["foo::x(); bar::y();"])];
    let a = analyze(&files, &cargo_manifest(&["foo", "bar"]));
    assert_eq!(row_named(&a, "foo").unique_used_line_count, 1);
    assert_eq!(row_named(&a, "bar").unique_used_line_count, 1);
}

#[test]
fn usage_sorted_descending_with_stable_ties() {
    let files = vec![file(
        "a.rs",
        "rs",
        &["mid::a();", "mid::b();", "top::a();", "top::b();", "top::c();", "tie1::x();",
            "tie2::y();"],
    )];
    // declared order: tie1, top, tie2, mid
    let a = analyze(&files, &cargo_manifest(&["tie1", "top", "tie2", "mid"]));
    let names: Vec<String> = a.dependency_usage.iter().map(|r| string_of(&r.name)).collect();
    assert_eq!(names, vec!["top", "mid", "tie1", "tie2"]);
    let counts: Vec<u64> =
        a.dependency_usage.iter().map(|r| r.unique_used_line_count).collect();
    assert_eq!(counts, vec![3, 2, 1, 1]);
}

#[test]
fn rerun_on_unchanged_input_is_identical() {
    let files = vec![
        file("a.rs", "rs", &["use foo::bar;", "/* block", "still comment */", "foo::baz();"]),
        file("b.py", "py", &["import numpy as np", "np.array([])"]),
    ];
    let manifest = cargo_manifest(&["foo", "bar"]);
    let a1 = analyze(&files, &manifest);
    let a2 = analyze(&files, &manifest);
    assert_eq!(a1.detected_project_type, a2.detected_project_type);
    assert_eq!(a1.total_code_lines, a2.total_code_lines);
    assert_eq!(a1.total_import_statement_count, a2.total_import_statement_count);
    assert_eq!(a1.files.len(), a2.files.len());
    for (f1, f2) in a1.files.iter().zip(a2.files.iter()) {
        assert_eq!(f1.relative_path, f2.relative_path);
        assert_eq!(f1.extension, f2.extension);
        assert_eq!(f1.size_in_bytes, f2.size_in_bytes);
        assert_eq!(f1.total_line_count, f2.total_line_count);
        assert_eq!(f1.effective_code_line_count, f2.effective_code_line_count);
        assert_eq!(f1.has_import_evidence, f2.has_import_evidence);
        assert_eq!(f1.has_function_evidence, f2.has_function_evidence);
    }
    assert_eq!(a1.dependency_usage.len(), a2.dependency_usage.len());
    for (r1, r2) in a1.dependency_usage.iter().zip(a2.dependency_usage.iter()) {
        assert_eq!(r1.name, r2.name);
        assert_eq!(r1.version, r2.version);
        assert_eq!(r1.unique_used_line_count, r2.unique_used_line_count);
        assert_eq!(r1.percentage_of_total_code_hundredths, r2.percentage_of_total_code_hundredths);
        assert_eq!(r1.import_occurrence_count, r2.import_occurrence_count);
    }
}

#[test]
fn import_occurrences_count_early_lines_only() {
    let mut body: Vec<String> = vec!["use foo::bar;".to_string()];
    for _ in 0..25 {
        body.push("let x = 1;".to_string());
    }
    body.push("foo::baz();".to_string());
    let body_refs: Vec<&str> = body.iter().map(|s| s.as_str()).collect();
    let files = vec![file("a.rs", "rs", &body_refs)];
    let a = analyze(&files, &cargo_manifest(&["foo"]));
    let row = row_named(&a, "foo");
    assert_eq!(row.unique_used_line_count, 2);
    // only the use on line 1 falls within the first twenty lines
    assert_eq!(row.import_occurrence_count, 1);
    assert_eq!(a.total_import_statement_count, 1);
}

#[test]
fn evidence_flags_reflect_rules() {
    let files = vec![
        file("imports.rs", "rs", &["use foo;"]),
        file("calls.rs", "rs", &["foo::baz();"]),
        file("quiet.rs", "rs", &["let x = 1;"]),
    ];
    let a = analyze(&files, &cargo_manifest(&["foo"]));
    assert!(a.files[0].has_import_evidence);
    assert!(!a.files[0].has_function_evidence);
    assert!(!a.files[1].has_import_evidence);
    assert!(a.files[1].has_function_evidence);
    assert!(!a.files[2].has_import_evidence);
    assert!(!a.files[2].has_function_evidence);
}

#[test]
fn simplified_projection_mirrors_rows() {
    let files = vec![file("a.rs", "rs", &["use foo::bar;", "foo::baz();"])];
    let a = analyze(&files, &cargo_manifest(&["foo", "demo"]));
    let s = simplified(&a);
    assert_eq!(s.len(), a.dependency_usage.len());
    for (p, r) in s.iter().zip(a.dependency_usage.iter()) {
        assert_eq!(p.name, r.name);
        assert_eq!(p.unique_used_line_count, r.unique_used_line_count);
        assert_eq!(p.percentage_of_total_code_hundredths, r.percentage_of_total_code_hundredths);
    }
}

#[test]
fn empty_project_has_zero_percentages() {
    let files: Vec<ScannedFile> = Vec::new();
    let a = analyze(&files, &cargo_manifest(&["foo"]));
    assert_eq!(a.total_code_lines, 0);
    let row = row_named(&a, "foo");
    assert_eq!(row.unique_used_line_count, 0);
    assert_eq!(row.percentage_of_total_code_hundredths, 0);
}

#[test]
fn analyzer_service_runs_analysis() {
    let svc = deprank::analyzer::AnalyzerService::new("/tmp/cache");
    assert_eq!(svc.cache_dir(), "/tmp/cache");
    let files = vec![file("a.rs", "rs", &["use foo::bar;"])];
    let a = svc.analyze(&files, &cargo_manifest(&["foo"]));
    assert_eq!(a.files.len(), 1);
    assert_eq!(row_named(&a, "foo").unique_used_line_count, 1);
}
