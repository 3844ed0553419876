use deprank::classify::{classify_line, effective_count};
use deprank::ecosystem::Ecosystem;
use deprank::manifest::{detect, line_dep, manifest_ecosystem, parse_deps, ManifestFile};
use deprank::matcher::{alias_match, attribute_match, direct_match, extract_symbols, import_match,
    invocation_match, line_hits, qualified_match, symbol_evidence};

fn chars(s: &str) -> Vec<char> {
    s.chars().collect()
}

fn lines(text: &[&str]) -> Vec<Vec<char>> {
    text.iter().map(|l| chars(l)).collect()
}

fn string_of(v: &[char]) -> String {
    v.iter().collect()
}

#[test]
fn blank_and_comment_lines_not_effective() {
    let body = lines(&["", "   ", "// comment", "   # not rust", "let x = 1;"]);
    assert_eq!(effective_count(&body, Ecosystem::Rust), 2);
}

#[test]
fn block_comments_span_lines() {
    let body = lines(&["/* open", "inside", "still */ tail();", "code();", "/* here */"]);
    // the tail after the closing delimiter counts; the pure block lines do not
    assert_eq!(effective_count(&body, Ecosystem::Rust), 2);
}

#[test]
fn opener_that_also_closes_counts_only_with_code() {
    let (counted, state) = classify_line(&chars("/* note */ run();"), Ecosystem::Rust, false);
    assert!(counted);
    assert!(!state);
    let (counted2, state2) = classify_line(&chars("/* note */"), Ecosystem::Rust, false);
    assert!(!counted2);
    assert!(!state2);
}

#[test]
fn python_docstrings_are_comments() {
    let body = lines(&["\"\"\"", "module doc", "\"\"\"", "import os", "# note", "x = 1"]);
    assert_eq!(effective_count(&body, Ecosystem::Python), 2);
}

#[test]
fn unknown_extension_counts_non_blank_lines() {
    let body = lines(&["# a comment in some config", "", "value = 1"]);
    assert_eq!(effective_count(&body, Ecosystem::Unknown), 2);
}

#[test]
fn rust_import_rule_whole_token() {
    let foo = chars("foo");
    assert!(import_match(&foo, &chars("use foo::bar;"), Ecosystem::Rust));
    assert!(import_match(&foo, &chars("    use foo;"), Ecosystem::Rust));
    assert!(!import_match(&foo, &chars("use foobar::baz;"), Ecosystem::Rust));
    assert!(!import_match(&foo, &chars("foo::bar();"), Ecosystem::Rust));
}

#[test]
fn rust_dashes_match_underscores() {
    let name = chars("serde-json");
    assert!(import_match(&name, &chars("use serde_json::Value;"), Ecosystem::Rust));
    assert!(qualified_match(&name, &chars("let v = serde_json::json();"), Ecosystem::Rust));
}

#[test]
fn qualified_access_rule() {
    let foo = chars("foo");
    assert!(qualified_match(&foo, &chars("let x = foo::bar();"), Ecosystem::Rust));
    assert!(!qualified_match(&foo, &chars("let x = myfoo::bar();"), Ecosystem::Rust));
    let req = chars("requests");
    assert!(qualified_match(&req, &chars("r = requests.get(url)"), Ecosystem::Python));
    assert!(!qualified_match(&req, &chars("r = requests_get(url)"), Ecosystem::Python));
}

#[test]
fn invocation_rule_macros_and_decorators() {
    let anyhow = chars("anyhow");
    assert!(invocation_match(&anyhow, &chars("return Err(anyhow!(\"bad\"));"), Ecosystem::Rust));
    assert!(!invocation_match(&anyhow, &chars("if anyhow != other {"), Ecosystem::Rust));
    let pytest = chars("pytest");
    assert!(invocation_match(&pytest, &chars("@pytest"), Ecosystem::Python));
    assert!(!invocation_match(&pytest, &chars("@pytest_helper"), Ecosystem::Python));
}

#[test]
fn alias_rule_for_conventional_short_names() {
    let numpy = chars("numpy");
    assert!(alias_match(&numpy, &chars("a = np.zeros(3)"), Ecosystem::Python));
    assert!(!alias_match(&numpy, &chars("a = nap.zeros(3)"), Ecosystem::Python));
    let pandas = chars("Pandas");
    assert!(alias_match(&pandas, &chars("df = pd.DataFrame()"), Ecosystem::Python));
}

#[test]
fn attribute_rule_for_derives() {
    let serde = chars("serde");
    assert!(attribute_match(&serde, &chars("#[derive(Debug, Serialize)]"), Ecosystem::Rust));
    assert!(attribute_match(&serde, &chars("#[derive(Deserialize, Clone)]"), Ecosystem::Rust));
    assert!(!attribute_match(&serde, &chars("#[derive(Debug, Clone)]"), Ecosystem::Rust));
    let thiserror = chars("thiserror");
    assert!(attribute_match(&thiserror, &chars("#[derive(Error, Debug)]"), Ecosystem::Rust));
    assert!(attribute_match(&thiserror, &chars("    #[error(\"boom\")]"), Ecosystem::Rust));
}

#[test]
fn javascript_import_forms() {
    let axios = chars("axios");
    assert!(import_match(&axios, &chars("import axios from 'axios';"), Ecosystem::JavaScript));
    assert!(import_match(&axios, &chars("const a = require(\"axios\");"), Ecosystem::JavaScript));
    assert!(import_match(
        &axios,
        &chars("import { get } from 'axios/lib';"),
        Ecosystem::JavaScript,
    ));
    assert!(!import_match(&axios, &chars("let axios = 1;"), Ecosystem::JavaScript));
}

#[test]
fn imported_symbol_rule_recovers_usage() {
    let foo = chars("foo");
    let import_line = chars("use foo::{Alpha, beta};");
    let code_line = chars("let a = Alpha::new();");
    assert!(symbol_evidence(&foo, &import_line, &code_line, Ecosystem::Rust));
    let other = chars("let g = gamma();");
    assert!(!symbol_evidence(&foo, &import_line, &other, Ecosystem::Rust));
    let syms = extract_symbols(&import_line, Ecosystem::Rust);
    let names: Vec<String> = syms.iter().map(|s| string_of(s)).collect();
    assert!(names.contains(&"Alpha".to_string()));
    assert!(names.contains(&"beta".to_string()));
}

#[test]
fn line_hits_require_effective_code() {
    let foo = chars("foo");
    let body = lines(&["use foo::bar;", "// foo::baz();", "foo::baz();"]);
    let hits = line_hits(&foo, &body, Ecosystem::Rust);
    assert_eq!(hits, vec![true, false, true]);
}

#[test]
fn direct_match_covers_all_rules() {
    let serde = chars("serde");
    assert!(direct_match(&serde, &chars("use serde::Serialize;"), Ecosystem::Rust));
    assert!(direct_match(&serde, &chars("#[derive(Serialize)]"), Ecosystem::Rust));
    assert!(!direct_match(&serde, &chars("let x = 1;"), Ecosystem::Rust));
}

#[test]
fn manifest_names_recognized() {
    assert_eq!(manifest_ecosystem(&chars("Cargo.toml")), Ecosystem::Rust);
    assert_eq!(manifest_ecosystem(&chars("package.json")), Ecosystem::JavaScript);
    assert_eq!(manifest_ecosystem(&chars("requirements.txt")), Ecosystem::Python);
    assert_eq!(manifest_ecosystem(&chars("pom.xml")), Ecosystem::Unknown);
}

#[test]
fn cargo_manifest_dependencies_parsed() {
    let body = lines(&[
        "[package]",
        "name = \"demo\"",
        "[dependencies]",
        "serde = { version = \"1.0\", features = [\"derive\"] }",
        "anyhow = \"1\"",
        "[dev-dependencies]",
        "tempfile = \"3\"",
    ]);
    let deps = parse_deps(&body, Ecosystem::Rust);
    let names: Vec<String> = deps.iter().map(|d| string_of(&d.name)).collect();
    assert_eq!(names, vec!["serde", "anyhow"]);
    assert_eq!(string_of(&deps[0].declared_version), "1.0");
    assert_eq!(string_of(&deps[1].declared_version), "1");
}

#[test]
fn package_json_dependencies_parsed() {
    let body = lines(&[
        "{",
        "  \"name\": \"demo\",",
        "  \"dependencies\": {",
        "    \"axios\": \"^1.4.0\",",
        "    \"lodash\": \"4.17.21\"",
        "  },",
        "  \"scripts\": { \"build\": \"tsc\" }",
    ]);
    let deps = parse_deps(&body, Ecosystem::JavaScript);
    let names: Vec<String> = deps.iter().map(|d| string_of(&d.name)).collect();
    assert_eq!(names, vec!["axios", "lodash"]);
    assert_eq!(string_of(&deps[0].declared_version), "^1.4.0");
}

#[test]
fn requirements_dependencies_parsed() {
    let body = lines(&["# pinned", "requests==2.31.0", "", "numpy", "flask==3.0"]);
    let deps = parse_deps(&body, Ecosystem::Python);
    let names: Vec<String> = deps.iter().map(|d| string_of(&d.name)).collect();
    assert_eq!(names, vec!["requests", "numpy", "flask"]);
    assert_eq!(string_of(&deps[0].declared_version), "2.31.0");
    assert_eq!(string_of(&deps[1].declared_version), "*");
}

#[test]
fn line_dep_requires_dependency_section() {
    let out = line_dep(&chars("serde = \"1\""), Ecosystem::Rust, false);
    assert!(out.is_none());
    let inside = line_dep(&chars("serde = \"1\""), Ecosystem::Rust, true);
    assert!(inside.is_some());
}

#[test]
fn detect_without_manifest_is_unknown() {
    let (eco, deps) = detect(&None);
    assert_eq!(eco, Ecosystem::Unknown);
    assert!(deps.is_empty());
}

#[test]
fn detect_reads_manifest() {
    let m = Some(ManifestFile {
        file_name: chars("requirements.txt"),
        lines: lines(&["requests==2.31.0"]),
    });
    let (eco, deps) = detect(&m);
    assert_eq!(eco, Ecosystem::Python);
    assert_eq!(deps.len(), 1);
    assert_eq!(string_of(&deps[0].name), "requests");
}
