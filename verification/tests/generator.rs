use dev_ci::{Generator, PathDep, Target};

#[test]
fn default_generates_a_test_job() {
    let yaml = Generator::new().generate();
    assert!(yaml.contains("jobs:"));
    assert!(yaml.contains("test:"));
    assert!(yaml.contains("actions/checkout@v5"));
}

#[test]
fn clippy_job_added_when_requested() {
    let yaml = Generator::new().with_clippy().generate();
    assert!(yaml.contains("clippy:"));
    assert!(yaml.contains("cargo clippy --all-targets --all-features"));
    assert!(yaml.contains("-D warnings"));
}

#[test]
fn fmt_job_added_when_requested() {
    let yaml = Generator::new().with_fmt().generate();
    assert!(yaml.contains("fmt:"));
    assert!(yaml.contains("cargo fmt --all -- --check"));
}

#[test]
fn docs_job_added_when_requested() {
    let yaml = Generator::new().with_docs().generate();
    assert!(yaml.contains("docs:"));
    assert!(yaml.contains("RUSTDOCFLAGS"));
    assert!(yaml.contains("cargo doc --all-features --no-deps"));
}

#[test]
fn msrv_job_uses_pinned_toolchain() {
    let yaml = Generator::new().with_msrv("1.85").generate();
    assert!(yaml.contains("rust-toolchain@1.85"));
    assert!(yaml.contains("MSRV (Rust 1.85)"));
}

#[test]
fn matrix_os_appears_in_test_job() {
    let yaml = Generator::new()
        .matrix_os(&["ubuntu-latest", "macos-latest", "windows-latest"])
        .generate();
    assert!(yaml.contains("[ubuntu-latest, macos-latest, windows-latest]"));
    assert!(yaml.contains("runs-on: ${{ matrix.os }}"));
}

#[test]
fn empty_matrix_falls_back_to_default() {
    let yaml: String = Generator::new().matrix_os(&Vec::<&str>::new()).generate();
    assert!(yaml.contains("[ubuntu-latest]"));
}

#[test]
fn branches_drive_both_push_and_pr_filters() {
    let yaml = Generator::new().branches(&["main", "release/*"]).generate();
    let count = yaml.matches("branches: [main, release/*]").count();
    assert_eq!(count, 2); // once for push, once for pull_request
}

#[test]
fn cache_action_present_by_default() {
    let yaml = Generator::new().generate();
    assert!(yaml.contains("Swatinem/rust-cache@v2"));
}

#[test]
fn cache_action_removed_when_disabled() {
    let yaml = Generator::new().with_cache(false).generate();
    assert!(!yaml.contains("Swatinem/rust-cache"));
}

#[test]
fn path_dep_clone_step_emitted() {
    let yaml = Generator::new()
        .with_path_dep(PathDep::new(
            "dev-report",
            "https://github.com/jamesgober/dev-report.git",
        ))
        .with_path_dep(PathDep::new(
            "dev-tools",
            "https://github.com/jamesgober/dev-tools.git",
        ))
        .generate();
    assert!(yaml.contains("Check out sibling crates (path deps)"));
    assert!(yaml.contains(
        "git clone --depth 1 'https://github.com/jamesgober/dev-report.git' '../dev-report'"
    ));
    assert!(yaml.contains(
        "git clone --depth 1 'https://github.com/jamesgober/dev-tools.git' '../dev-tools'"
    ));
}

#[test]
fn yaml_scalar_quotes_workflow_name_with_colon() {
    let yaml = Generator::new()
        .workflow_name("Build: CI Pipeline")
        .generate();
    assert!(yaml.contains("name: 'Build: CI Pipeline'"));
}

#[test]
fn yaml_scalar_doubles_embedded_single_quote() {
    let yaml = Generator::new().workflow_name("Don't break").generate();
    assert!(yaml.contains("name: 'Don''t break'"));
}

#[test]
fn yaml_scalar_quotes_branch_with_comma() {
    let yaml = Generator::new().branches(&["main", "release,foo"]).generate();
    assert!(yaml.contains("branches: [main, 'release,foo']"));
}

#[test]
fn yaml_scalar_quotes_branch_starting_with_indicator() {
    let yaml = Generator::new().branches(&["main", "*release"]).generate();
    assert!(yaml.contains("branches: [main, '*release']"));
}

#[test]
fn shell_arg_escapes_embedded_single_quote() {
    let yaml = Generator::new()
        .with_path_dep(PathDep::new("weird-name", "https://x.com/o'malley.git"))
        .generate();
    // Single quote escape sequence: '\''  (close-quote, backslash, quote, re-open).
    assert!(yaml.contains("'https://x.com/o'\\''malley.git' '../weird-name'"));
}

#[test]
fn no_default_features_build_emitted_when_requested() {
    let yaml = Generator::new().with_no_default_features_build().generate();
    assert!(yaml.contains("Build (no default features)"));
    assert!(yaml.contains("cargo build --no-default-features --verbose"));
}

#[test]
fn all_features_build_and_test_emitted_when_requested() {
    let yaml = Generator::new().with_all_features_build().generate();
    assert!(yaml.contains("Build (all features)"));
    assert!(yaml.contains("Test (all features)"));
    assert!(yaml.contains("cargo build --all-features --verbose"));
    assert!(yaml.contains("cargo test --all-features --verbose"));
}

#[test]
fn workspace_flag_propagates_to_cargo_calls() {
    let yaml = Generator::new().with_workspace().generate();
    assert!(yaml.contains("cargo build --workspace --verbose"));
    assert!(yaml.contains("cargo test --workspace --verbose"));
}

#[test]
fn features_flag_propagates_when_set() {
    let yaml = Generator::new().features("foo,bar").generate();
    assert!(yaml.contains("cargo build --features foo,bar --verbose"));
    assert!(yaml.contains("cargo test --features foo,bar --verbose"));
}

#[test]
fn features_flag_omitted_for_explicit_all_or_none() {
    let yaml = Generator::new()
        .features("foo")
        .with_all_features_build()
        .with_no_default_features_build()
        .generate();
    // The default test job still gets --features foo
    assert!(yaml.contains("cargo build --features foo --verbose"));
    // The --no-default-features step doesn't double up with --features
    assert!(yaml.contains("cargo build --no-default-features --verbose"));
    assert!(!yaml.contains("cargo build --no-default-features --features"));
}

#[test]
fn workflow_name_appears_at_top() {
    let yaml = Generator::new().workflow_name("Pipeline").generate();
    assert!(yaml.starts_with("name: Pipeline\n"));
}

#[test]
fn output_is_deterministic() {
    let g = Generator::new()
        .matrix_os(&["ubuntu-latest", "macos-latest"])
        .with_clippy()
        .with_fmt()
        .with_docs()
        .with_msrv("1.85")
        .with_no_default_features_build()
        .with_all_features_build()
        .with_path_dep(PathDep::new(
            "dev-report",
            "https://example.com/dev-report.git",
        ));
    let a = g.generate();
    let b = g.generate();
    assert_eq!(a, b);
}

#[test]
fn msrv_job_uses_pinned_toolchain_action_ref() {
    let yaml = Generator::new().with_msrv("1.85").generate();
    assert!(yaml.contains("dtolnay/rust-toolchain@1.85"));
}

#[test]
fn full_kitchen_sink_yaml_round_trip() {
    // Sanity: confirm a "everything enabled" configuration produces
    // valid-looking YAML with each section.
    let yaml = Generator::new()
        .workflow_name("Full CI")
        .branches(&["main", "develop"])
        .matrix_os(&["ubuntu-latest", "macos-latest", "windows-latest"])
        .with_clippy()
        .with_fmt()
        .with_docs()
        .with_msrv("1.85")
        .with_no_default_features_build()
        .with_all_features_build()
        .with_workspace()
        .with_path_dep(PathDep::new(
            "dev-report",
            "https://example.com/dev-report.git",
        ))
        .generate();

    for needle in [
        "name: 'Full CI'",
        "actions/checkout@v5",
        "branches: [main, develop]",
        "[ubuntu-latest, macos-latest, windows-latest]",
        "clippy:",
        "fmt:",
        "docs:",
        "msrv:",
        "MSRV (Rust 1.85)",
        "Build (no default features)",
        "Build (all features)",
        "Test (all features)",
        "git clone --depth 1 'https://example.com/dev-report.git' '../dev-report'",
        "Swatinem/rust-cache@v2",
    ] {
        assert!(
            yaml.contains(needle),
            "missing: {needle}\n--- yaml ---\n{yaml}"
        );
    }
}

#[test]
fn path_dep_accessors_round_trip() {
    let d = PathDep::new("foo", "https://example.com/foo.git");
    assert_eq!(d.name(), "foo");
    assert_eq!(d.repo_url(), "https://example.com/foo.git");
}

#[test]
fn default_target_is_github_actions() {
    assert_eq!(Generator::new().target_kind(), Target::GitHubActions);
}
