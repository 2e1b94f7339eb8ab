use dev_ci::{Generator, PathDep, Target};

fn rich() -> Generator {
    Generator::new()
        .workflow_name("Pipeline")
        .branches(&["main", "release/*"])
        .matrix_os(&["ubuntu-latest", "macos-latest"])
        .features("x,y")
        .with_clippy()
        .with_docs()
        .with_msrv("1.80")
        .with_path_dep(PathDep::new("dep", "https://example.com/dep.git"))
}

#[test]
fn workspace_reaches_clippy_and_doc() {
    let yaml = Generator::new().with_workspace().with_clippy().with_docs().generate();
    assert!(yaml.contains("run: cargo clippy --workspace --all-targets --all-features -- -D warnings\n"));
    assert!(yaml.contains("run: cargo clippy --workspace --all-targets --no-default-features -- -D warnings\n"));
    assert!(yaml.contains("run: cargo doc --workspace --all-features --no-deps\n"));
    for line in yaml.lines() {
        if line.contains("cargo build") || line.contains("cargo test") || line.contains("cargo clippy") || line.contains("cargo doc") {
            assert!(line.contains(" --workspace"), "missing --workspace: {line}");
        }
    }
}

#[test]
fn clippy_and_doc_without_workspace() {
    let yaml = Generator::new().with_clippy().with_docs().generate();
    assert!(yaml.contains("run: cargo clippy --all-targets --all-features -- -D warnings\n"));
    assert!(yaml.contains("run: cargo doc --all-features --no-deps\n"));
    assert!(!yaml.contains("--workspace"));
}

#[test]
fn matrix_names_are_yaml_scalars() {
    let yaml = Generator::new().matrix_os(&["a, b", "ubuntu-latest", "it's"]).generate();
    assert!(yaml.contains("        os: ['a, b', ubuntu-latest, 'it''s']\n"));
}

#[test]
fn target_leaves_document_unchanged() {
    let g = rich();
    let r = g.clone().target(Target::GitHubActions);
    assert_eq!(r.target_kind(), Target::GitHubActions);
    assert_eq!(r.generate(), g.generate());
}

#[test]
fn empty_branches_same_as_main() {
    let g = rich();
    assert_eq!(
        g.clone().branches(&Vec::<&str>::new()).generate(),
        g.branches(&["main"]).generate()
    );
}

#[test]
fn cache_toggle_only_drops_cache_steps() {
    let g = rich();
    let on = g.clone().with_cache(true).generate();
    let line = "      - uses: Swatinem/rust-cache@v2\n";
    assert!(on.contains(line));
    assert_eq!(g.with_cache(false).generate(), on.replace(line, ""));
}

#[test]
fn workflow_name_changes_only_first_line() {
    let g = rich();
    let r0 = g.clone().generate();
    let i = r0.find('\n').unwrap();
    let r = g.workflow_name("New: name").generate();
    assert_eq!(r, format!("name: 'New: name'{}", &r0[i..]));
}

#[test]
fn no_default_features_step_follows_test_step() {
    let g = rich().with_workspace();
    let r0 = g.clone().generate();
    let r = g.with_no_default_features_build().generate();
    let s = "      - name: Build (no default features)\n        run: cargo build --workspace --no-default-features --verbose\n";
    assert_eq!(r.matches(s).count(), 1);
    assert_eq!(r.replacen(s, "", 1), r0);
    assert!(r.contains(&format!(
        "      - name: Test\n        run: cargo test --workspace --features x,y --verbose\n{s}"
    )));
}

#[test]
fn features_only_on_default_steps_and_msrv() {
    let yaml = rich().with_no_default_features_build().with_all_features_build().generate();
    let with: Vec<&str> = yaml.lines().filter(|l| l.contains("--features")).collect();
    assert_eq!(
        with,
        vec![
            "        run: cargo build --features x,y --verbose",
            "        run: cargo test --features x,y --verbose",
            "      - run: cargo build --features x,y",
        ]
    );
}

#[test]
fn jobs_come_in_order() {
    let yaml = rich().with_fmt().generate();
    let jobs: Vec<&str> = yaml
        .split("jobs:\n")
        .nth(1)
        .unwrap()
        .lines()
        .filter(|l| l.len() > 2 && l.starts_with("  ") && !l.starts_with("   ") && l.ends_with(':'))
        .collect();
    assert_eq!(jobs, vec!["  test:", "  clippy:", "  fmt:", "  docs:", "  msrv:"]);
    assert!(yaml.contains("\n\n  clippy:\n") && yaml.contains("\n\n  fmt:\n"));
    assert!(yaml.contains("\n\n  docs:\n") && yaml.contains("\n\n  msrv:\n"));
    assert!(yaml.ends_with('\n'));
}
