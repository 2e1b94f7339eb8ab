use dev_ci::generator::{Generator, PathDep};
use dev_ci::text::{shell_arg, yaml_scalar};

#[test]
fn yaml_scalar_plain_text_is_unchanged() {
    assert_eq!(yaml_scalar("release/*"), "release/*");
    assert_eq!(yaml_scalar("v1.2.3+build~x=y_z"), "v1.2.3+build~x=y_z");
}

#[test]
fn yaml_scalar_quotes_empty_and_indicators() {
    assert_eq!(yaml_scalar(""), "''");
    assert_eq!(yaml_scalar("-x"), "'-x'");
    assert_eq!(yaml_scalar("*x"), "'*x'");
    assert_eq!(yaml_scalar("a b"), "'a b'");
    assert_eq!(yaml_scalar("'"), "''''");
    assert_eq!(yaml_scalar("é"), "'é'");
}

#[test]
fn yaml_scalar_round_trip_by_yaml_rules() {
    for s in ["plain", "", "it's", "''", "a: b", "-", "x'y'z"] {
        let q = yaml_scalar(s);
        let decoded = if q.len() >= 2 && q.starts_with('\'') && q.ends_with('\'') {
            q[1..q.len() - 1].replace("''", "'")
        } else {
            q.clone()
        };
        assert_eq!(decoded, s);
    }
}

#[test]
fn shell_arg_wraps_and_escapes() {
    assert_eq!(shell_arg("abc"), "'abc'");
    assert_eq!(shell_arg(""), "''");
    assert_eq!(shell_arg("a'b"), "'a'\\''b'");
    assert_eq!(shell_arg("$HOME \\n"), "'$HOME \\n'");
}

#[test]
fn default_document_is_exact() {
    let expected = "name: CI\n\
\n\
on:\n  push:\n    branches: [main]\n  pull_request:\n    branches: [main]\n\
\n\
env:\n  CARGO_TERM_COLOR: always\n\
\n\
jobs:\n  test:\n    name: Test (${{ matrix.os }})\n    runs-on: ${{ matrix.os }}\n    strategy:\n      fail-fast: false\n      matrix:\n        os: [ubuntu-latest]\n    steps:\n      - uses: actions/checkout@v5\n      - uses: dtolnay/rust-toolchain@stable\n      - uses: Swatinem/rust-cache@v2\n      - name: Build\n        run: cargo build --verbose\n      - name: Test\n        run: cargo test --verbose\n";
    assert_eq!(Generator::new().generate(), expected);
    assert_eq!(Generator::default().generate(), expected);
}

#[test]
fn msrv_job_is_exact() {
    let yaml = Generator::new()
        .with_cache(false)
        .features("f")
        .with_msrv("1.70")
        .generate();
    assert!(yaml.ends_with(
        "\n  msrv:\n    name: MSRV (Rust 1.70)\n    runs-on: ubuntu-latest\n    steps:\n      - uses: actions/checkout@v5\n      - uses: dtolnay/rust-toolchain@1.70\n      - run: cargo build --features f\n"
    ));
}

#[test]
fn empty_branch_list_falls_back_to_main() {
    let yaml = Generator::new().branches(&[]).generate();
    assert_eq!(yaml.matches("branches: [main]").count(), 2);
}

#[test]
fn empty_features_list_adds_no_flag() {
    let yaml = Generator::new().features("").generate();
    assert!(yaml.contains("run: cargo build --verbose"));
    assert!(!yaml.contains("--features"));
}

#[test]
fn clippy_job_has_component() {
    let yaml = Generator::new().with_clippy().generate();
    assert!(yaml.contains(
        "      - uses: dtolnay/rust-toolchain@stable\n        with:\n          components: clippy\n"
    ));
}

#[test]
fn path_deps_equality() {
    let a = PathDep::new("x", "u");
    assert!(a == PathDep::new("x", "u"));
    assert!(a != PathDep::new("x", "v"));
    assert!(a != PathDep::new("y", "u"));
}

#[test]
fn name_with_newline_is_quoted() {
    let yaml = Generator::new().workflow_name("a\nb").generate();
    assert!(yaml.starts_with("name: 'a\nb'\n"));
}
