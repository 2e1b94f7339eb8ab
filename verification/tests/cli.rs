use dev_ci::cli::{configure, parse_path_dep, writes_to_stdout, GenerateOptions, TargetArg};
use dev_ci::generator::Target;

#[test]
fn parse_path_dep_splits_on_first_equals() {
    let (name, url) = parse_path_dep("foo=https://example.com/foo.git").unwrap();
    assert_eq!(name, "foo");
    assert_eq!(url, "https://example.com/foo.git");
}

#[test]
fn parse_path_dep_rejects_missing_equals() {
    assert!(parse_path_dep("foo").is_err());
}

#[test]
fn parse_path_dep_rejects_empty_name_or_url() {
    assert!(parse_path_dep("=url").is_err());
    assert!(parse_path_dep("name=").is_err());
}

#[test]
fn parse_path_dep_keeps_later_equals_in_url() {
    let (name, url) = parse_path_dep("dep=https://x.com/a?b=c").unwrap();
    assert_eq!(name, "dep");
    assert_eq!(url, "https://x.com/a?b=c");
}

#[test]
fn parse_path_dep_missing_equals_message() {
    assert_eq!(
        parse_path_dep("foo").unwrap_err(),
        "--path-dep must be name=url; got \"foo\""
    );
}

#[test]
fn parse_path_dep_empty_part_message() {
    assert_eq!(
        parse_path_dep("=url").unwrap_err(),
        "--path-dep name and url must be non-empty; got \"=url\""
    );
    assert_eq!(
        parse_path_dep("a=").unwrap_err(),
        "--path-dep name and url must be non-empty; got \"a=\""
    );
}

fn options() -> GenerateOptions {
    GenerateOptions {
        target: TargetArg::GithubActions,
        workflow_name: "CI".to_string(),
        branches: vec!["main".to_string()],
        matrix: vec!["ubuntu-latest".to_string()],
        with: Vec::new(),
        msrv: None,
        features: None,
        no_default_features_build: false,
        all_features_build: false,
        workspace: false,
        no_cache: false,
        path_deps: Vec::new(),
    }
}

#[test]
fn target_arg_maps_to_library_target() {
    assert_eq!(TargetArg::GithubActions.to_lib(), Target::GitHubActions);
    assert_eq!(
        TargetArg::GithubActions.default_output_path(),
        ".github/workflows/ci.yml"
    );
}

#[test]
fn stdout_mode_for_print_or_dash() {
    assert!(writes_to_stdout(true, None));
    assert!(writes_to_stdout(false, Some("-")));
    assert!(writes_to_stdout(true, Some("out.yml")));
    assert!(!writes_to_stdout(false, Some("out.yml")));
    assert!(!writes_to_stdout(false, Some("--")));
    assert!(!writes_to_stdout(false, None));
}

#[test]
fn configure_defaults_match_new_generator() {
    let g = configure(&options()).unwrap();
    assert_eq!(g.generate(), dev_ci::generator::Generator::new().generate());
}

#[test]
fn configure_normalizes_job_names() {
    let mut o = options();
    o.with = vec![" Clippy ".to_string(), "FMT".to_string(), "".to_string(), "docs".to_string()];
    let yaml = configure(&o).unwrap().generate();
    assert!(yaml.contains("\n  clippy:\n"));
    assert!(yaml.contains("\n  fmt:\n"));
    assert!(yaml.contains("\n  docs:\n"));
    assert!(!yaml.contains("msrv:"));
}

#[test]
fn configure_rejects_unknown_job() {
    let mut o = options();
    o.with = vec!["clippy".to_string(), " Lint ".to_string()];
    assert_eq!(
        configure(&o).err().unwrap(),
        "unknown job in --with: \"lint\""
    );
}

#[test]
fn configure_msrv_job_needs_version() {
    let mut o = options();
    o.with = vec!["msrv".to_string()];
    assert_eq!(
        configure(&o).err().unwrap(),
        "--with msrv requires --msrv <VERSION>"
    );
    o.msrv = Some("1.85".to_string());
    let yaml = configure(&o).unwrap().generate();
    assert_eq!(yaml.matches("\n  msrv:\n").count(), 1);
    assert!(yaml.contains("MSRV (Rust 1.85)"));
}

#[test]
fn configure_msrv_without_with_still_adds_job() {
    let mut o = options();
    o.msrv = Some("1.80".to_string());
    let yaml = configure(&o).unwrap().generate();
    assert!(yaml.contains("dtolnay/rust-toolchain@1.80"));
}

#[test]
fn configure_reports_first_bad_path_dep() {
    let mut o = options();
    o.path_deps = vec!["a=https://a".to_string(), "broken".to_string(), "=x".to_string()];
    o.with = vec!["nope".to_string()];
    assert_eq!(
        configure(&o).err().unwrap(),
        "--path-dep must be name=url; got \"broken\""
    );
}

#[test]
fn configure_applies_every_option() {
    let o = GenerateOptions {
        target: TargetArg::GithubActions,
        workflow_name: "Full CI".to_string(),
        branches: vec!["main".to_string(), "release/*".to_string()],
        matrix: Vec::new(),
        with: vec!["clippy".to_string()],
        msrv: None,
        features: Some("a,b".to_string()),
        no_default_features_build: true,
        all_features_build: true,
        workspace: true,
        no_cache: true,
        path_deps: vec!["dev-report=https://example.com/r.git".to_string()],
    };
    let yaml = configure(&o).unwrap().generate();
    assert!(yaml.starts_with("name: 'Full CI'\n"));
    assert!(yaml.contains("branches: [main, release/*]"));
    assert!(yaml.contains("os: [ubuntu-latest]"));
    assert!(!yaml.contains("rust-cache"));
    assert!(yaml.contains("cargo build --workspace --features a,b --verbose"));
    assert!(yaml.contains("cargo build --workspace --no-default-features --verbose"));
    assert!(yaml.contains("cargo test --workspace --all-features --verbose"));
    assert!(yaml.contains("git clone --depth 1 'https://example.com/r.git' '../dev-report'"));
}

#[test]
fn configure_trims_unicode_white_space() {
    let mut o = options();
    o.with = vec!["\u{3000}Docs\u{a0}\t".to_string()];
    let yaml = configure(&o).unwrap().generate();
    assert!(yaml.contains("\n  docs:\n"));
}
