//! The mathematical model of a workflow configuration and the exact text of
//! the document rendered from it.

use vstd::prelude::*;
use crate::generator::Target;
use crate::text::{join_with, shell_quoted, yaml_scalar_of};

verus! {

/// A sibling path dependency: the directory name it is cloned to (under
/// `..`) and the URL it is cloned from.
pub struct PathDepModel {
    pub name: Seq<char>,
    pub repo_url: Seq<char>,
}

/// Everything a generator has been configured with.
pub struct GeneratorModel {
    pub target: Target,
    pub workflow_name: Seq<char>,
    pub branches: Seq<Seq<char>>,
    pub matrix_os: Seq<Seq<char>>,
    pub rust_cache: bool,
    pub workspace: bool,
    pub features: Option<Seq<char>>,
    pub no_default_features_build: bool,
    pub all_features_build: bool,
    pub path_deps: Seq<PathDepModel>,
    pub clippy: bool,
    pub fmt: bool,
    pub docs: bool,
    pub msrv: Option<Seq<char>>,
}

impl GeneratorModel {
    /// The branch filter and the OS matrix are never empty.
    pub open spec fn wf(self) -> bool {
        &&& self.branches.len() > 0
        &&& self.matrix_os.len() > 0
    }
}

/// The configuration of a fresh generator.
pub open spec fn default_model() -> GeneratorModel {
    GeneratorModel {
        target: Target::GitHubActions,
        workflow_name: "CI"@,
        branches: seq!["main"@],
        matrix_os: seq!["ubuntu-latest"@],
        rust_cache: true,
        workspace: false,
        features: None,
        no_default_features_build: false,
        all_features_build: false,
        path_deps: Seq::empty(),
        clippy: false,
        fmt: false,
        docs: false,
        msrv: None,
    }
}

/// `indent` followed by a YAML flow list of the branch patterns.
pub open spec fn branch_list_text(indent: Seq<char>, branches: Seq<Seq<char>>) -> Seq<char> {
    indent + "branches: ["@ + join_with(branches.map_values(|b: Seq<char>| yaml_scalar_of(b)), ", "@)
        + "]\n"@
}

/// The workflow name, the `push` / `pull_request` triggers and the
/// environment block.
pub open spec fn header_text(g: GeneratorModel) -> Seq<char> {
    "name: "@ + yaml_scalar_of(g.workflow_name) + "\n\non:\n  push:\n"@ + branch_list_text(
        "    "@,
        g.branches,
    ) + "  pull_request:\n"@ + branch_list_text("    "@, g.branches)
        + "\nenv:\n  CARGO_TERM_COLOR: always\n\n"@
}

/// The flag suffix of a cargo command: ` --workspace` when the workspace
/// flag is set (or forced), then ` --features <list>` when features are
/// included and the list is set and non-empty.
pub open spec fn cargo_flags_text(
    g: GeneratorModel,
    include_features: bool,
    force_workspace: bool,
) -> Seq<char> {
    (if g.workspace || force_workspace {
        " --workspace"@
    } else {
        Seq::empty()
    }) + (if include_features && g.features is Some && g.features->0.len() > 0 {
        " --features "@ + g.features->0
    } else {
        Seq::empty()
    })
}

/// A named `cargo <cmd>` step; `--features` is left out of the steps that
/// pass `--no-default-features` or `--all-features`.
pub open spec fn cargo_step_text(
    g: GeneratorModel,
    name: Seq<char>,
    cmd: Seq<char>,
    no_default_features: bool,
    all_features: bool,
) -> Seq<char> {
    "      - name: "@ + name + "\n        run: cargo "@ + cmd + cargo_flags_text(
        g,
        !no_default_features && !all_features,
        false,
    ) + (if no_default_features {
        " --no-default-features"@
    } else if all_features {
        " --all-features"@
    } else {
        Seq::empty()
    }) + " --verbose\n"@
}

/// The `git clone` line of one path dependency.
pub open spec fn clone_line_text(dep: PathDepModel) -> Seq<char> {
    "          git clone --depth 1 "@ + shell_quoted(dep.repo_url) + " "@ + shell_quoted(
        "../"@ + dep.name,
    ) + "\n"@
}

/// The `git clone` lines of the path dependencies, in order.
pub open spec fn clone_lines_text(deps: Seq<PathDepModel>) -> Seq<char>
    decreases deps.len(),
{
    if deps.len() == 0 {
        Seq::empty()
    } else {
        clone_lines_text(deps.drop_last()) + clone_line_text(deps.last())
    }
}

/// The step that clones the path dependencies, when there are any.
pub open spec fn clone_step_text(deps: Seq<PathDepModel>) -> Seq<char> {
    if deps.len() > 0 {
        "      - name: Check out sibling crates (path deps)\n        run: |\n"@ + clone_lines_text(deps)
    } else {
        Seq::empty()
    }
}

/// The steps every job starts with: checkout, the path-dependency clones
/// (when there are any), the toolchain (pinned or `stable`, with an
/// optional component) and the cache action (when enabled).
pub open spec fn common_setup_text(
    g: GeneratorModel,
    component: Option<Seq<char>>,
    toolchain_pin: Option<Seq<char>>,
) -> Seq<char> {
    "      - uses: actions/checkout@v5\n"@ + clone_step_text(g.path_deps)
        + "      - uses: dtolnay/rust-toolchain@"@ + (match toolchain_pin {
        Some(t) => t,
        None => "stable"@,
    }) + "\n"@ + (match component {
        Some(c) => "        with:\n          components: "@ + c + "\n"@,
        None => Seq::empty(),
    }) + (if g.rust_cache {
        "      - uses: Swatinem/rust-cache@v2\n"@
    } else {
        Seq::empty()
    })
}

/// The build and test steps of the `test` job: the default build and test,
/// then the no-default-features build and the all-features build and test
/// when they are enabled.
pub open spec fn test_steps_text(g: GeneratorModel) -> Seq<char> {
    cargo_step_text(g, "Build"@, "build"@, false, false) + cargo_step_text(
        g,
        "Test"@,
        "test"@,
        false,
        false,
    ) + (if g.no_default_features_build {
        cargo_step_text(g, "Build (no default features)"@, "build"@, true, false)
    } else {
        Seq::empty()
    }) + (if g.all_features_build {
        cargo_step_text(g, "Build (all features)"@, "build"@, false, true) + cargo_step_text(
            g,
            "Test (all features)"@,
            "test"@,
            false,
            true,
        )
    } else {
        Seq::empty()
    })
}

/// The start of the `test` job, up to its steps: the name, runner and the
/// OS matrix (each runner name written as a YAML scalar).
pub open spec fn test_matrix_text(g: GeneratorModel) -> Seq<char> {
    "  test:\n    name: Test (${{ matrix.os }})\n    runs-on: ${{ matrix.os }}\n    strategy:\n      fail-fast: false\n      matrix:\n        os: ["@
        + join_with(g.matrix_os.map_values(|o: Seq<char>| yaml_scalar_of(o)), ", "@)
        + "]\n    steps:\n"@
}

/// The `test` job: the OS matrix, the common setup and the build and test
/// steps.
pub open spec fn test_job_text(g: GeneratorModel) -> Seq<char> {
    test_matrix_text(g) + common_setup_text(g, None, None) + test_steps_text(g)
}

/// The start of the `clippy` job, up to its steps.
pub open spec fn clippy_head_text() -> Seq<char> {
    "\n  clippy:\n    name: Clippy\n    runs-on: ubuntu-latest\n    steps:\n"@
}

/// The lint steps of the `clippy` job: with and without default features,
/// each passing `--workspace` when the workspace flag is set.
pub open spec fn clippy_steps_text(g: GeneratorModel) -> Seq<char> {
    "      - name: Clippy (all features)\n        run: cargo clippy"@ + cargo_flags_text(g, false, false)
        + " --all-targets --all-features -- -D warnings\n      - name: Clippy (no default features)\n        run: cargo clippy"@
        + cargo_flags_text(g, false, false)
        + " --all-targets --no-default-features -- -D warnings\n"@
}

/// The `clippy` job.
pub open spec fn clippy_job_text(g: GeneratorModel) -> Seq<char> {
    clippy_head_text() + common_setup_text(g, Some("clippy"@), None) + clippy_steps_text(g)
}

/// The `fmt` job.
pub open spec fn fmt_job_text() -> Seq<char> {
    "\n  fmt:\n    name: Rustfmt\n    runs-on: ubuntu-latest\n    steps:\n      - uses: actions/checkout@v5\n      - uses: dtolnay/rust-toolchain@stable\n        with:\n          components: rustfmt\n      - run: cargo fmt --all -- --check\n"@
}

/// The start of the `docs` job, up to its steps.
pub open spec fn docs_head_text() -> Seq<char> {
    "\n  docs:\n    name: Doc build\n    runs-on: ubuntu-latest\n    env:\n      RUSTDOCFLAGS: \"-D warnings\"\n    steps:\n"@
}

/// The `cargo doc` step, passing `--workspace` when the workspace flag is
/// set.
pub open spec fn docs_steps_text(g: GeneratorModel) -> Seq<char> {
    "      - run: cargo doc"@ + cargo_flags_text(g, false, false) + " --all-features --no-deps\n"@
}

/// The `docs` job.
pub open spec fn docs_job_text(g: GeneratorModel) -> Seq<char> {
    docs_head_text() + common_setup_text(g, None, None) + docs_steps_text(g)
}

/// The start of the `msrv` job for toolchain `msrv`, up to its steps.
pub open spec fn msrv_head_text(msrv: Seq<char>) -> Seq<char> {
    "\n  msrv:\n    name: MSRV (Rust "@ + msrv + ")\n    runs-on: ubuntu-latest\n    steps:\n"@
}

/// The `cargo build` step of the `msrv` job.
pub open spec fn msrv_steps_text(g: GeneratorModel) -> Seq<char> {
    "      - run: cargo build"@ + cargo_flags_text(g, true, false) + "\n"@
}

/// The `msrv` job, pinned to toolchain `msrv`.
pub open spec fn msrv_job_text(g: GeneratorModel, msrv: Seq<char>) -> Seq<char> {
    msrv_head_text(msrv) + common_setup_text(g, None, Some(msrv)) + msrv_steps_text(g)
}

/// The whole GitHub Actions workflow document: header, `jobs:`, the test
/// job, then the clippy, fmt, docs and msrv jobs that are enabled.
pub open spec fn github_actions_text(g: GeneratorModel) -> Seq<char> {
    header_text(g) + "jobs:\n"@ + test_job_text(g) + (if g.clippy {
        clippy_job_text(g)
    } else {
        Seq::empty()
    }) + (if g.fmt {
        fmt_job_text()
    } else {
        Seq::empty()
    }) + (if g.docs {
        docs_job_text(g)
    } else {
        Seq::empty()
    }) + (match g.msrv {
        Some(m) => msrv_job_text(g, m),
        None => Seq::empty(),
    })
}

/// The document rendered for a configuration, by target platform.
pub open spec fn workflow_document(g: GeneratorModel) -> Seq<char> {
    match g.target {
        Target::GitHubActions => github_actions_text(g),
    }
}

/// `t` occurs in `s`.
pub open spec fn contains_text(s: Seq<char>, t: Seq<char>) -> bool {
    exists|i: int| 0 <= i <= s.len() - t.len() && #[trigger] s.subrange(i, i + t.len()) == t
}

/// `s` begins with `p`.
pub open spec fn starts_with(s: Seq<char>, p: Seq<char>) -> bool {
    p.len() <= s.len() && s.take(p.len() as int) == p
}

pub(crate) proof fn lemma_contains_self(t: Seq<char>)
    ensures
        contains_text(t, t),
{
    let i = 0int;
    assert(t.subrange(i, i + t.len()) =~= t);
}

pub(crate) proof fn lemma_contains_left(x: Seq<char>, y: Seq<char>, t: Seq<char>)
    requires
        contains_text(x, t),
    ensures
        contains_text(x + y, t),
{
    let i = choose|i: int| 0 <= i <= x.len() - t.len() && #[trigger] x.subrange(i, i + t.len()) == t;
    assert((x + y).subrange(i, i + t.len()) =~= x.subrange(i, i + t.len()));
}

pub(crate) proof fn lemma_contains_right(x: Seq<char>, y: Seq<char>, t: Seq<char>)
    requires
        contains_text(y, t),
    ensures
        contains_text(x + y, t),
{
    let i = choose|i: int| 0 <= i <= y.len() - t.len() && #[trigger] y.subrange(i, i + t.len()) == t;
    assert((x + y).subrange(x.len() + i, x.len() + i + t.len()) =~= y.subrange(i, i + t.len()));
}

pub(crate) proof fn lemma_contains_middle(a: Seq<char>, t: Seq<char>, b: Seq<char>)
    ensures
        contains_text(a + t + b, t),
{
    let s = a + t + b;
    assert(s.subrange(a.len() as int, (a.len() + t.len()) as int) =~= t);
}

pub(crate) proof fn lemma_starts_left(x: Seq<char>, y: Seq<char>, p: Seq<char>)
    requires
        starts_with(x, p),
    ensures
        starts_with(x + y, p),
{
    assert((x + y).take(p.len() as int) =~= x.take(p.len() as int));
}

pub(crate) proof fn lemma_starts_extend(a: Seq<char>, l: Seq<char>, p: Seq<char>)
    requires
        starts_with(l, p),
    ensures
        starts_with(a + l, a + p),
{
    assert((a + l).take((a + p).len() as int) =~= a + l.take(p.len() as int));
}

/// The document starts with the `name:` line of the workflow name.
pub proof fn document_starts_with_name(g: GeneratorModel)
    ensures
        starts_with(workflow_document(g), "name: "@ + yaml_scalar_of(g.workflow_name) + "\n"@),
{
    let a = "name: "@ + yaml_scalar_of(g.workflow_name);
    let l = "\n\non:\n  push:\n"@;
    let p = a + "\n"@;
    let bl = branch_list_text("    "@, g.branches);
    assert(starts_with(l, "\n"@)) by {
        reveal_strlit("\n\non:\n  push:\n");
        reveal_strlit("\n");
        assert(l.take(1) =~= "\n"@);
    }
    lemma_starts_extend(a, l, "\n"@);
    let h1 = a + l;
    lemma_starts_left(h1, bl, p);
    let h2 = h1 + bl;
    lemma_starts_left(h2, "  pull_request:\n"@, p);
    let h3 = h2 + "  pull_request:\n"@;
    lemma_starts_left(h3, bl, p);
    let h4 = h3 + bl;
    lemma_starts_left(h4, "\nenv:\n  CARGO_TERM_COLOR: always\n\n"@, p);
    let h = header_text(g);
    assert(h == h4 + "\nenv:\n  CARGO_TERM_COLOR: always\n\n"@);
    lemma_starts_left(h, "jobs:\n"@, p);
    let d1 = h + "jobs:\n"@;
    lemma_starts_left(d1, test_job_text(g), p);
    let d2 = d1 + test_job_text(g);
    let c = if g.clippy { clippy_job_text(g) } else { Seq::empty() };
    lemma_starts_left(d2, c, p);
    let d3 = d2 + c;
    let f = if g.fmt { fmt_job_text() } else { Seq::empty() };
    lemma_starts_left(d3, f, p);
    let d4 = d3 + f;
    let o = if g.docs { docs_job_text(g) } else { Seq::empty() };
    lemma_starts_left(d4, o, p);
    let d5 = d4 + o;
    let m = match g.msrv {
        Some(m) => msrv_job_text(g, m),
        None => Seq::empty(),
    };
    lemma_starts_left(d5, m, p);
    assert(workflow_document(g) == d5 + m);
}

/// Text found in the header is found in the document.
proof fn lemma_header_in_document(g: GeneratorModel, t: Seq<char>)
    requires
        contains_text(header_text(g), t),
    ensures
        contains_text(workflow_document(g), t),
{
    let (c, f, o, m) = later_jobs_text(g);
    let h = header_text(g);
    lemma_contains_left(h, "jobs:\n"@, t);
    let d1 = h + "jobs:\n"@;
    lemma_contains_left(d1, test_job_text(g), t);
    let d2 = d1 + test_job_text(g);
    lemma_contains_left(d2, c, t);
    lemma_contains_left(d2 + c, f, t);
    lemma_contains_left(d2 + c + f, o, t);
    lemma_contains_left(d2 + c + f + o, m, t);
    assert(workflow_document(g) == d2 + c + f + o + m);
}

/// Both the `push` and the `pull_request` trigger carry the branch filter.
pub proof fn document_filters_push_and_pull_request(g: GeneratorModel)
    ensures
        contains_text(workflow_document(g), "  push:\n"@ + branch_list_text("    "@, g.branches)),
        contains_text(
            workflow_document(g),
            "  pull_request:\n"@ + branch_list_text("    "@, g.branches),
        ),
{
    let bl = branch_list_text("    "@, g.branches);
    let push = "  push:\n"@ + bl;
    let pr = "  pull_request:\n"@ + bl;
    let env = "\nenv:\n  CARGO_TERM_COLOR: always\n\n"@;
    let a = "name: "@ + yaml_scalar_of(g.workflow_name);
    let on = "\n\non:\n"@;
    assert("\n\non:\n  push:\n"@ =~= on + "  push:\n"@) by {
        reveal_strlit("\n\non:\n  push:\n");
        reveal_strlit("\n\non:\n");
        reveal_strlit("  push:\n");
    }
    let h = header_text(g);
    assert(h =~= (a + on) + push + (pr + env));
    lemma_contains_middle(a + on, push, pr + env);
    assert(h =~= (a + on + push) + pr + env);
    lemma_contains_middle(a + on + push, pr, env);
    lemma_header_in_document(g, push);
    lemma_header_in_document(g, pr);
}

/// The jobs that follow the test job, as they stand in the document.
spec fn later_jobs_text(g: GeneratorModel) -> (Seq<char>, Seq<char>, Seq<char>, Seq<char>) {
    (
        if g.clippy {
            clippy_job_text(g)
        } else {
            Seq::empty()
        },
        if g.fmt {
            fmt_job_text()
        } else {
            Seq::empty()
        },
        if g.docs {
            docs_job_text(g)
        } else {
            Seq::empty()
        },
        match g.msrv {
            Some(m) => msrv_job_text(g, m),
            None => Seq::empty(),
        },
    )
}

/// Text found in the test job is found in the document.
pub(crate) proof fn lemma_test_job_in_document(g: GeneratorModel, t: Seq<char>)
    requires
        contains_text(test_job_text(g), t),
    ensures
        contains_text(workflow_document(g), t),
{
    let (c, f, o, m) = later_jobs_text(g);
    let d1 = header_text(g) + "jobs:\n"@;
    lemma_contains_right(d1, test_job_text(g), t);
    let d2 = d1 + test_job_text(g);
    lemma_contains_left(d2, c, t);
    lemma_contains_left(d2 + c, f, t);
    lemma_contains_left(d2 + c + f, o, t);
    lemma_contains_left(d2 + c + f + o, m, t);
    assert(workflow_document(g) == d2 + c + f + o + m);
}

/// The test job checks the repository out with `actions/checkout@v5`.
pub proof fn document_checks_out_with_v5(g: GeneratorModel)
    ensures
        contains_text(workflow_document(g), "      - uses: actions/checkout@v5\n"@),
{
    let chk = "      - uses: actions/checkout@v5\n"@;
    let setup = common_setup_text(g, None, None);
    let rest = setup.skip(chk.len() as int);
    assert(setup =~= chk + rest);
    lemma_contains_self(chk);
    lemma_contains_left(chk, rest, chk);
    let pre = "  test:\n    name: Test (${{ matrix.os }})\n    runs-on: ${{ matrix.os }}\n    strategy:\n      fail-fast: false\n      matrix:\n        os: ["@
        + join_with(g.matrix_os.map_values(|o: Seq<char>| yaml_scalar_of(o)), ", "@)
        + "]\n    steps:\n"@;
    lemma_contains_right(pre, setup, chk);
    lemma_contains_left(pre + setup, test_steps_text(g), chk);
    assert(test_job_text(g) == pre + setup + test_steps_text(g));
    lemma_test_job_in_document(g, chk);
}

proof fn lemma_toolchain_line()
    ensures
        "      - uses: dtolnay/rust-toolchain@"@ == "      - uses: "@ + "dtolnay/rust-toolchain@"@,
{
    reveal_strlit("      - uses: dtolnay/rust-toolchain@");
    reveal_strlit("      - uses: ");
    reveal_strlit("dtolnay/rust-toolchain@");
    assert("      - uses: dtolnay/rust-toolchain@"@ =~= "      - uses: "@ + "dtolnay/rust-toolchain@"@);
}

proof fn lemma_pinned_line_contains_pin(m: Seq<char>)
    ensures
        contains_text("      - uses: dtolnay/rust-toolchain@"@ + m, "dtolnay/rust-toolchain@"@ + m),
{
    let pin = "dtolnay/rust-toolchain@"@ + m;
    lemma_toolchain_line();
    assert("      - uses: dtolnay/rust-toolchain@"@ + m =~= "      - uses: "@ + pin
        + Seq::<char>::empty());
    lemma_contains_middle("      - uses: "@, pin, Seq::empty());
}

/// A setup pinned to toolchain `m` names the action `dtolnay/rust-toolchain@<m>`.
proof fn lemma_setup_pins_toolchain(g: GeneratorModel, m: Seq<char>)
    ensures
        contains_text(common_setup_text(g, None, Some(m)), "dtolnay/rust-toolchain@"@ + m),
{
    let pin = "dtolnay/rust-toolchain@"@ + m;
    let clones = clone_step_text(g.path_deps);
    let before = "      - uses: actions/checkout@v5\n"@ + clones;
    let line = "      - uses: dtolnay/rust-toolchain@"@;
    lemma_pinned_line_contains_pin(m);
    lemma_contains_right(before, line + m, pin);
    assert(before + line + m =~= before + (line + m));
    let s1 = before + line + m;
    lemma_contains_left(s1, "\n"@, pin);
    let s2 = s1 + "\n"@;
    let comp = Seq::<char>::empty();
    lemma_contains_left(s2, comp, pin);
    let cache = if g.rust_cache {
        "      - uses: Swatinem/rust-cache@v2\n"@
    } else {
        Seq::<char>::empty()
    };
    lemma_contains_left(s2 + comp, cache, pin);
    assert(common_setup_text(g, None, Some(m)) == s2 + comp + cache);
}

/// When an MSRV is set, the document pins the toolchain action to it.
pub proof fn document_pins_msrv_toolchain(g: GeneratorModel, m: Seq<char>)
    requires
        g.msrv == Some(m),
    ensures
        contains_text(workflow_document(g), "dtolnay/rust-toolchain@"@ + m),
{
    let pin = "dtolnay/rust-toolchain@"@ + m;
    let setup = common_setup_text(g, None, Some(m));
    lemma_setup_pins_toolchain(g, m);
    let head = "\n  msrv:\n    name: MSRV (Rust "@ + m + ")\n    runs-on: ubuntu-latest\n    steps:\n"@;
    lemma_contains_right(head, setup, pin);
    let j1 = head + setup;
    lemma_contains_left(j1, "      - run: cargo build"@, pin);
    let j2 = j1 + "      - run: cargo build"@;
    lemma_contains_left(j2, cargo_flags_text(g, true, false), pin);
    let j3 = j2 + cargo_flags_text(g, true, false);
    lemma_contains_left(j3, "\n"@, pin);
    let job = msrv_job_text(g, m);
    assert(job == j3 + "\n"@);
    let (c, f, o, mm) = later_jobs_text(g);
    assert(mm == job);
    let pre = header_text(g) + "jobs:\n"@ + test_job_text(g) + c + f + o;
    lemma_contains_right(pre, job, pin);
    assert(workflow_document(g) == pre + job);
}

/// Each optional job that is enabled stands in the document in full.
pub proof fn document_includes_enabled_jobs(g: GeneratorModel)
    ensures
        g.clippy ==> contains_text(workflow_document(g), clippy_job_text(g)),
        g.fmt ==> contains_text(workflow_document(g), fmt_job_text()),
        g.docs ==> contains_text(workflow_document(g), docs_job_text(g)),
        g.msrv matches Some(m) ==> contains_text(workflow_document(g), msrv_job_text(g, m)),
{
    let (c, f, o, m) = later_jobs_text(g);
    let d2 = header_text(g) + "jobs:\n"@ + test_job_text(g);
    assert(workflow_document(g) == d2 + c + f + o + m);
    lemma_contains_self(c);
    lemma_contains_right(d2, c, c);
    lemma_contains_left(d2 + c, f, c);
    lemma_contains_left(d2 + c + f, o, c);
    lemma_contains_left(d2 + c + f + o, m, c);
    lemma_contains_self(f);
    lemma_contains_right(d2 + c, f, f);
    lemma_contains_left(d2 + c + f, o, f);
    lemma_contains_left(d2 + c + f + o, m, f);
    lemma_contains_self(o);
    lemma_contains_right(d2 + c + f, o, o);
    lemma_contains_left(d2 + c + f + o, m, o);
    lemma_contains_self(m);
    lemma_contains_right(d2 + c + f + o, m, m);
}

pub(crate) proof fn lemma_literal_prefix(long: Seq<char>, short: Seq<char>)
    requires
        short.len() <= long.len(),
        forall|i: int| 0 <= i < short.len() ==> long[i] == short[i],
    ensures
        starts_with(long, short),
{
    assert(long.take(short.len() as int) =~= short);
}

/// The document is the header, `jobs:`, the test job, then the clippy,
/// fmt, docs and msrv jobs that are enabled, in that order; each job
/// begins with its name line, and every job after the test job is preceded
/// by an empty line.
pub proof fn document_job_sections(g: GeneratorModel)
    ensures
        workflow_document(g) == header_text(g) + "jobs:\n"@ + test_job_text(g) + (if g.clippy {
            clippy_job_text(g)
        } else {
            Seq::empty()
        }) + (if g.fmt {
            fmt_job_text()
        } else {
            Seq::empty()
        }) + (if g.docs {
            docs_job_text(g)
        } else {
            Seq::empty()
        }) + (match g.msrv {
            Some(m) => msrv_job_text(g, m),
            None => Seq::empty(),
        }),
        starts_with(test_job_text(g), "  test:\n"@),
        starts_with(clippy_job_text(g), "\n  clippy:\n"@),
        starts_with(fmt_job_text(), "\n  fmt:\n"@),
        starts_with(docs_job_text(g), "\n  docs:\n"@),
        forall|m: Seq<char>| starts_with(#[trigger] msrv_job_text(g, m), "\n  msrv:\n"@),
{
    let t = "  test:\n    name: Test (${{ matrix.os }})\n    runs-on: ${{ matrix.os }}\n    strategy:\n      fail-fast: false\n      matrix:\n        os: ["@;
    reveal_strlit("  test:\n    name: Test (${{ matrix.os }})\n    runs-on: ${{ matrix.os }}\n    strategy:\n      fail-fast: false\n      matrix:\n        os: [");
    reveal_strlit("  test:\n");
    lemma_literal_prefix(t, "  test:\n"@);
    let test_rest = join_with(g.matrix_os.map_values(|o: Seq<char>| yaml_scalar_of(o)), ", "@)
        + "]\n    steps:\n"@ + common_setup_text(g, None, None) + test_steps_text(g);
    assert(test_job_text(g) =~= t + test_rest);
    lemma_starts_left(t, test_rest, "  test:\n"@);

    let c = "\n  clippy:\n    name: Clippy\n    runs-on: ubuntu-latest\n    steps:\n"@;
    reveal_strlit("\n  clippy:\n    name: Clippy\n    runs-on: ubuntu-latest\n    steps:\n");
    reveal_strlit("\n  clippy:\n");
    lemma_literal_prefix(c, "\n  clippy:\n"@);
    let c_rest = clippy_job_text(g).skip(c.len() as int);
    assert(clippy_job_text(g) =~= c + c_rest);
    lemma_starts_left(c, c_rest, "\n  clippy:\n"@);

    reveal_strlit("\n  fmt:\n    name: Rustfmt\n    runs-on: ubuntu-latest\n    steps:\n      - uses: actions/checkout@v5\n      - uses: dtolnay/rust-toolchain@stable\n        with:\n          components: rustfmt\n      - run: cargo fmt --all -- --check\n");
    reveal_strlit("\n  fmt:\n");
    lemma_literal_prefix(fmt_job_text(), "\n  fmt:\n"@);

    let d = "\n  docs:\n    name: Doc build\n    runs-on: ubuntu-latest\n    env:\n      RUSTDOCFLAGS: \"-D warnings\"\n    steps:\n"@;
    reveal_strlit("\n  docs:\n    name: Doc build\n    runs-on: ubuntu-latest\n    env:\n      RUSTDOCFLAGS: \"-D warnings\"\n    steps:\n");
    reveal_strlit("\n  docs:\n");
    lemma_literal_prefix(d, "\n  docs:\n"@);
    let d_rest = docs_job_text(g).skip(d.len() as int);
    assert(docs_job_text(g) =~= d + d_rest);
    lemma_starts_left(d, d_rest, "\n  docs:\n"@);

    assert forall|m: Seq<char>| starts_with(#[trigger] msrv_job_text(g, m), "\n  msrv:\n"@) by {
        let h = "\n  msrv:\n    name: MSRV (Rust "@;
        reveal_strlit("\n  msrv:\n    name: MSRV (Rust ");
        reveal_strlit("\n  msrv:\n");
        lemma_literal_prefix(h, "\n  msrv:\n"@);
        let rest = msrv_job_text(g, m).skip(h.len() as int);
        assert(msrv_job_text(g, m) =~= h + rest);
        lemma_starts_left(h, rest, "\n  msrv:\n"@);
    }
}

/// With the workspace flag set, the flags of every cargo command that this
/// crate writes with flags (build, test, clippy, doc) begin with
/// ` --workspace`.
pub proof fn workspace_flag_leads_cargo_flags(
    g: GeneratorModel,
    include_features: bool,
    force_workspace: bool,
)
    requires
        g.workspace,
    ensures
        starts_with(cargo_flags_text(g, include_features, force_workspace), " --workspace"@),
{
    let rest = if include_features && g.features is Some && g.features->0.len() > 0 {
        " --features "@ + g.features->0
    } else {
        Seq::<char>::empty()
    };
    lemma_literal_prefix(" --workspace"@, " --workspace"@);
    lemma_starts_left(" --workspace"@, rest, " --workspace"@);
}

} // verus!
