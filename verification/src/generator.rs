//! The workflow generator: its configuration, the builder methods that set
//! it, and the renderer whose output is specified by
//! [`crate::model::workflow_document`].

use vstd::prelude::*;
use vstd::string::*;
use crate::model::{
    branch_list_text, cargo_flags_text, cargo_step_text, clippy_job_text, clone_line_text,
    clone_lines_text, clone_step_text, common_setup_text, default_model, docs_job_text,
    fmt_job_text, github_actions_text, header_text, msrv_job_text, test_job_text,
    test_steps_text, test_matrix_text, clippy_steps_text, workflow_document, GeneratorModel, PathDepModel,
};
use crate::text::{join_with, shell_arg, yaml_scalar, yaml_scalar_of};

verus! {

/// Supported CI target platforms.
#[derive(Debug, Clone, Copy, PartialEq, Eq, Structural)]
pub enum Target {
    /// GitHub Actions workflow YAML.
    GitHubActions,
}

/// A sibling path dependency that the workflow clones into `../<name>`
/// before running cargo.
#[derive(Debug, Clone)]
pub struct PathDep {
    name: String,
    repo_url: String,
}

impl View for PathDep {
    type V = PathDepModel;

    closed spec fn view(&self) -> PathDepModel {
        PathDepModel { name: self.name@, repo_url: self.repo_url@ }
    }
}

impl PartialEq for PathDep {
    fn eq(&self, other: &Self) -> (r: bool) {
        self.name == other.name && self.repo_url == other.repo_url
    }
}

impl vstd::std_specs::cmp::PartialEqSpecImpl for PathDep {
    open spec fn obeys_eq_spec() -> bool {
        true
    }

    open spec fn eq_spec(&self, other: &Self) -> bool {
        self@ == other@
    }
}

impl Eq for PathDep {}

impl PathDep {
    /// A path dependency cloned from `repo_url` into `../<name>`.
    pub fn new(name: &str, repo_url: &str) -> (r: Self)
        ensures
            r@ == (PathDepModel { name: name@, repo_url: repo_url@ }),
    {
        PathDep { name: name.to_owned(), repo_url: repo_url.to_owned() }
    }

    /// Sibling directory name (cloned under `../<name>`).
    pub fn name(&self) -> (r: &str)
        ensures
            r@ == self@.name,
    {
        self.name.as_str()
    }

    /// Clone URL.
    pub fn repo_url(&self) -> (r: &str)
        ensures
            r@ == self@.repo_url,
    {
        self.repo_url.as_str()
    }
}

/// Builder for a CI workflow document.
#[derive(Debug, Clone)]
pub struct Generator {
    target: Target,
    workflow_name: String,
    branches: Vec<String>,
    matrix_os: Vec<String>,
    rust_cache: bool,
    workspace: bool,
    features: Option<String>,
    no_default_features_build: bool,
    all_features_build: bool,
    path_deps: Vec<PathDep>,
    clippy: bool,
    fmt: bool,
    docs: bool,
    msrv: Option<String>,
}

/// The view of an optional string.
pub open spec fn opt_string_view(o: Option<String>) -> Option<Seq<char>> {
    match o {
        Some(s) => Some(s@),
        None => None,
    }
}

/// The view of an optional string slice.
pub open spec fn opt_str_view(o: Option<&str>) -> Option<Seq<char>> {
    match o {
        Some(s) => Some(s@),
        None => None,
    }
}

impl View for Generator {
    type V = GeneratorModel;

    closed spec fn view(&self) -> GeneratorModel {
        GeneratorModel {
            target: self.target,
            workflow_name: self.workflow_name@,
            branches: self.branches.deep_view(),
            matrix_os: self.matrix_os.deep_view(),
            rust_cache: self.rust_cache,
            workspace: self.workspace,
            features: opt_string_view(self.features),
            no_default_features_build: self.no_default_features_build,
            all_features_build: self.all_features_build,
            path_deps: self.path_deps@.map_values(|d: PathDep| d@),
            clippy: self.clippy,
            fmt: self.fmt,
            docs: self.docs,
            msrv: opt_string_view(self.msrv),
        }
    }
}

/// Copies a list of string slices into owned strings.
fn to_owned_list(items: &[&str]) -> (r: Vec<String>)
    ensures
        r.deep_view() == items@.map_values(|s: &str| s@),
        r@.len() == items@.len(),
{
    let mut v: Vec<String> = Vec::new();
    for i in 0..items.len()
        invariant
            v@.len() == i,
            forall|j: int| 0 <= j < i ==> #[trigger] v@[j]@ == items@[j]@,
    {
        v.push(items[i].to_owned());
    }
    assert(v.deep_view() =~= items@.map_values(|s: &str| s@));
    v
}

/// `join_with` over a prefix one item longer.
proof fn lemma_join_take(items: Seq<Seq<char>>, sep: Seq<char>, i: int)
    requires
        0 <= i < items.len(),
    ensures
        join_with(items.take(i + 1), sep) == if i == 0 {
            items[0]
        } else {
            join_with(items.take(i), sep) + sep + items[i]
        },
{
    assert(items.take(i + 1).drop_last() =~= items.take(i));
}

/// Appends the items, each written as a YAML scalar, separated by `, `.
fn write_scalar_list(out: &mut String, items: &Vec<String>)
    ensures
        final(out)@ == old(out)@ + join_with(
            items.deep_view().map_values(|b: Seq<char>| yaml_scalar_of(b)),
            ", "@,
        ),
{
    let ghost start = out@;
    let ghost views = items.deep_view().map_values(|b: Seq<char>| yaml_scalar_of(b));
    for i in 0..items.len()
        invariant
            views == items.deep_view().map_values(|b: Seq<char>| yaml_scalar_of(b)),
            out@ == start + join_with(views.take(i as int), ", "@),
    {
        proof {
            lemma_join_take(views, ", "@, i as int);
        }
        if i > 0 {
            out.append(", ");
        }
        let s = yaml_scalar(items[i].as_str());
        out.append(s.as_str());
    }
    proof {
        assert(views.take(items.len() as int) =~= views);
    }
}

/// Appends `indent` and a YAML flow list of the branch patterns.
fn write_branch_list(out: &mut String, indent: &str, branches: &Vec<String>)
    ensures
        final(out)@ == old(out)@ + branch_list_text(indent@, branches.deep_view()),
{
    out.append(indent);
    out.append("branches: [");
    write_scalar_list(out, branches);
    out.append("]\n");
}

impl Default for Generator {
    /// The default configuration, as [`Generator::new`].
    fn default() -> (r: Self)
        ensures
            r@ == default_model(),
    {
        Self::new()
    }
}

impl Generator {
    /// A generator with the default configuration: target GitHub Actions,
    /// workflow name `CI`, branches `[main]`, matrix `[ubuntu-latest]`,
    /// cache enabled, no extra jobs, steps or flags.
    pub fn new() -> (r: Self)
        ensures
            r@ == default_model(),
            r@.wf(),
    {
        let mut branches: Vec<String> = Vec::new();
        branches.push("main".to_owned());
        let mut matrix_os: Vec<String> = Vec::new();
        matrix_os.push("ubuntu-latest".to_owned());
        let r = Generator {
            target: Target::GitHubActions,
            workflow_name: "CI".to_owned(),
            branches,
            matrix_os,
            rust_cache: true,
            workspace: false,
            features: None,
            no_default_features_build: false,
            all_features_build: false,
            path_deps: Vec::new(),
            clippy: false,
            fmt: false,
            docs: false,
            msrv: None,
        };
        proof {
            assert(r.branches.deep_view() =~= seq!["main"@]);
            assert(r.matrix_os.deep_view() =~= seq!["ubuntu-latest"@]);
            assert(r.path_deps@.map_values(|d: PathDep| d@) =~= Seq::<PathDepModel>::empty());
        }
        r
    }

    /// Selects the target CI platform.
    pub fn target(self, target: Target) -> (r: Self)
        ensures
            r@ == (GeneratorModel { target, ..self@ }),
    {
        let mut g = self;
        g.target = target;
        g
    }

    /// The selected target.
    pub fn target_kind(&self) -> (r: Target)
        ensures
            r == self@.target,
    {
        self.target
    }

    /// Sets the workflow `name:` field.
    pub fn workflow_name(self, name: &str) -> (r: Self)
        ensures
            r@ == (GeneratorModel { workflow_name: name@, ..self@ }),
    {
        let mut g = self;
        g.workflow_name = name.to_owned();
        g
    }

    /// Sets the branch filter of both `push` and `pull_request`; an empty
    /// list falls back to `[main]`. Patterns are kept unchanged.
    pub fn branches(self, branches: &[&str]) -> (r: Self)
        ensures
            r@ == (GeneratorModel {
                branches: if branches@.len() == 0 {
                    seq!["main"@]
                } else {
                    branches@.map_values(|b: &str| b@)
                },
                ..self@
            }),
            r@.branches.len() > 0,
    {
        let mut g = self;
        let mut list = to_owned_list(branches);
        if list.len() == 0 {
            list.push("main".to_owned());
            proof {
                assert(list.deep_view() =~= seq!["main"@]);
            }
        }
        g.branches = list;
        g
    }

    /// Sets the OS matrix of the `test` job; an empty list falls back to
    /// `[ubuntu-latest]`.
    pub fn matrix_os(self, os_list: &[&str]) -> (r: Self)
        ensures
            r@ == (GeneratorModel {
                matrix_os: if os_list@.len() == 0 {
                    seq!["ubuntu-latest"@]
                } else {
                    os_list@.map_values(|o: &str| o@)
                },
                ..self@
            }),
            r@.matrix_os.len() > 0,
    {
        let mut g = self;
        let mut list = to_owned_list(os_list);
        if list.len() == 0 {
            list.push("ubuntu-latest".to_owned());
            proof {
                assert(list.deep_view() =~= seq!["ubuntu-latest"@]);
            }
        }
        g.matrix_os = list;
        g
    }

    /// Turns the `Swatinem/rust-cache@v2` step on or off.
    pub fn with_cache(self, enabled: bool) -> (r: Self)
        ensures
            r@ == (GeneratorModel { rust_cache: enabled, ..self@ }),
    {
        let mut g = self;
        g.rust_cache = enabled;
        g
    }

    /// Passes `--workspace` to every cargo invocation.
    pub fn with_workspace(self) -> (r: Self)
        ensures
            r@ == (GeneratorModel { workspace: true, ..self@ }),
    {
        let mut g = self;
        g.workspace = true;
        g
    }

    /// Passes `--features <list>` to the default build and test steps and
    /// to the MSRV build.
    pub fn features(self, features: &str) -> (r: Self)
        ensures
            r@ == (GeneratorModel { features: Some(features@), ..self@ }),
    {
        let mut g = self;
        g.features = Some(features.to_owned());
        g
    }

    /// Adds a `cargo build --no-default-features` step to the `test` job.
    pub fn with_no_default_features_build(self) -> (r: Self)
        ensures
            r@ == (GeneratorModel { no_default_features_build: true, ..self@ }),
    {
        let mut g = self;
        g.no_default_features_build = true;
        g
    }

    /// Adds `--all-features` build and test steps to the `test` job.
    pub fn with_all_features_build(self) -> (r: Self)
        ensures
            r@ == (GeneratorModel { all_features_build: true, ..self@ }),
    {
        let mut g = self;
        g.all_features_build = true;
        g
    }

    /// Appends a sibling path dependency to clone before cargo runs.
    pub fn with_path_dep(self, dep: PathDep) -> (r: Self)
        ensures
            r@ == (GeneratorModel { path_deps: self@.path_deps.push(dep@), ..self@ }),
    {
        let mut g = self;
        let ghost before = g.path_deps@;
        g.path_deps.push(dep);
        proof {
            assert(g.path_deps@.map_values(|d: PathDep| d@) =~= before.map_values(
                |d: PathDep| d@,
            ).push(dep@));
        }
        g
    }

    /// Adds a clippy job.
    pub fn with_clippy(self) -> (r: Self)
        ensures
            r@ == (GeneratorModel { clippy: true, ..self@ }),
    {
        let mut g = self;
        g.clippy = true;
        g
    }

    /// Adds a rustfmt-check job.
    pub fn with_fmt(self) -> (r: Self)
        ensures
            r@ == (GeneratorModel { fmt: true, ..self@ }),
    {
        let mut g = self;
        g.fmt = true;
        g
    }

    /// Adds a `cargo doc` job with `RUSTDOCFLAGS="-D warnings"`.
    pub fn with_docs(self) -> (r: Self)
        ensures
            r@ == (GeneratorModel { docs: true, ..self@ }),
    {
        let mut g = self;
        g.docs = true;
        g
    }

    /// Adds an MSRV job pinned to the given Rust version.
    pub fn with_msrv(self, version: &str) -> (r: Self)
        ensures
            r@ == (GeneratorModel { msrv: Some(version@), ..self@ }),
    {
        let mut g = self;
        g.msrv = Some(version.to_owned());
        g
    }
}

impl Generator {
    /// Renders the workflow document. The output is a function of the
    /// configuration alone: two calls on equal configurations give equal
    /// strings.
    pub fn generate(&self) -> (r: String)
        ensures
            r@ == workflow_document(self@),
    {
        match self.target {
            Target::GitHubActions => self.render_github_actions(),
        }
    }

    fn render_github_actions(&self) -> (r: String)
        ensures
            r@ == github_actions_text(self@),
    {
        let mut out = String::new();
        self.write_header(&mut out);
        out.append("jobs:\n");
        self.write_test_job(&mut out);
        if self.clippy {
            self.write_clippy_job(&mut out);
        }
        if self.fmt {
            self.write_fmt_job(&mut out);
        }
        if self.docs {
            self.write_docs_job(&mut out);
        }
        match &self.msrv {
            Some(msrv) => self.write_msrv_job(&mut out, msrv.as_str()),
            None => {},
        }
        out
    }

    fn write_header(&self, out: &mut String)
        ensures
            final(out)@ == old(out)@ + header_text(self@),
    {
        let name = yaml_scalar(self.workflow_name.as_str());
        out.append("name: ");
        out.append(name.as_str());
        out.append("\n\non:\n  push:\n");
        write_branch_list(out, "    ", &self.branches);
        out.append("  pull_request:\n");
        write_branch_list(out, "    ", &self.branches);
        out.append("\nenv:\n  CARGO_TERM_COLOR: always\n\n");
    }

    fn write_test_job(&self, out: &mut String)
        ensures
            final(out)@ == old(out)@ + test_job_text(self@),
    {
        self.write_test_matrix(out);
        self.write_common_setup(out);
        self.write_test_steps(out);
    }

    fn write_test_matrix(&self, out: &mut String)
        ensures
            final(out)@ == old(out)@ + test_matrix_text(self@),
    {
        out.append(
            "  test:\n    name: Test (${{ matrix.os }})\n    runs-on: ${{ matrix.os }}\n    strategy:\n      fail-fast: false\n      matrix:\n        os: [",
        );
        write_scalar_list(out, &self.matrix_os);
        out.append("]\n    steps:\n");
    }

    fn write_test_steps(&self, out: &mut String)
        ensures
            final(out)@ == old(out)@ + test_steps_text(self@),
    {
        self.write_cargo_step(out, "Build", "build", false, false);
        self.write_cargo_step(out, "Test", "test", false, false);
        if self.no_default_features_build {
            self.write_cargo_step(out, "Build (no default features)", "build", true, false);
        }
        if self.all_features_build {
            self.write_cargo_step(out, "Build (all features)", "build", false, true);
            self.write_cargo_step(out, "Test (all features)", "test", false, true);
        }
    }

    fn write_clippy_job(&self, out: &mut String)
        ensures
            final(out)@ == old(out)@ + clippy_job_text(self@),
    {
        out.append("\n  clippy:\n    name: Clippy\n    runs-on: ubuntu-latest\n    steps:\n");
        self.write_common_setup_components(out, Some("clippy"), None);
        self.write_clippy_steps(out);
    }

    fn write_clippy_steps(&self, out: &mut String)
        ensures
            final(out)@ == old(out)@ + clippy_steps_text(self@),
    {
        let ws = self.cargo_flags_string(false, false);
        out.append("      - name: Clippy (all features)\n        run: cargo clippy");
        out.append(ws.as_str());
        out.append(
            " --all-targets --all-features -- -D warnings\n      - name: Clippy (no default features)\n        run: cargo clippy",
        );
        out.append(ws.as_str());
        out.append(" --all-targets --no-default-features -- -D warnings\n");
    }

    fn write_fmt_job(&self, out: &mut String)
        ensures
            final(out)@ == old(out)@ + fmt_job_text(),
    {
        out.append(
            "\n  fmt:\n    name: Rustfmt\n    runs-on: ubuntu-latest\n    steps:\n      - uses: actions/checkout@v5\n      - uses: dtolnay/rust-toolchain@stable\n        with:\n          components: rustfmt\n      - run: cargo fmt --all -- --check\n",
        );
    }

    fn write_docs_job(&self, out: &mut String)
        ensures
            final(out)@ == old(out)@ + docs_job_text(self@),
    {
        out.append(
            "\n  docs:\n    name: Doc build\n    runs-on: ubuntu-latest\n    env:\n      RUSTDOCFLAGS: \"-D warnings\"\n    steps:\n",
        );
        self.write_common_setup(out);
        let ws = self.cargo_flags_string(false, false);
        out.append("      - run: cargo doc");
        out.append(ws.as_str());
        out.append(" --all-features --no-deps\n");
    }

    fn write_msrv_job(&self, out: &mut String, msrv: &str)
        ensures
            final(out)@ == old(out)@ + msrv_job_text(self@, msrv@),
    {
        out.append("\n  msrv:\n    name: MSRV (Rust ");
        out.append(msrv);
        out.append(")\n    runs-on: ubuntu-latest\n    steps:\n");
        self.write_common_setup_components(out, None, Some(msrv));
        let extras = self.cargo_flags_string(true, false);
        out.append("      - run: cargo build");
        out.append(extras.as_str());
        out.append("\n");
    }

    fn write_common_setup(&self, out: &mut String)
        ensures
            final(out)@ == old(out)@ + common_setup_text(self@, None, None),
    {
        self.write_common_setup_components(out, None, None);
    }

    fn write_common_setup_components(
        &self,
        out: &mut String,
        component: Option<&str>,
        toolchain_pin: Option<&str>,
    )
        ensures
            final(out)@ == old(out)@ + common_setup_text(
                self@,
                opt_str_view(component),
                opt_str_view(toolchain_pin),
            ),
    {
        out.append("      - uses: actions/checkout@v5\n");
        self.write_clone_step(out);
        let toolchain = match toolchain_pin {
            Some(t) => t,
            None => "stable",
        };
        out.append("      - uses: dtolnay/rust-toolchain@");
        out.append(toolchain);
        out.append("\n");
        match component {
            Some(c) => {
                out.append("        with:\n          components: ");
                out.append(c);
                out.append("\n");
            },
            None => {},
        }
        if self.rust_cache {
            out.append("      - uses: Swatinem/rust-cache@v2\n");
        }
    }

    fn write_clone_step(&self, out: &mut String)
        ensures
            final(out)@ == old(out)@ + clone_step_text(self@.path_deps),
    {
        if self.path_deps.len() > 0 {
            out.append("      - name: Check out sibling crates (path deps)\n        run: |\n");
            let ghost prefix = out@;
            let ghost deps = self@.path_deps;
            for i in 0..self.path_deps.len()
                invariant
                    deps == self@.path_deps,
                    deps == self.path_deps@.map_values(|d: PathDep| d@),
                    out@ == prefix + clone_lines_text(deps.take(i as int)),
            {
                proof {
                    assert(deps.take(i + 1).drop_last() =~= deps.take(i as int));
                }
                self.write_clone_line(out, &self.path_deps[i]);
            }
            proof {
                assert(deps.take(self.path_deps.len() as int) =~= deps);
            }
        }
    }

    fn write_clone_line(&self, out: &mut String, dep: &PathDep)
        ensures
            final(out)@ == old(out)@ + clone_line_text(dep@),
    {
        let mut target = String::new();
        target.append("../");
        target.append(dep.name.as_str());
        let url = shell_arg(dep.repo_url.as_str());
        let dir = shell_arg(target.as_str());
        proof {
            assert(target@ =~= "../"@ + dep.name@);
        }
        out.append("          git clone --depth 1 ");
        out.append(url.as_str());
        out.append(" ");
        out.append(dir.as_str());
        out.append("\n");
    }

    fn write_cargo_step(
        &self,
        out: &mut String,
        name: &str,
        cmd: &str,
        no_default_features: bool,
        all_features: bool,
    )
        ensures
            final(out)@ == old(out)@ + cargo_step_text(
                self@,
                name@,
                cmd@,
                no_default_features,
                all_features,
            ),
    {
        let flags = self.cargo_flags_string(!no_default_features && !all_features, false);
        let extra = if no_default_features {
            " --no-default-features"
        } else if all_features {
            " --all-features"
        } else {
            ""
        };
        proof {
            reveal_strlit("");
        }
        out.append("      - name: ");
        out.append(name);
        out.append("\n        run: cargo ");
        out.append(cmd);
        out.append(flags.as_str());
        out.append(extra);
        out.append(" --verbose\n");
    }

    /// The flag suffix of a cargo command (for example
    /// ` --workspace --features foo`).
    fn cargo_flags_string(&self, include_features: bool, force_workspace: bool) -> (r: String)
        ensures
            r@ == cargo_flags_text(self@, include_features, force_workspace),
    {
        let mut s = String::new();
        if self.workspace || force_workspace {
            s.append(" --workspace");
        }
        if include_features {
            match &self.features {
                Some(f) => {
                    if !f.as_str().is_empty() {
                        s.append(" --features ");
                        s.append(f.as_str());
                    }
                },
                None => {},
            }
        }
        s
    }
}

} // verus!
