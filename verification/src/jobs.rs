//! Laws on the text of each job, written out in full: what every job runs
//! before cargo, and the fixed settings of the test, docs and fmt jobs.

use vstd::prelude::*;
use crate::model::{
    clippy_head_text, clippy_steps_text, clone_lines_text, common_setup_text, contains_text,
    docs_head_text, docs_steps_text, document_includes_enabled_jobs, fmt_job_text,
    lemma_contains_left, lemma_contains_self, lemma_test_job_in_document, msrv_head_text,
    msrv_steps_text, test_matrix_text, test_steps_text, workflow_document, GeneratorModel,
    PathDepModel,
};
use crate::text::{join_with, shell_quoted, yaml_scalar_of};

verus! {

/// `t` occurs in `s`, and `s` occurs in `u`: then `t` occurs in `u`.
proof fn lemma_contains_trans(u: Seq<char>, s: Seq<char>, t: Seq<char>)
    requires
        contains_text(u, s),
        contains_text(s, t),
    ensures
        contains_text(u, t),
{
    let i = choose|i: int| 0 <= i <= u.len() - s.len() && #[trigger] u.subrange(i, i + s.len()) == s;
    let j = choose|j: int| 0 <= j <= s.len() - t.len() && #[trigger] s.subrange(j, j + t.len()) == t;
    assert(u.subrange(i + j, i + j + t.len()) =~= s.subrange(j, j + t.len()));
}

/// A text begins with `p` when it is `p` followed by anything.
proof fn lemma_contains_prefix(p: Seq<char>, rest: Seq<char>)
    ensures
        contains_text(p + rest, p),
{
    lemma_contains_self(p);
    lemma_contains_left(p, rest, p);
}

/// The step that clones the sibling path dependencies, when any are
/// declared.
pub open spec fn sibling_clone_step(deps: Seq<PathDepModel>) -> Seq<char> {
    if deps.len() > 0 {
        "      - name: Check out sibling crates (path deps)\n        run: |\n"@ + clone_lines_text(deps)
    } else {
        Seq::empty()
    }
}

proof fn lemma_setup_shape(
    g: GeneratorModel,
    component: Option<Seq<char>>,
    toolchain_pin: Option<Seq<char>>,
)
    ensures
        ({
            let toolchain = match toolchain_pin {
                Some(t) => t,
                None => "stable"@,
            };
            let with = match component {
                Some(c) => "        with:\n          components: "@ + c + "\n"@,
                None => Seq::empty(),
            };
            let cache = if g.rust_cache {
                "      - uses: Swatinem/rust-cache@v2\n"@
            } else {
                Seq::empty()
            };
            common_setup_text(g, component, toolchain_pin) == "      - uses: actions/checkout@v5\n"@
                + sibling_clone_step(g.path_deps) + ("      - uses: dtolnay/rust-toolchain@"@
                + toolchain + "\n"@ + with) + cache
        }),
{
    let toolchain = match toolchain_pin {
        Some(t) => t,
        None => "stable"@,
    };
    let with = match component {
        Some(c) => "        with:\n          components: "@ + c + "\n"@,
        None => Seq::empty(),
    };
    let cache = if g.rust_cache {
        "      - uses: Swatinem/rust-cache@v2\n"@
    } else {
        Seq::empty()
    };
    let chk = "      - uses: actions/checkout@v5\n"@;
    let cs = sibling_clone_step(g.path_deps);
    let tl = "      - uses: dtolnay/rust-toolchain@"@;
    assert(chk + cs + tl + toolchain + "\n"@ + with + cache =~= chk + cs + (tl + toolchain + "\n"@
        + with) + cache);
}

proof fn lemma_job_prefix(
    head: Seq<char>,
    chk: Seq<char>,
    cs: Seq<char>,
    tool: Seq<char>,
    cache: Seq<char>,
    steps: Seq<char>,
)
    ensures
        contains_text(head + (chk + cs + tool + cache) + steps, head + chk + cs + tool),
{
    assert(head + (chk + cs + tool + cache) + steps =~= (head + chk + cs + tool) + (cache + steps));
    lemma_contains_prefix(head + chk + cs + tool, cache + steps);
}

proof fn lemma_literals()
    ensures
        "]\n    steps:\n"@ + "      - uses: actions/checkout@v5\n"@
            == "]\n    steps:\n      - uses: actions/checkout@v5\n"@,
        "      - uses: dtolnay/rust-toolchain@"@ + "stable"@ + "\n"@ + Seq::<char>::empty()
            == "      - uses: dtolnay/rust-toolchain@stable\n"@,
        "\n  clippy:\n    name: Clippy\n    runs-on: ubuntu-latest\n    steps:\n"@
            + "      - uses: actions/checkout@v5\n"@
            == "\n  clippy:\n    name: Clippy\n    runs-on: ubuntu-latest\n    steps:\n      - uses: actions/checkout@v5\n"@,
        "      - uses: dtolnay/rust-toolchain@"@ + "stable"@ + "\n"@ + (
        "        with:\n          components: "@ + "clippy"@ + "\n"@)
            == "      - uses: dtolnay/rust-toolchain@stable\n        with:\n          components: clippy\n"@,
        "\n  docs:\n    name: Doc build\n    runs-on: ubuntu-latest\n    env:\n      RUSTDOCFLAGS: \"-D warnings\"\n    steps:\n"@
            + "      - uses: actions/checkout@v5\n"@
            == "\n  docs:\n    name: Doc build\n    runs-on: ubuntu-latest\n    env:\n      RUSTDOCFLAGS: \"-D warnings\"\n    steps:\n      - uses: actions/checkout@v5\n"@,
        ")\n    runs-on: ubuntu-latest\n    steps:\n"@ + "      - uses: actions/checkout@v5\n"@
            == ")\n    runs-on: ubuntu-latest\n    steps:\n      - uses: actions/checkout@v5\n"@,
{
    reveal_strlit("]\n    steps:\n");
    reveal_strlit("      - uses: actions/checkout@v5\n");
    reveal_strlit("]\n    steps:\n      - uses: actions/checkout@v5\n");
    assert("]\n    steps:\n"@ + "      - uses: actions/checkout@v5\n"@
        =~= "]\n    steps:\n      - uses: actions/checkout@v5\n"@);
    reveal_strlit("      - uses: dtolnay/rust-toolchain@");
    reveal_strlit("stable");
    reveal_strlit("\n");
    reveal_strlit("      - uses: dtolnay/rust-toolchain@stable\n");
    assert("      - uses: dtolnay/rust-toolchain@"@ + "stable"@ + "\n"@ + Seq::<char>::empty()
        =~= "      - uses: dtolnay/rust-toolchain@stable\n"@);
    reveal_strlit("\n  clippy:\n    name: Clippy\n    runs-on: ubuntu-latest\n    steps:\n");
    reveal_strlit(
        "\n  clippy:\n    name: Clippy\n    runs-on: ubuntu-latest\n    steps:\n      - uses: actions/checkout@v5\n",
    );
    assert("\n  clippy:\n    name: Clippy\n    runs-on: ubuntu-latest\n    steps:\n"@
        + "      - uses: actions/checkout@v5\n"@
        =~= "\n  clippy:\n    name: Clippy\n    runs-on: ubuntu-latest\n    steps:\n      - uses: actions/checkout@v5\n"@);
    reveal_strlit("        with:\n          components: ");
    reveal_strlit("clippy");
    reveal_strlit(
        "      - uses: dtolnay/rust-toolchain@stable\n        with:\n          components: clippy\n",
    );
    assert("      - uses: dtolnay/rust-toolchain@"@ + "stable"@ + "\n"@ + (
    "        with:\n          components: "@ + "clippy"@ + "\n"@)
        =~= "      - uses: dtolnay/rust-toolchain@stable\n        with:\n          components: clippy\n"@);
    reveal_strlit(
        "\n  docs:\n    name: Doc build\n    runs-on: ubuntu-latest\n    env:\n      RUSTDOCFLAGS: \"-D warnings\"\n    steps:\n",
    );
    reveal_strlit(
        "\n  docs:\n    name: Doc build\n    runs-on: ubuntu-latest\n    env:\n      RUSTDOCFLAGS: \"-D warnings\"\n    steps:\n      - uses: actions/checkout@v5\n",
    );
    assert("\n  docs:\n    name: Doc build\n    runs-on: ubuntu-latest\n    env:\n      RUSTDOCFLAGS: \"-D warnings\"\n    steps:\n"@
        + "      - uses: actions/checkout@v5\n"@
        =~= "\n  docs:\n    name: Doc build\n    runs-on: ubuntu-latest\n    env:\n      RUSTDOCFLAGS: \"-D warnings\"\n    steps:\n      - uses: actions/checkout@v5\n"@);
    reveal_strlit(")\n    runs-on: ubuntu-latest\n    steps:\n");
    reveal_strlit(")\n    runs-on: ubuntu-latest\n    steps:\n      - uses: actions/checkout@v5\n");
    assert(")\n    runs-on: ubuntu-latest\n    steps:\n"@ + "      - uses: actions/checkout@v5\n"@
        =~= ")\n    runs-on: ubuntu-latest\n    steps:\n      - uses: actions/checkout@v5\n"@);
}

/// The test job is a matrix over the configured runners, each written as a
/// YAML scalar, with `fail-fast: false` whatever the number of runners; it
/// checks out, clones the sibling path dependencies, then installs the
/// stable toolchain.
pub proof fn test_job_is_a_full_matrix(g: GeneratorModel)
    ensures
        contains_text(
            workflow_document(g),
            "  test:\n    name: Test (${{ matrix.os }})\n    runs-on: ${{ matrix.os }}\n    strategy:\n      fail-fast: false\n      matrix:\n        os: ["@
                + join_with(g.matrix_os.map_values(|o: Seq<char>| yaml_scalar_of(o)), ", "@)
                + "]\n    steps:\n      - uses: actions/checkout@v5\n"@ + sibling_clone_step(
                g.path_deps,
            ) + "      - uses: dtolnay/rust-toolchain@stable\n"@,
        ),
{
    let lead = "  test:\n    name: Test (${{ matrix.os }})\n    runs-on: ${{ matrix.os }}\n    strategy:\n      fail-fast: false\n      matrix:\n        os: ["@
        + join_with(g.matrix_os.map_values(|o: Seq<char>| yaml_scalar_of(o)), ", "@);
    let chk = "      - uses: actions/checkout@v5\n"@;
    let cs = sibling_clone_step(g.path_deps);
    let tool = "      - uses: dtolnay/rust-toolchain@"@ + "stable"@ + "\n"@ + Seq::<char>::empty();
    let cache = if g.rust_cache {
        "      - uses: Swatinem/rust-cache@v2\n"@
    } else {
        Seq::empty()
    };
    lemma_setup_shape(g, None, None);
    lemma_literals();
    assert(test_matrix_text(g) == lead + "]\n    steps:\n"@);
    let job = test_matrix_text(g) + common_setup_text(g, None, None) + test_steps_text(g);
    lemma_job_prefix(test_matrix_text(g), chk, cs, tool, cache, test_steps_text(g));
    let needle = lead + "]\n    steps:\n      - uses: actions/checkout@v5\n"@ + cs
        + "      - uses: dtolnay/rust-toolchain@stable\n"@;
    assert(test_matrix_text(g) + chk + cs + tool =~= needle);
    lemma_test_job_in_document(g, needle);
}

/// The clippy job checks out, clones the sibling path dependencies, then
/// installs the stable toolchain with the clippy component.
pub proof fn clippy_job_clones_before_linting(g: GeneratorModel)
    requires
        g.clippy,
    ensures
        contains_text(
            workflow_document(g),
            "\n  clippy:\n    name: Clippy\n    runs-on: ubuntu-latest\n    steps:\n      - uses: actions/checkout@v5\n"@
                + sibling_clone_step(g.path_deps)
                + "      - uses: dtolnay/rust-toolchain@stable\n        with:\n          components: clippy\n"@,
        ),
{
    let chk = "      - uses: actions/checkout@v5\n"@;
    let cs = sibling_clone_step(g.path_deps);
    let tool = "      - uses: dtolnay/rust-toolchain@"@ + "stable"@ + "\n"@ + (
    "        with:\n          components: "@ + "clippy"@ + "\n"@);
    let cache = if g.rust_cache {
        "      - uses: Swatinem/rust-cache@v2\n"@
    } else {
        Seq::empty()
    };
    lemma_setup_shape(g, Some("clippy"@), None);
    lemma_literals();
    lemma_job_prefix(clippy_head_text(), chk, cs, tool, cache, clippy_steps_text(g));
    document_includes_enabled_jobs(g);
    let needle = "\n  clippy:\n    name: Clippy\n    runs-on: ubuntu-latest\n    steps:\n      - uses: actions/checkout@v5\n"@
        + cs
        + "      - uses: dtolnay/rust-toolchain@stable\n        with:\n          components: clippy\n"@;
    assert(clippy_head_text() + chk + cs + tool =~= needle);
    lemma_contains_trans(
        workflow_document(g),
        clippy_head_text() + common_setup_text(g, Some("clippy"@), None) + clippy_steps_text(g),
        needle,
    );
}

/// The docs job denies rustdoc warnings (`RUSTDOCFLAGS: "-D warnings"`), and
/// checks out, clones the sibling path dependencies, then installs the
/// stable toolchain.
pub proof fn docs_job_denies_warnings(g: GeneratorModel)
    requires
        g.docs,
    ensures
        contains_text(
            workflow_document(g),
            "\n  docs:\n    name: Doc build\n    runs-on: ubuntu-latest\n    env:\n      RUSTDOCFLAGS: \"-D warnings\"\n    steps:\n      - uses: actions/checkout@v5\n"@
                + sibling_clone_step(g.path_deps)
                + "      - uses: dtolnay/rust-toolchain@stable\n"@,
        ),
{
    let chk = "      - uses: actions/checkout@v5\n"@;
    let cs = sibling_clone_step(g.path_deps);
    let tool = "      - uses: dtolnay/rust-toolchain@"@ + "stable"@ + "\n"@ + Seq::<char>::empty();
    let cache = if g.rust_cache {
        "      - uses: Swatinem/rust-cache@v2\n"@
    } else {
        Seq::empty()
    };
    lemma_setup_shape(g, None, None);
    lemma_literals();
    lemma_job_prefix(docs_head_text(), chk, cs, tool, cache, docs_steps_text(g));
    document_includes_enabled_jobs(g);
    let needle = "\n  docs:\n    name: Doc build\n    runs-on: ubuntu-latest\n    env:\n      RUSTDOCFLAGS: \"-D warnings\"\n    steps:\n      - uses: actions/checkout@v5\n"@
        + cs + "      - uses: dtolnay/rust-toolchain@stable\n"@;
    assert(docs_head_text() + chk + cs + tool =~= needle);
    lemma_contains_trans(
        workflow_document(g),
        docs_head_text() + common_setup_text(g, None, None) + docs_steps_text(g),
        needle,
    );
}

proof fn lemma_msrv_regroup(
    a: Seq<char>,
    m: Seq<char>,
    b: Seq<char>,
    chk: Seq<char>,
    bc: Seq<char>,
    cs: Seq<char>,
    tl: Seq<char>,
    nl: Seq<char>,
)
    requires
        b + chk == bc,
    ensures
        a + m + b + chk + cs + (tl + m + nl + Seq::<char>::empty()) == a + m + bc + cs + tl + m + nl,
{
    assert(a + m + b + chk + cs + (tl + m + nl + Seq::<char>::empty()) =~= a + m + (b + chk) + cs
        + tl + m + nl);
}

/// The MSRV job checks out, clones the sibling path dependencies, then
/// installs the pinned toolchain.
pub proof fn msrv_job_clones_before_building(g: GeneratorModel, m: Seq<char>)
    requires
        g.msrv == Some(m),
    ensures
        contains_text(
            workflow_document(g),
            "\n  msrv:\n    name: MSRV (Rust "@ + m
                + ")\n    runs-on: ubuntu-latest\n    steps:\n      - uses: actions/checkout@v5\n"@
                + sibling_clone_step(g.path_deps) + "      - uses: dtolnay/rust-toolchain@"@ + m
                + "\n"@,
        ),
{
    let chk = "      - uses: actions/checkout@v5\n"@;
    let cs = sibling_clone_step(g.path_deps);
    let tool = "      - uses: dtolnay/rust-toolchain@"@ + m + "\n"@ + Seq::<char>::empty();
    let cache = if g.rust_cache {
        "      - uses: Swatinem/rust-cache@v2\n"@
    } else {
        Seq::empty()
    };
    lemma_setup_shape(g, None, Some(m));
    lemma_literals();
    lemma_job_prefix(msrv_head_text(m), chk, cs, tool, cache, msrv_steps_text(g));
    document_includes_enabled_jobs(g);
    let needle = "\n  msrv:\n    name: MSRV (Rust "@ + m
        + ")\n    runs-on: ubuntu-latest\n    steps:\n      - uses: actions/checkout@v5\n"@ + cs
        + "      - uses: dtolnay/rust-toolchain@"@ + m + "\n"@;
    lemma_msrv_regroup(
        "\n  msrv:\n    name: MSRV (Rust "@,
        m,
        ")\n    runs-on: ubuntu-latest\n    steps:\n"@,
        chk,
        ")\n    runs-on: ubuntu-latest\n    steps:\n      - uses: actions/checkout@v5\n"@,
        cs,
        "      - uses: dtolnay/rust-toolchain@"@,
        "\n"@,
    );
    lemma_contains_trans(
        workflow_document(g),
        msrv_head_text(m) + common_setup_text(g, None, Some(m)) + msrv_steps_text(g),
        needle,
    );
}

/// The fmt job installs rustfmt on the stable toolchain and fails when the
/// code is not formatted: its last step is `cargo fmt --all -- --check`.
pub proof fn fmt_job_checks_formatting(g: GeneratorModel)
    requires
        g.fmt,
    ensures
        contains_text(
            workflow_document(g),
            "\n  fmt:\n    name: Rustfmt\n    runs-on: ubuntu-latest\n    steps:\n      - uses: actions/checkout@v5\n      - uses: dtolnay/rust-toolchain@stable\n        with:\n          components: rustfmt\n      - run: cargo fmt --all -- --check\n"@,
        ),
{
    document_includes_enabled_jobs(g);
}

/// Every declared path dependency has its own `git clone` line, in the
/// order declared: the clone lines are those of the dependencies before
/// it, its line, then those of the dependencies after it.
pub proof fn clone_lines_name_every_dependency(deps: Seq<PathDepModel>, i: int)
    requires
        0 <= i < deps.len(),
    ensures
        clone_lines_text(deps) == clone_lines_text(deps.take(i))
            + "          git clone --depth 1 "@ + shell_quoted(deps[i].repo_url) + " "@
            + shell_quoted("../"@ + deps[i].name) + "\n"@ + clone_lines_text(deps.skip(i + 1)),
    decreases deps.len(),
{
    let line = "          git clone --depth 1 "@ + shell_quoted(deps[i].repo_url) + " "@ + shell_quoted(
        "../"@ + deps[i].name,
    ) + "\n"@;
    if i == deps.len() - 1 {
        assert(deps.take(i) =~= deps.drop_last());
        assert(deps.skip(i + 1) =~= Seq::<PathDepModel>::empty());
        assert(clone_lines_text(deps) =~= clone_lines_text(deps.take(i)) + line
            + clone_lines_text(deps.skip(i + 1)));
    } else {
        let d = deps.drop_last();
        clone_lines_name_every_dependency(d, i);
        assert(d.take(i) =~= deps.take(i));
        assert(d[i] == deps[i]);
        let after = deps.skip(i + 1);
        assert(after.len() > 0);
        assert(after.drop_last() =~= d.skip(i + 1));
        assert(after.last() == deps.last());
        assert(clone_lines_text(after) == clone_lines_text(after.drop_last()) + crate::model::clone_line_text(after.last()));
        assert(clone_lines_text(deps) =~= clone_lines_text(deps.take(i)) + line
            + clone_lines_text(after));
    }
}

/// No path dependency, no clone lines.
pub proof fn no_dependencies_no_clone_lines()
    ensures
        clone_lines_text(Seq::<PathDepModel>::empty()) == Seq::<char>::empty(),
{
}

} // verus!
