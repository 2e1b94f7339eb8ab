//! Laws of the workflow document: how each setting shapes the text, with
//! everything the setting does not touch left exactly as it was.

use vstd::prelude::*;
use crate::model::{
    branch_list_text, cargo_flags_text, cargo_step_text, clippy_head_text, clippy_job_text,
    clippy_steps_text, common_setup_text, docs_head_text, docs_job_text, docs_steps_text,
    fmt_job_text, header_text, msrv_head_text, msrv_job_text, msrv_steps_text, test_job_text,
    test_matrix_text, test_steps_text, workflow_document, GeneratorModel,
};
use crate::model::{contains_text, lemma_contains_middle};
use crate::text::yaml_scalar_of;

verus! {

/// The enabled jobs after the test job: clippy, fmt, docs, msrv.
pub open spec fn optional_jobs_text(g: GeneratorModel) -> Seq<char> {
    (if g.clippy {
        clippy_job_text(g)
    } else {
        Seq::empty()
    }) + (if g.fmt {
        fmt_job_text()
    } else {
        Seq::empty()
    }) + (if g.docs {
        docs_job_text(g)
    } else {
        Seq::empty()
    }) + (match g.msrv {
        Some(m) => msrv_job_text(g, m),
        None => Seq::empty(),
    })
}

/// Everything from the `jobs:` line on.
pub open spec fn jobs_text(g: GeneratorModel) -> Seq<char> {
    "jobs:\n"@ + test_job_text(g) + optional_jobs_text(g)
}

proof fn lemma_regroup7(
    h: Seq<char>,
    j: Seq<char>,
    t: Seq<char>,
    c: Seq<char>,
    f: Seq<char>,
    d: Seq<char>,
    m: Seq<char>,
)
    ensures
        h + j + t + c + f + d + m == h + (j + t + (c + f + d + m)),
{
    assert(h + j + t + c + f + d + m =~= h + (j + t + (c + f + d + m)));
}

/// The document is the header followed by the jobs.
pub proof fn document_is_header_then_jobs(g: GeneratorModel)
    ensures
        workflow_document(g) == header_text(g) + jobs_text(g),
{
    let c = if g.clippy { clippy_job_text(g) } else { Seq::empty() };
    let f = if g.fmt { fmt_job_text() } else { Seq::empty() };
    let d = if g.docs { docs_job_text(g) } else { Seq::empty() };
    let m = match g.msrv {
        Some(m) => msrv_job_text(g, m),
        None => Seq::empty(),
    };
    lemma_regroup7(header_text(g), "jobs:\n"@, test_job_text(g), c, f, d, m);
}

/// The jobs do not read the workflow name or the branch filter.
pub proof fn jobs_ignore_name_and_branches(
    g: GeneratorModel,
    name: Seq<char>,
    branches: Seq<Seq<char>>,
)
    ensures
        jobs_text(GeneratorModel { workflow_name: name, branches, ..g }) == jobs_text(g),
{
    let g2 = GeneratorModel { workflow_name: name, branches, ..g };
    assert(test_job_text(g2) == test_job_text(g));
    assert(optional_jobs_text(g2) == optional_jobs_text(g));
}

/// Renaming the workflow changes the name in the first line and nothing
/// else.
pub proof fn renaming_changes_only_the_name(g: GeneratorModel, name: Seq<char>)
    ensures
        workflow_document(GeneratorModel { workflow_name: name, ..g }) == "name: "@ + yaml_scalar_of(
            name,
        ) + workflow_document(g).skip(("name: "@ + yaml_scalar_of(g.workflow_name)).len() as int),
{
    let g2 = GeneratorModel { workflow_name: name, ..g };
    document_is_header_then_jobs(g);
    document_is_header_then_jobs(g2);
    jobs_ignore_name_and_branches(g, name, g.branches);
    assert(g2 == GeneratorModel { workflow_name: name, branches: g.branches, ..g });
    let rest = "\n\non:\n  push:\n"@ + branch_list_text("    "@, g.branches) + "  pull_request:\n"@
        + branch_list_text("    "@, g.branches) + "\nenv:\n  CARGO_TERM_COLOR: always\n\n"@;
    let p = "name: "@ + yaml_scalar_of(g.workflow_name);
    assert(header_text(g) =~= p + rest);
    assert(header_text(g2) =~= "name: "@ + yaml_scalar_of(name) + rest);
    assert(workflow_document(g).skip(p.len() as int) =~= rest + jobs_text(g));
    assert(workflow_document(g2) =~= "name: "@ + yaml_scalar_of(name) + (rest + jobs_text(g)));
}

/// The branch filter is written twice, under `push` and under
/// `pull_request`; setting other branches changes those two lists and
/// nothing else.
pub proof fn branches_change_only_the_two_filters(g: GeneratorModel, branches: Seq<Seq<char>>)
    ensures
        ({
            let before = "name: "@ + yaml_scalar_of(g.workflow_name) + "\n\non:\n  push:\n"@;
            let between = "  pull_request:\n"@;
            let after = "\nenv:\n  CARGO_TERM_COLOR: always\n\n"@ + jobs_text(g);
            &&& workflow_document(g) == before + branch_list_text("    "@, g.branches) + between
                + branch_list_text("    "@, g.branches) + after
            &&& workflow_document(GeneratorModel { branches, ..g }) == before + branch_list_text(
                "    "@,
                branches,
            ) + between + branch_list_text("    "@, branches) + after
        }),
{
    let g2 = GeneratorModel { branches, ..g };
    document_is_header_then_jobs(g);
    document_is_header_then_jobs(g2);
    jobs_ignore_name_and_branches(g, g.workflow_name, branches);
    assert(g2 == GeneratorModel { workflow_name: g.workflow_name, branches, ..g });
}

/// The default build and test steps of the test job.
pub open spec fn default_steps_text(g: GeneratorModel) -> Seq<char> {
    cargo_step_text(g, "Build"@, "build"@, false, false) + cargo_step_text(
        g,
        "Test"@,
        "test"@,
        false,
        false,
    )
}

/// The `--no-default-features` build step.
pub open spec fn no_default_features_step_text(g: GeneratorModel) -> Seq<char> {
    cargo_step_text(g, "Build (no default features)"@, "build"@, true, false)
}

/// The `--all-features` build and test steps.
pub open spec fn all_features_steps_text(g: GeneratorModel) -> Seq<char> {
    cargo_step_text(g, "Build (all features)"@, "build"@, false, true) + cargo_step_text(
        g,
        "Test (all features)"@,
        "test"@,
        false,
        true,
    )
}

proof fn lemma_regroup_steps(
    h: Seq<char>,
    j: Seq<char>,
    mx: Seq<char>,
    s: Seq<char>,
    b: Seq<char>,
    n: Seq<char>,
    a: Seq<char>,
    o: Seq<char>,
)
    ensures
        h + (j + (mx + s + (b + n + a)) + o) == (h + j + mx + s + b) + n + (a + o),
{
    assert(h + (j + (mx + s + (b + n + a)) + o) =~= (h + j + mx + s + b) + n + (a + o));
}

proof fn lemma_regroup_tail(
    h: Seq<char>,
    j: Seq<char>,
    mx: Seq<char>,
    s: Seq<char>,
    b: Seq<char>,
    n: Seq<char>,
    x: Seq<char>,
    o: Seq<char>,
)
    ensures
        h + (j + (mx + s + (b + n + x)) + o) == h + j + mx + s + (b + n) + x + o,
{
    assert(h + (j + (mx + s + (b + n + x)) + o) =~= h + j + mx + s + (b + n) + x + o);
}

proof fn lemma_regroup_tail_empty(
    h: Seq<char>,
    j: Seq<char>,
    mx: Seq<char>,
    s: Seq<char>,
    b: Seq<char>,
    n: Seq<char>,
    o: Seq<char>,
)
    ensures
        h + (j + (mx + s + (b + n + Seq::<char>::empty())) + o) == h + j + mx + s + b + n + o,
{
    assert(h + (j + (mx + s + (b + n + Seq::<char>::empty())) + o) =~= h + j + mx + s + b + n
        + o);
}

proof fn lemma_without_middle(x: Seq<char>, y: Seq<char>)
    ensures
        x + Seq::<char>::empty() + y == x + y,
{
    assert(x + Seq::<char>::empty() + y =~= x + y);
}

/// Asking for the no-default-features build inserts exactly that step,
/// right after the default build and test steps, and changes nothing else.
pub proof fn no_default_features_step_follows_test_step(g: GeneratorModel)
    ensures
        ({
            let before = header_text(g) + "jobs:\n"@ + test_matrix_text(g) + common_setup_text(
                g,
                None,
                None,
            ) + default_steps_text(g);
            let after = (if g.all_features_build {
                all_features_steps_text(g)
            } else {
                Seq::empty()
            }) + optional_jobs_text(g);
            &&& workflow_document(GeneratorModel { no_default_features_build: true, ..g })
                == before + no_default_features_step_text(g) + after
            &&& workflow_document(GeneratorModel { no_default_features_build: false, ..g })
                == before + after
        }),
{
    let on = GeneratorModel { no_default_features_build: true, ..g };
    let off = GeneratorModel { no_default_features_build: false, ..g };
    let a = if g.all_features_build {
        all_features_steps_text(g)
    } else {
        Seq::empty()
    };
    let b = default_steps_text(g);
    let h = header_text(g);
    let mx = test_matrix_text(g);
    let st = common_setup_text(g, None, None);
    let o = optional_jobs_text(g);
    document_is_header_then_jobs(on);
    document_is_header_then_jobs(off);
    assert(header_text(on) == h && header_text(off) == h);
    assert(test_matrix_text(on) == mx && test_matrix_text(off) == mx);
    assert(common_setup_text(on, None, None) == st && common_setup_text(off, None, None) == st);
    assert(optional_jobs_text(on) == o && optional_jobs_text(off) == o);
    assert(test_steps_text(on) == b + no_default_features_step_text(g) + a);
    assert(test_steps_text(off) == b + Seq::<char>::empty() + a);
    lemma_regroup_steps(h, "jobs:\n"@, mx, st, b, no_default_features_step_text(g), a, o);
    lemma_regroup_steps(h, "jobs:\n"@, mx, st, b, Seq::<char>::empty(), a, o);
    lemma_without_middle(h + "jobs:\n"@ + mx + st + b, a + o);
}

proof fn lemma_all_features_parts(g: GeneratorModel)
    ensures
        ({
            let on = GeneratorModel { all_features_build: true, ..g };
            let off = GeneratorModel { all_features_build: false, ..g };
            let n = if g.no_default_features_build {
                no_default_features_step_text(g)
            } else {
                Seq::empty()
            };
            &&& header_text(on) == header_text(g) && header_text(off) == header_text(g)
            &&& test_matrix_text(on) == test_matrix_text(g) && test_matrix_text(off)
                == test_matrix_text(g)
            &&& common_setup_text(on, None, None) == common_setup_text(g, None, None)
            &&& common_setup_text(off, None, None) == common_setup_text(g, None, None)
            &&& optional_jobs_text(on) == optional_jobs_text(g) && optional_jobs_text(off)
                == optional_jobs_text(g)
            &&& test_steps_text(on) == default_steps_text(g) + n + all_features_steps_text(g)
            &&& test_steps_text(off) == default_steps_text(g) + n + Seq::<char>::empty()
        }),
{
}

/// Asking for the all-features build and test appends exactly those two
/// steps at the end of the test job and changes nothing else.
pub proof fn all_features_steps_end_the_test_job(g: GeneratorModel)
    ensures
        ({
            let before = header_text(g) + "jobs:\n"@ + test_matrix_text(g) + common_setup_text(
                g,
                None,
                None,
            ) + default_steps_text(g) + (if g.no_default_features_build {
                no_default_features_step_text(g)
            } else {
                Seq::empty()
            });
            &&& workflow_document(GeneratorModel { all_features_build: true, ..g }) == before
                + all_features_steps_text(g) + optional_jobs_text(g)
            &&& workflow_document(GeneratorModel { all_features_build: false, ..g }) == before
                + optional_jobs_text(g)
        }),
{
    let on = GeneratorModel { all_features_build: true, ..g };
    let off = GeneratorModel { all_features_build: false, ..g };
    let n = if g.no_default_features_build {
        no_default_features_step_text(g)
    } else {
        Seq::empty()
    };
    let b = default_steps_text(g);
    let h = header_text(g);
    let mx = test_matrix_text(g);
    let st = common_setup_text(g, None, None);
    let o = optional_jobs_text(g);
    document_is_header_then_jobs(on);
    document_is_header_then_jobs(off);
    lemma_all_features_parts(g);
    lemma_regroup_tail(h, "jobs:\n"@, mx, st, b, n, all_features_steps_text(g), o);
    lemma_regroup_tail_empty(h, "jobs:\n"@, mx, st, b, n, o);
}

/// The cache step.
pub open spec fn cache_step_text() -> Seq<char> {
    "      - uses: Swatinem/rust-cache@v2\n"@
}

/// The test job of `g` with `extra` written right after its common setup.
pub open spec fn test_job_with(g: GeneratorModel, extra: Seq<char>) -> Seq<char> {
    test_matrix_text(g) + common_setup_text(g, None, None) + extra + test_steps_text(g)
}

/// The enabled jobs after the test job, each with `extra` written right
/// after its common setup.
pub open spec fn optional_jobs_with(g: GeneratorModel, extra: Seq<char>) -> Seq<char> {
    (if g.clippy {
        clippy_head_text() + common_setup_text(g, Some("clippy"@), None) + extra
            + clippy_steps_text(g)
    } else {
        Seq::empty()
    }) + (if g.fmt {
        fmt_job_text()
    } else {
        Seq::empty()
    }) + (if g.docs {
        docs_head_text() + common_setup_text(g, None, None) + extra + docs_steps_text(g)
    } else {
        Seq::empty()
    }) + (match g.msrv {
        Some(m) => msrv_head_text(m) + common_setup_text(g, None, Some(m)) + extra
            + msrv_steps_text(g),
        None => Seq::empty(),
    })
}

/// The document of `g` with `extra` written right after the common setup of
/// every job that has one.
pub open spec fn document_with_setup_suffix(g: GeneratorModel, extra: Seq<char>) -> Seq<char> {
    header_text(g) + ("jobs:\n"@ + test_job_with(g, extra) + optional_jobs_with(g, extra))
}

proof fn lemma_cache_setup(g: GeneratorModel, component: Option<Seq<char>>, pin: Option<Seq<char>>)
    ensures
        common_setup_text(GeneratorModel { rust_cache: true, ..g }, component, pin)
            == common_setup_text(GeneratorModel { rust_cache: false, ..g }, component, pin)
            + cache_step_text(),
        common_setup_text(GeneratorModel { rust_cache: false, ..g }, component, pin)
            == common_setup_text(GeneratorModel { rust_cache: false, ..g }, component, pin)
            + Seq::<char>::empty(),
{
    let off = GeneratorModel { rust_cache: false, ..g };
    let x = common_setup_text(off, component, pin);
    assert(x + Seq::<char>::empty() =~= x);
}

proof fn lemma_insert3(a: Seq<char>, s: Seq<char>, e: Seq<char>, b: Seq<char>)
    ensures
        a + (s + e) + b == a + s + e + b,
{
    assert(a + (s + e) + b =~= a + s + e + b);
}

proof fn lemma_cache_jobs(g: GeneratorModel, on_off: bool)
    ensures
        ({
            let x = GeneratorModel { rust_cache: on_off, ..g };
            let off = GeneratorModel { rust_cache: false, ..g };
            let extra = if on_off {
                cache_step_text()
            } else {
                Seq::<char>::empty()
            };
            &&& header_text(x) == header_text(off)
            &&& test_job_text(x) == test_job_with(off, extra)
            &&& optional_jobs_text(x) == optional_jobs_with(off, extra)
        }),
{
    let x = GeneratorModel { rust_cache: on_off, ..g };
    let off = GeneratorModel { rust_cache: false, ..g };
    let extra = if on_off {
        cache_step_text()
    } else {
        Seq::<char>::empty()
    };
    lemma_cache_setup(g, None, None);
    lemma_cache_setup(g, Some("clippy"@), None);
    assert(common_setup_text(x, None, None) == common_setup_text(off, None, None) + extra);
    assert(common_setup_text(x, Some("clippy"@), None) == common_setup_text(
        off,
        Some("clippy"@),
        None,
    ) + extra);
    lemma_insert3(
        test_matrix_text(off),
        common_setup_text(off, None, None),
        extra,
        test_steps_text(off),
    );
    lemma_insert3(
        clippy_head_text(),
        common_setup_text(off, Some("clippy"@), None),
        extra,
        clippy_steps_text(off),
    );
    lemma_insert3(
        docs_head_text(),
        common_setup_text(off, None, None),
        extra,
        docs_steps_text(off),
    );
    match g.msrv {
        Some(m) => {
            lemma_cache_setup(g, None, Some(m));
            assert(common_setup_text(x, None, Some(m)) == common_setup_text(off, None, Some(m))
                + extra);
            lemma_insert3(
                msrv_head_text(m),
                common_setup_text(off, None, Some(m)),
                extra,
                msrv_steps_text(off),
            );
        },
        None => {},
    }
}

/// The cache setting only decides whether the cache step follows the common
/// setup of every job: with the cache the document is the one without it,
/// with the cache step written right after each common setup.
pub proof fn cache_step_follows_every_setup(g: GeneratorModel)
    ensures
        workflow_document(GeneratorModel { rust_cache: true, ..g }) == document_with_setup_suffix(
            GeneratorModel { rust_cache: false, ..g },
            cache_step_text(),
        ),
        workflow_document(GeneratorModel { rust_cache: false, ..g }) == document_with_setup_suffix(
            GeneratorModel { rust_cache: false, ..g },
            Seq::empty(),
        ),
{
    let on = GeneratorModel { rust_cache: true, ..g };
    let off = GeneratorModel { rust_cache: false, ..g };
    document_is_header_then_jobs(on);
    document_is_header_then_jobs(off);
    lemma_cache_jobs(g, true);
    lemma_cache_jobs(g, false);
}

/// `--features <list>` goes only where cargo runs with the default feature
/// set: the default build and test steps and the MSRV build. It is written
/// after `--workspace`, and only when the list is non-empty; every other
/// part of the document is the same as without a feature list.
pub proof fn features_only_on_default_builds(
    g: GeneratorModel,
    f: Seq<char>,
    name: Seq<char>,
    cmd: Seq<char>,
    no_default_features: bool,
    all_features: bool,
    force_workspace: bool,
)
    ensures
        ({
            let gf = GeneratorModel { features: Some(f), ..g };
            let g0 = GeneratorModel { features: None, ..g };
            &&& cargo_flags_text(g0, true, force_workspace) == cargo_flags_text(
                g0,
                false,
                force_workspace,
            )
            &&& cargo_flags_text(gf, false, force_workspace) == cargo_flags_text(
                g0,
                false,
                force_workspace,
            )
            &&& cargo_flags_text(gf, true, force_workspace) == cargo_flags_text(
                g0,
                false,
                force_workspace,
            ) + (if f.len() > 0 {
                " --features "@ + f
            } else {
                Seq::empty()
            })
            &&& (no_default_features || all_features) ==> cargo_step_text(
                gf,
                name,
                cmd,
                no_default_features,
                all_features,
            ) == cargo_step_text(g0, name, cmd, no_default_features, all_features)
            &&& header_text(gf) == header_text(g0)
            &&& test_matrix_text(gf) == test_matrix_text(g0)
            &&& common_setup_text(gf, None, None) == common_setup_text(g0, None, None)
            &&& common_setup_text(gf, Some("clippy"@), None) == common_setup_text(
                g0,
                Some("clippy"@),
                None,
            )
            &&& common_setup_text(gf, None, Some(name)) == common_setup_text(g0, None, Some(name))
            &&& clippy_steps_text(gf) == clippy_steps_text(g0)
            &&& docs_steps_text(gf) == docs_steps_text(g0)
            &&& f.len() == 0 ==> workflow_document(gf) == workflow_document(g0)
        }),
{
    let gf = GeneratorModel { features: Some(f), ..g };
    let g0 = GeneratorModel { features: None, ..g };
    let e = Seq::<char>::empty();
    assert(cargo_flags_text(g0, false, force_workspace) + e =~= cargo_flags_text(
        g0,
        false,
        force_workspace,
    ));
    assert(cargo_flags_text(g0, true, force_workspace) + e =~= cargo_flags_text(
        g0,
        true,
        force_workspace,
    ));
    if f.len() == 0 {
        assert(forall|i: bool, w: bool| cargo_flags_text(gf, i, w) == cargo_flags_text(g0, i, w));
        document_is_header_then_jobs(gf);
        document_is_header_then_jobs(g0);
        lemma_features_jobs(g, f);
    }
}

proof fn lemma_features_jobs(g: GeneratorModel, f: Seq<char>)
    requires
        f.len() == 0,
    ensures
        jobs_text(GeneratorModel { features: Some(f), ..g }) == jobs_text(
            GeneratorModel { features: None, ..g },
        ),
{
    let gf = GeneratorModel { features: Some(f), ..g };
    let g0 = GeneratorModel { features: None, ..g };
    assert(cargo_flags_text(gf, true, false) =~= cargo_flags_text(g0, true, false));
    assert(cargo_flags_text(gf, false, false) =~= cargo_flags_text(g0, false, false));
    assert(test_steps_text(gf) == test_steps_text(g0));
    assert(test_job_text(gf) == test_job_text(g0));
    assert(clippy_job_text(gf) == clippy_job_text(g0));
    assert(docs_job_text(gf) == docs_job_text(g0));
    assert(msrv_steps_text(gf) == msrv_steps_text(g0));
    assert(optional_jobs_text(gf) == optional_jobs_text(g0));
}

proof fn lemma_literal_splits()
    ensures
        "\n        run: cargo "@ == "\n        run: "@ + "cargo "@,
        "      - name: Clippy (all features)\n        run: cargo clippy"@
            == "      - name: Clippy (all features)\n        run: "@ + "cargo clippy"@,
        " --all-targets --all-features -- -D warnings\n      - name: Clippy (no default features)\n        run: cargo clippy"@
            == " --all-targets --all-features"@
            + " -- -D warnings\n      - name: Clippy (no default features)\n        run: "@
            + "cargo clippy"@,
        " --all-targets --no-default-features -- -D warnings\n"@
            == " --all-targets --no-default-features"@ + " -- -D warnings\n"@,
        "      - run: cargo doc"@ == "      - run: "@ + "cargo doc"@,
        "      - run: cargo build"@ == "      - run: "@ + "cargo build"@,
{
    reveal_strlit("\n        run: cargo ");
    reveal_strlit("\n        run: ");
    reveal_strlit("cargo ");
    assert("\n        run: cargo "@ =~= "\n        run: "@ + "cargo "@);
    reveal_strlit("      - name: Clippy (all features)\n        run: cargo clippy");
    reveal_strlit("      - name: Clippy (all features)\n        run: ");
    reveal_strlit("cargo clippy");
    assert("      - name: Clippy (all features)\n        run: cargo clippy"@
        =~= "      - name: Clippy (all features)\n        run: "@ + "cargo clippy"@);
    reveal_strlit(
        " --all-targets --all-features -- -D warnings\n      - name: Clippy (no default features)\n        run: cargo clippy",
    );
    reveal_strlit(" --all-targets --all-features");
    reveal_strlit(" -- -D warnings\n      - name: Clippy (no default features)\n        run: ");
    assert(" --all-targets --all-features -- -D warnings\n      - name: Clippy (no default features)\n        run: cargo clippy"@
        =~= " --all-targets --all-features"@
        + " -- -D warnings\n      - name: Clippy (no default features)\n        run: "@
        + "cargo clippy"@);
    reveal_strlit(" --all-targets --no-default-features -- -D warnings\n");
    reveal_strlit(" --all-targets --no-default-features");
    reveal_strlit(" -- -D warnings\n");
    assert(" --all-targets --no-default-features -- -D warnings\n"@
        =~= " --all-targets --no-default-features"@ + " -- -D warnings\n"@);
    reveal_strlit("      - run: cargo doc");
    reveal_strlit("      - run: ");
    reveal_strlit("cargo doc");
    assert("      - run: cargo doc"@ =~= "      - run: "@ + "cargo doc"@);
    reveal_strlit("      - run: cargo build");
    reveal_strlit("cargo build");
    assert("      - run: cargo build"@ =~= "      - run: "@ + "cargo build"@);
}

/// With the workspace flag set, every cargo build, test, clippy and doc
/// command of the document runs with `--workspace` right after the
/// subcommand.
pub proof fn workspace_on_every_cargo_command(
    g: GeneratorModel,
    name: Seq<char>,
    cmd: Seq<char>,
    no_default_features: bool,
    all_features: bool,
)
    requires
        g.workspace,
    ensures
        contains_text(
            cargo_step_text(g, name, cmd, no_default_features, all_features),
            "cargo "@ + cmd + " --workspace"@,
        ),
        contains_text(
            clippy_steps_text(g),
            "cargo clippy"@ + " --workspace"@ + " --all-targets --all-features"@,
        ),
        contains_text(
            clippy_steps_text(g),
            "cargo clippy"@ + " --workspace"@ + " --all-targets --no-default-features"@,
        ),
        contains_text(docs_steps_text(g), "cargo doc"@ + " --workspace"@),
        contains_text(msrv_steps_text(g), "cargo build"@ + " --workspace"@),
{
    lemma_literal_splits();
    let ws = " --workspace"@;
    // A default, no-default-features or all-features step.
    let feat = cargo_flags_text(g, !no_default_features && !all_features, false).skip(
        ws.len() as int,
    );
    assert(cargo_flags_text(g, !no_default_features && !all_features, false) =~= ws + feat);
    let extra = if no_default_features {
        " --no-default-features"@
    } else if all_features {
        " --all-features"@
    } else {
        Seq::empty()
    };
    let step_pre = "      - name: "@ + name + "\n        run: "@;
    let step_post = feat + extra + " --verbose\n"@;
    assert(cargo_step_text(g, name, cmd, no_default_features, all_features) =~= step_pre + (
    "cargo "@ + cmd + ws) + step_post);
    lemma_contains_middle(step_pre, "cargo "@ + cmd + ws, step_post);
    // Clippy.
    assert(cargo_flags_text(g, false, false) == ws);
    let c_pre = "      - name: Clippy (all features)\n        run: "@;
    let c_mid = " -- -D warnings\n      - name: Clippy (no default features)\n        run: "@;
    let all = " --all-targets --all-features"@;
    let nodef = " --all-targets --no-default-features"@;
    let tail = " -- -D warnings\n"@;
    let needle1 = "cargo clippy"@ + ws + all;
    let needle2 = "cargo clippy"@ + ws + nodef;
    assert(clippy_steps_text(g) =~= c_pre + needle1 + (c_mid + needle2 + tail));
    lemma_contains_middle(c_pre, needle1, c_mid + needle2 + tail);
    assert(clippy_steps_text(g) =~= (c_pre + needle1 + c_mid) + needle2 + tail);
    lemma_contains_middle(c_pre + needle1 + c_mid, needle2, tail);
    // Doc.
    assert(docs_steps_text(g) =~= "      - run: "@ + ("cargo doc"@ + ws) + " --all-features --no-deps\n"@);
    lemma_contains_middle("      - run: "@, "cargo doc"@ + ws, " --all-features --no-deps\n"@);
    // MSRV build.
    let mfeat = cargo_flags_text(g, true, false).skip(ws.len() as int);
    assert(cargo_flags_text(g, true, false) =~= ws + mfeat);
    assert(msrv_steps_text(g) =~= "      - run: "@ + ("cargo build"@ + ws) + (mfeat + "\n"@));
    lemma_contains_middle("      - run: "@, "cargo build"@ + ws, mfeat + "\n"@);
}

proof fn lemma_last_of_concat(x: Seq<char>, y: Seq<char>)
    requires
        y.len() > 0,
    ensures
        (x + y).len() > 0 && (x + y).last() == y.last(),
{
}

proof fn lemma_step_ends_with_newline(
    g: GeneratorModel,
    name: Seq<char>,
    cmd: Seq<char>,
    no_default_features: bool,
    all_features: bool,
)
    ensures
        cargo_step_text(g, name, cmd, no_default_features, all_features).len() > 0,
        cargo_step_text(g, name, cmd, no_default_features, all_features).last() == '\n',
{
    reveal_strlit(" --verbose\n");
    let s = cargo_step_text(g, name, cmd, no_default_features, all_features);
    let pre = s.take(s.len() - " --verbose\n"@.len());
    assert(s =~= pre + " --verbose\n"@) by {
        assert(s == "      - name: "@ + name + "\n        run: cargo "@ + cmd + cargo_flags_text(
            g,
            !no_default_features && !all_features,
            false,
        ) + (if no_default_features {
            " --no-default-features"@
        } else if all_features {
            " --all-features"@
        } else {
            Seq::empty()
        }) + " --verbose\n"@);
    }
    lemma_last_of_concat(pre, " --verbose\n"@);
}

/// The document is never empty and ends with a line break.
pub proof fn document_ends_with_newline(g: GeneratorModel)
    ensures
        workflow_document(g).len() > 0,
        workflow_document(g).last() == '\n',
{
    let c = if g.clippy { clippy_job_text(g) } else { Seq::empty() };
    let f = if g.fmt { fmt_job_text() } else { Seq::empty() };
    let d = if g.docs { docs_job_text(g) } else { Seq::empty() };
    let m = match g.msrv {
        Some(m) => msrv_job_text(g, m),
        None => Seq::empty(),
    };
    let t = test_job_text(g);
    let h = header_text(g) + "jobs:\n"@;
    assert(workflow_document(g) == h + t + c + f + d + m);
    // The test job ends with its last step.
    lemma_step_ends_with_newline(g, "Test"@, "test"@, false, false);
    lemma_step_ends_with_newline(g, "Build (no default features)"@, "build"@, true, false);
    lemma_step_ends_with_newline(g, "Test (all features)"@, "test"@, false, true);
    let b = default_steps_text(g);
    lemma_last_of_concat(cargo_step_text(g, "Build"@, "build"@, false, false), cargo_step_text(g, "Test"@, "test"@, false, false));
    let n = if g.no_default_features_build { no_default_features_step_text(g) } else { Seq::empty() };
    let a = if g.all_features_build { all_features_steps_text(g) } else { Seq::empty() };
    assert(test_steps_text(g) == b + n + a);
    if g.no_default_features_build {
        lemma_last_of_concat(b, n);
    }
    assert((b + n).len() > 0 && (b + n).last() == '\n') by {
        if !g.no_default_features_build {
            assert(b + n =~= b);
        }
    }
    if g.all_features_build {
        lemma_last_of_concat(cargo_step_text(g, "Build (all features)"@, "build"@, false, true), cargo_step_text(g, "Test (all features)"@, "test"@, false, true));
        lemma_last_of_concat(b + n, a);
    } else {
        assert(b + n + a =~= b + n);
    }
    lemma_last_of_concat(test_matrix_text(g) + common_setup_text(g, None, None), test_steps_text(g));
    let mut acc = h + t;
    lemma_last_of_concat(h, t);
    // Each optional job ends with a line break.
    reveal_strlit(" --all-targets --no-default-features -- -D warnings\n");
    reveal_strlit("\n  fmt:\n    name: Rustfmt\n    runs-on: ubuntu-latest\n    steps:\n      - uses: actions/checkout@v5\n      - uses: dtolnay/rust-toolchain@stable\n        with:\n          components: rustfmt\n      - run: cargo fmt --all -- --check\n");
    reveal_strlit(" --all-features --no-deps\n");
    reveal_strlit("\n");
    if g.clippy {
        lemma_last_of_concat(clippy_steps_text(g).drop_last(), seq!['\n']);
        assert(clippy_steps_text(g).len() > 0);
        lemma_last_of_concat(clippy_head_text() + common_setup_text(g, Some("clippy"@), None), clippy_steps_text(g));
        lemma_last_of_concat(acc, c);
    } else {
        assert(acc + c =~= acc);
    }
    acc = acc + c;
    if g.fmt {
        lemma_last_of_concat(acc, f);
    } else {
        assert(acc + f =~= acc);
    }
    acc = acc + f;
    if g.docs {
        lemma_last_of_concat(docs_head_text() + common_setup_text(g, None, None), docs_steps_text(g));
        lemma_last_of_concat(acc, d);
    } else {
        assert(acc + d =~= acc);
    }
    acc = acc + d;
    match g.msrv {
        Some(mm) => {
            lemma_last_of_concat(msrv_head_text(mm) + common_setup_text(g, None, Some(mm)), msrv_steps_text(g));
            lemma_last_of_concat(acc, m);
        },
        None => {
            assert(acc + m =~= acc);
        },
    }
}

} // verus!
