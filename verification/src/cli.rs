//! The decisions behind the command-line front end: parsing `--path-dep`
//! values, mapping `--with` job names onto the generator, and choosing
//! where the document goes. Reading arguments and writing files is left to
//! the caller.

use vstd::prelude::*;
use vstd::string::*;
use crate::generator::{opt_str_view, opt_string_view, Generator, PathDep, Target};
use crate::model::{default_model, GeneratorModel, PathDepModel};

verus! {

/// `s` split around the first occurrence of `delim`, or `None` when `delim`
/// does not occur.
pub open spec fn split_at_first(s: Seq<char>, delim: char) -> Option<(Seq<char>, Seq<char>)>
    decreases s.len(),
{
    if s.len() == 0 {
        None
    } else if s[0] == delim {
        Some((Seq::empty(), s.drop_first()))
    } else {
        match split_at_first(s.drop_first(), delim) {
            Some((a, b)) => Some((seq![s[0]] + a, b)),
            None => None,
        }
    }
}

/// The text that `{:?}` writes for a string (`<str as Debug>::fmt`).
pub uninterp spec fn str_debug_text(s: Seq<char>) -> Seq<char>;

/// Characters with the Unicode `White_Space` property.
pub open spec fn unicode_white_space(c: char) -> bool {
    let n = c as u32;
    ||| 0x9 <= n <= 0xd
    ||| n == 0x20
    ||| n == 0x85
    ||| n == 0xa0
    ||| n == 0x1680
    ||| 0x2000 <= n <= 0x200a
    ||| n == 0x2028
    ||| n == 0x2029
    ||| n == 0x202f
    ||| n == 0x205f
    ||| n == 0x3000
}

/// `s` without its leading white space.
pub open spec fn trim_start_text(s: Seq<char>) -> Seq<char>
    decreases s.len(),
{
    if s.len() > 0 && unicode_white_space(s[0]) {
        trim_start_text(s.drop_first())
    } else {
        s
    }
}

/// `s` without its trailing white space.
pub open spec fn trim_end_text(s: Seq<char>) -> Seq<char>
    decreases s.len(),
{
    if s.len() > 0 && unicode_white_space(s.last()) {
        trim_end_text(s.drop_last())
    } else {
        s
    }
}

/// `s` without leading and trailing white space.
pub open spec fn trimmed_text(s: Seq<char>) -> Seq<char> {
    trim_end_text(trim_start_text(s))
}

/// ASCII upper-case letters mapped to lower case, every other character
/// unchanged.
pub open spec fn ascii_lower_char(c: char) -> char {
    if 'A' <= c && c <= 'Z' {
        ((c as u32) + 32) as char
    } else {
        c
    }
}

/// `s` with ASCII letters in lower case.
pub open spec fn ascii_lowercase(s: Seq<char>) -> Seq<char> {
    s.map_values(|c: char| ascii_lower_char(c))
}

/// Calls `str::split_once` with a `char` delimiter. The contract claims what
/// the std documentation says: the parts before and after the first
/// occurrence of `delim`, or `None` when it does not occur.
#[verifier::external_body]
fn split_once_char<'a>(s: &'a str, delim: char) -> (r: Option<(&'a str, &'a str)>)
    ensures
        match r {
            Some((a, b)) => split_at_first(s@, delim) == Some((a@, b@)),
            None => split_at_first(s@, delim) is None,
        },
{
    s.split_once(delim)
}

/// Calls `format!("{:?}", s)`, that is `<str as Debug>::fmt`. The contract
/// only names the result (`str_debug_text`), a function of `s` alone; the
/// escaping rules are not stated.
#[verifier::external_body]
fn debug_text(s: &str) -> (r: String)
    ensures
        r@ == str_debug_text(s@),
{
    format!("{:?}", s)
}

/// Calls `str::trim`. The contract claims what the std documentation says:
/// leading and trailing characters with the Unicode `White_Space` property
/// are removed.
#[verifier::external_body]
fn trim_text(s: &str) -> (r: &str)
    ensures
        r@ == trimmed_text(s@),
{
    s.trim()
}

/// Calls `str::to_ascii_lowercase`. The contract claims what the std
/// documentation says: `A`-`Z` become `a`-`z`, every other character is
/// kept.
#[verifier::external_body]
fn to_ascii_lowercase(s: &str) -> (r: String)
    ensures
        r@ == ascii_lowercase(s@),
{
    s.to_ascii_lowercase()
}

/// Calls `<str as PartialEq>::eq`. The contract claims that the result is
/// the equality of the two character sequences.
#[verifier::external_body]
fn str_eq(a: &str, b: &str) -> (r: bool)
    ensures
        r == (a@ == b@),
{
    a == b
}

/// What a `--path-dep` value parses to: the name and URL around the first
/// `=`, both non-empty, or the error message.
pub open spec fn path_dep_parse(raw: Seq<char>) -> Result<(Seq<char>, Seq<char>), Seq<char>> {
    match split_at_first(raw, '=') {
        None => Err("--path-dep must be name=url; got "@ + str_debug_text(raw)),
        Some((name, url)) => if name.len() == 0 || url.len() == 0 {
            Err("--path-dep name and url must be non-empty; got "@ + str_debug_text(raw))
        } else {
            Ok((name, url))
        },
    }
}

/// Parses a `--path-dep` value of the form `name=url`, splitting on the
/// first `=`; both parts must be non-empty.
pub fn parse_path_dep(raw: &str) -> (r: Result<(&str, &str), String>)
    ensures
        match r {
            Ok((name, url)) => path_dep_parse(raw@) == Ok::<(Seq<char>, Seq<char>), Seq<char>>(
                (name@, url@),
            ),
            Err(e) => path_dep_parse(raw@) == Err::<(Seq<char>, Seq<char>), Seq<char>>(e@),
        },
{
    match split_once_char(raw, '=') {
        None => {
            let mut e = String::new();
            e.append("--path-dep must be name=url; got ");
            let d = debug_text(raw);
            e.append(d.as_str());
            Err(e)
        },
        Some((name, url)) => {
            if name.is_empty() || url.is_empty() {
                let mut e = String::new();
                e.append("--path-dep name and url must be non-empty; got ");
                let d = debug_text(raw);
                e.append(d.as_str());
                Err(e)
            } else {
                Ok((name, url))
            }
        },
    }
}

/// Target platforms as named on the command line.
#[derive(Debug, Clone, Copy, PartialEq, Eq, Structural)]
pub enum TargetArg {
    /// `github-actions`
    GithubActions,
}

/// The library target a command-line target name selects.
pub open spec fn target_of(t: TargetArg) -> Target {
    match t {
        TargetArg::GithubActions => Target::GitHubActions,
    }
}

impl TargetArg {
    /// The library target this name selects.
    pub fn to_lib(self) -> (r: Target)
        ensures
            r == target_of(self),
    {
        match self {
            TargetArg::GithubActions => Target::GitHubActions,
        }
    }

    /// The standard path of the workflow file for this target.
    pub fn default_output_path(self) -> (r: String)
        ensures
            r@ == (match self {
                TargetArg::GithubActions => ".github/workflows/ci.yml"@,
            }),
    {
        match self {
            TargetArg::GithubActions => ".github/workflows/ci.yml".to_owned(),
        }
    }
}

/// The document goes to standard output when `--print` is given or the
/// output path is `-`.
pub fn writes_to_stdout(print: bool, output: Option<&str>) -> (r: bool)
    ensures
        r == (print || opt_str_view(output) == Some("-"@)),
{
    match output {
        Some(o) => print || str_eq(o, "-"),
        None => print,
    }
}

/// What one `--with` entry does to the configuration, given the entry's
/// normalized name `key` (trimmed, ASCII lower case) and the `--msrv`
/// value: the empty name is ignored, `clippy`, `fmt` and `docs` add their
/// job, `msrv` adds the MSRV job and needs a version, any other name is an
/// error.
pub open spec fn job_effect(
    g: GeneratorModel,
    key: Seq<char>,
    msrv: Option<Seq<char>>,
) -> Result<GeneratorModel, Seq<char>> {
    if key.len() == 0 {
        Ok(g)
    } else if key == "clippy"@ {
        Ok(GeneratorModel { clippy: true, ..g })
    } else if key == "fmt"@ {
        Ok(GeneratorModel { fmt: true, ..g })
    } else if key == "docs"@ {
        Ok(GeneratorModel { docs: true, ..g })
    } else if key == "msrv"@ {
        match msrv {
            Some(v) => Ok(GeneratorModel { msrv: Some(v), ..g }),
            None => Err("--with msrv requires --msrv <VERSION>"@),
        }
    } else {
        Err("unknown job in --with: "@ + str_debug_text(key))
    }
}

/// Applies one `--with` entry, given its normalized name.
pub fn apply_job(g: Generator, key: &str, msrv: Option<&str>) -> (r: Result<Generator, String>)
    ensures
        match r {
            Ok(g2) => job_effect(g@, key@, opt_str_view(msrv)) == Ok::<GeneratorModel, Seq<char>>(
                g2@,
            ),
            Err(e) => job_effect(g@, key@, opt_str_view(msrv)) == Err::<GeneratorModel, Seq<char>>(
                e@,
            ),
        },
{
    proof {
        reveal_strlit("");
    }
    if key.is_empty() {
        Ok(g)
    } else if str_eq(key, "clippy") {
        Ok(g.with_clippy())
    } else if str_eq(key, "fmt") {
        Ok(g.with_fmt())
    } else if str_eq(key, "docs") {
        Ok(g.with_docs())
    } else if str_eq(key, "msrv") {
        match msrv {
            Some(v) => Ok(g.with_msrv(v)),
            None => Err("--with msrv requires --msrv <VERSION>".to_owned()),
        }
    } else {
        let mut e = String::new();
        e.append("unknown job in --with: ");
        let d = debug_text(key);
        e.append(d.as_str());
        Err(e)
    }
}

/// The arguments of the `generate` command that shape the document.
pub struct GenerateOptions {
    /// Target platform.
    pub target: TargetArg,
    /// Workflow `name:` field.
    pub workflow_name: String,
    /// Branch filter for `push` and `pull_request`.
    pub branches: Vec<String>,
    /// OS runners of the test matrix.
    pub matrix: Vec<String>,
    /// Extra jobs by name (`clippy`, `fmt`, `docs`, `msrv`).
    pub with: Vec<String>,
    /// Rust version of the MSRV job.
    pub msrv: Option<String>,
    /// Cargo feature list of the test job.
    pub features: Option<String>,
    /// Add a `--no-default-features` build step.
    pub no_default_features_build: bool,
    /// Add `--all-features` build and test steps.
    pub all_features_build: bool,
    /// Pass `--workspace` to every cargo call.
    pub workspace: bool,
    /// Leave out the cache action.
    pub no_cache: bool,
    /// Sibling path dependencies as `name=url`.
    pub path_deps: Vec<String>,
}

/// `items`, or the one-element list `[fallback]` when `items` is empty.
pub open spec fn or_default(items: Seq<Seq<char>>, fallback: Seq<char>) -> Seq<Seq<char>> {
    if items.len() == 0 {
        seq![fallback]
    } else {
        items
    }
}

/// The configuration set by the plain options, before path dependencies
/// and jobs are added.
pub open spec fn base_config(o: &GenerateOptions) -> GeneratorModel {
    GeneratorModel {
        target: target_of(o.target),
        workflow_name: o.workflow_name@,
        branches: or_default(o.branches.deep_view(), "main"@),
        matrix_os: or_default(o.matrix.deep_view(), "ubuntu-latest"@),
        rust_cache: !o.no_cache,
        workspace: o.workspace,
        features: opt_string_view(o.features),
        no_default_features_build: o.no_default_features_build,
        all_features_build: o.all_features_build,
        path_deps: Seq::empty(),
        clippy: false,
        fmt: false,
        docs: false,
        msrv: None,
    }
}

/// Adds the path dependencies in order; the first value that does not
/// parse ends it with its error.
pub open spec fn with_path_deps(g: GeneratorModel, raws: Seq<Seq<char>>) -> Result<
    GeneratorModel,
    Seq<char>,
>
    decreases raws.len(),
{
    if raws.len() == 0 {
        Ok(g)
    } else {
        match path_dep_parse(raws[0]) {
            Err(e) => Err(e),
            Ok((name, url)) => with_path_deps(
                GeneratorModel {
                    path_deps: g.path_deps.push(PathDepModel { name, repo_url: url }),
                    ..g
                },
                raws.drop_first(),
            ),
        }
    }
}

/// The normalized name of a `--with` entry: trimmed, in ASCII lower case.
pub open spec fn job_key(entry: Seq<char>) -> Seq<char> {
    ascii_lowercase(trimmed_text(entry))
}

/// Applies the `--with` entries in order; the first error ends it.
pub open spec fn with_jobs(
    g: GeneratorModel,
    entries: Seq<Seq<char>>,
    msrv: Option<Seq<char>>,
) -> Result<GeneratorModel, Seq<char>>
    decreases entries.len(),
{
    if entries.len() == 0 {
        Ok(g)
    } else {
        match job_effect(g, job_key(entries[0]), msrv) {
            Err(e) => Err(e),
            Ok(g2) => with_jobs(g2, entries.drop_first(), msrv),
        }
    }
}

/// Some `--with` entry is `msrv` up to ASCII case (white space counts).
pub open spec fn names_msrv(entries: Seq<Seq<char>>) -> bool {
    exists|i: int| 0 <= i < entries.len() && ascii_lowercase(#[trigger] entries[i]) == "msrv"@
}

/// The configuration the `generate` command builds from its options, or
/// the error it stops with: path dependencies first, then the `--with`
/// entries; a `--msrv` given without a `--with msrv` entry adds the MSRV
/// job too.
pub open spec fn configured(o: &GenerateOptions) -> Result<GeneratorModel, Seq<char>> {
    match with_path_deps(base_config(o), o.path_deps.deep_view()) {
        Err(e) => Err(e),
        Ok(g1) => match with_jobs(g1, o.with.deep_view(), opt_string_view(o.msrv)) {
            Err(e) => Err(e),
            Ok(g2) => Ok(
                if !names_msrv(o.with.deep_view()) && o.msrv is Some {
                    GeneratorModel { msrv: opt_string_view(o.msrv), ..g2 }
                } else {
                    g2
                },
            ),
        },
    }
}

/// Borrows each string of a list.
fn borrow_list(v: &Vec<String>) -> (r: Vec<&str>)
    ensures
        r@.map_values(|s: &str| s@) == v.deep_view(),
{
    let mut r: Vec<&str> = Vec::new();
    for i in 0..v.len()
        invariant
            r@.len() == i,
            forall|j: int| 0 <= j < i ==> #[trigger] r@[j]@ == v@[j]@,
    {
        r.push(v[i].as_str());
    }
    assert(r@.map_values(|s: &str| s@) =~= v.deep_view());
    r
}

/// Whether some entry is `msrv` up to ASCII case.
fn mentions_msrv(entries: &Vec<String>) -> (r: bool)
    ensures
        r == names_msrv(entries.deep_view()),
{
    let ghost views = entries.deep_view();
    let mut found = false;
    for i in 0..entries.len()
        invariant
            views == entries.deep_view(),
            found == exists|j: int| 0 <= j < i && ascii_lowercase(#[trigger] views[j]) == "msrv"@,
    {
        let lower = to_ascii_lowercase(entries[i].as_str());
        if str_eq(lower.as_str(), "msrv") {
            found = true;
        }
        assert(views[i as int] == entries@[i as int]@);
    }
    found
}

/// Builds the generator that the `generate` command renders, or the error
/// message it fails with.
pub fn configure(o: &GenerateOptions) -> (r: Result<Generator, String>)
    ensures
        match r {
            Ok(g) => configured(o) == Ok::<GeneratorModel, Seq<char>>(g@),
            Err(e) => configured(o) == Err::<GeneratorModel, Seq<char>>(e@),
        },
{
    let branches = borrow_list(&o.branches);
    let matrix = borrow_list(&o.matrix);
    let mut g = Generator::new().target(o.target.to_lib()).workflow_name(
        o.workflow_name.as_str(),
    ).branches(branches.as_slice()).matrix_os(matrix.as_slice());
    if o.no_cache {
        g = g.with_cache(false);
    }
    if o.workspace {
        g = g.with_workspace();
    }
    match &o.features {
        Some(f) => {
            g = g.features(f.as_str());
        },
        None => {},
    }
    if o.no_default_features_build {
        g = g.with_no_default_features_build();
    }
    if o.all_features_build {
        g = g.with_all_features_build();
    }
    assert(g@ == base_config(o));
    let ghost raws = o.path_deps.deep_view();
    assert(raws.skip(0) =~= raws);
    for i in 0..o.path_deps.len()
        invariant
            raws == o.path_deps.deep_view(),
            with_path_deps(g@, raws.skip(i as int)) == with_path_deps(base_config(o), raws),
    {
        proof {
            assert(raws.skip(i as int).drop_first() =~= raws.skip(i + 1));
            assert(raws.skip(i as int)[0] == o.path_deps@[i as int]@);
        }
        match parse_path_dep(o.path_deps[i].as_str()) {
            Ok((name, url)) => {
                g = g.with_path_dep(PathDep::new(name, url));
            },
            Err(e) => {
                return Err(e);
            },
        }
    }
    proof {
        assert(raws.skip(o.path_deps.len() as int) =~= Seq::<Seq<char>>::empty());
    }
    let ghost g1 = g@;
    let msrv = match &o.msrv {
        Some(v) => Some(v.as_str()),
        None => None,
    };
    assert(opt_str_view(msrv) == opt_string_view(o.msrv));
    let ghost entries = o.with.deep_view();
    assert(entries.skip(0) =~= entries);
    for i in 0..o.with.len()
        invariant
            entries == o.with.deep_view(),
            with_path_deps(base_config(o), o.path_deps.deep_view()) == Ok::<
                GeneratorModel,
                Seq<char>,
            >(g1),
            opt_str_view(msrv) == opt_string_view(o.msrv),
            with_jobs(g@, entries.skip(i as int), opt_str_view(msrv)) == with_jobs(
                g1,
                entries,
                opt_str_view(msrv),
            ),
    {
        proof {
            assert(entries.skip(i as int).drop_first() =~= entries.skip(i + 1));
            assert(entries.skip(i as int)[0] == o.with@[i as int]@);
        }
        let trimmed = trim_text(o.with[i].as_str());
        let key = to_ascii_lowercase(trimmed);
        match apply_job(g, key.as_str(), msrv) {
            Ok(g2) => {
                g = g2;
            },
            Err(e) => {
                return Err(e);
            },
        }
    }
    proof {
        assert(entries.skip(o.with.len() as int) =~= Seq::<Seq<char>>::empty());
    }
    if !mentions_msrv(&o.with) {
        match msrv {
            Some(v) => {
                g = g.with_msrv(v);
            },
            None => {},
        }
    }
    Ok(g)
}

proof fn lemma_split_at_first(s: Seq<char>, d: char)
    ensures
        match split_at_first(s, d) {
            Some((a, b)) => s == a + seq![d] + b && !a.contains(d),
            None => !s.contains(d),
        },
    decreases s.len(),
{
    if s.len() > 0 {
        lemma_split_at_first(s.drop_first(), d);
        if s[0] == d {
            assert(s =~= Seq::<char>::empty() + seq![d] + s.drop_first());
        } else {
            match split_at_first(s.drop_first(), d) {
                Some((a, b)) => {
                    assert(s =~= seq![s[0]] + s.drop_first());
                    assert(s.drop_first() == a + seq![d] + b);
                    assert(s =~= (seq![s[0]] + a) + seq![d] + b);
                    assert forall|i: int| 0 <= i < (seq![s[0]] + a).len() implies (seq![s[0]]
                        + a)[i] != d by {
                        if i > 0 {
                            assert((seq![s[0]] + a)[i] == a[i - 1]);
                        }
                    }
                },
                None => {
                    assert forall|i: int| 0 <= i < s.len() implies s[i] != d by {
                        if i > 0 {
                            assert(s[i] == s.drop_first()[i - 1]);
                        }
                    }
                },
            }
        }
    }
}

/// A `--path-dep` value parses exactly when it is `name=url` with a
/// non-empty name free of `=` and a non-empty URL (which may hold `=`);
/// the parts are then the name and the URL.
pub proof fn path_dep_parse_splits_at_first_equals(raw: Seq<char>, name: Seq<char>, url: Seq<char>)
    ensures
        path_dep_parse(raw) matches Ok((n, u)) ==> raw == n + seq!['='] + u && n.len() > 0
            && u.len() > 0 && !n.contains('='),
        raw == name + seq!['='] + url && name.len() > 0 && url.len() > 0 && !name.contains('=')
            ==> path_dep_parse(raw) == Ok::<(Seq<char>, Seq<char>), Seq<char>>((name, url)),
{
    lemma_split_at_first(raw, '=');
    if raw == name + seq!['='] + url && !name.contains('=') {
        assert(raw[name.len() as int] == '=');
        assert(raw.contains('='));
        let (a, b) = split_at_first(raw, '=')->0;
        if a.len() < name.len() {
            assert(raw[a.len() as int] == '=');
            assert(name[a.len() as int] == raw[a.len() as int]);
        } else if a.len() > name.len() {
            assert(a[name.len() as int] == raw[name.len() as int]);
        }
        assert(a =~= name) by {
            assert forall|i: int| 0 <= i < a.len() implies a[i] == name[i] by {
                assert(a[i] == raw[i]);
                assert(name[i] == raw[i]);
            }
        }
        assert(b =~= url) by {
            assert forall|i: int| 0 <= i < b.len() implies b[i] == url[i] by {
                assert(b[i] == raw[a.len() + 1 + i]);
                assert(url[i] == raw[name.len() + 1 + i]);
            }
        }
    }
}

proof fn lemma_path_deps_keep_lists(g: GeneratorModel, raws: Seq<Seq<char>>)
    ensures
        with_path_deps(g, raws) matches Ok(g2) ==> g2.branches == g.branches && g2.matrix_os
            == g.matrix_os,
    decreases raws.len(),
{
    if raws.len() > 0 {
        match path_dep_parse(raws[0]) {
            Err(e) => {},
            Ok((name, url)) => {
                lemma_path_deps_keep_lists(
                    GeneratorModel {
                        path_deps: g.path_deps.push(PathDepModel { name, repo_url: url }),
                        ..g
                    },
                    raws.drop_first(),
                );
            },
        }
    }
}

proof fn lemma_jobs_keep_lists(g: GeneratorModel, entries: Seq<Seq<char>>, msrv: Option<Seq<char>>)
    ensures
        with_jobs(g, entries, msrv) matches Ok(g2) ==> g2.branches == g.branches && g2.matrix_os
            == g.matrix_os,
    decreases entries.len(),
{
    if entries.len() > 0 {
        match job_effect(g, job_key(entries[0]), msrv) {
            Err(e) => {},
            Ok(g2) => {
                lemma_jobs_keep_lists(g2, entries.drop_first(), msrv);
            },
        }
    }
}

/// Whatever the options, a configuration built from them has a non-empty
/// branch filter and a non-empty OS matrix.
pub proof fn configured_is_well_formed(o: &GenerateOptions)
    ensures
        configured(o) matches Ok(g) ==> g.wf(),
{
    let g0 = base_config(o);
    lemma_path_deps_keep_lists(g0, o.path_deps.deep_view());
    match with_path_deps(g0, o.path_deps.deep_view()) {
        Err(e) => {},
        Ok(g1) => {
            lemma_jobs_keep_lists(g1, o.with.deep_view(), opt_string_view(o.msrv));
        },
    }
}

/// The options without path dependencies or jobs set the configuration that
/// this chain of setters gives, each step as that setter's contract states:
/// `new`, `target`, `workflow_name`, `branches`, `matrix_os`, then
/// `with_cache(false)` if `--no-cache`, `with_workspace` if `--workspace`,
/// `features` if a feature list is given, and the no-default-features and
/// all-features builds if asked for. `configured` then adds each path
/// dependency as `with_path_dep` does, each `--with` job as `with_clippy`,
/// `with_fmt`, `with_docs` or `with_msrv` do, and the MSRV job for a
/// `--msrv` given without `--with msrv`.
pub proof fn base_config_is_builder_chain(o: &GenerateOptions)
    ensures
        base_config(o) == ({
            let g1 = GeneratorModel { target: target_of(o.target), ..default_model() };
            let g2 = GeneratorModel { workflow_name: o.workflow_name@, ..g1 };
            let g3 = GeneratorModel {
                branches: if o.branches.deep_view().len() == 0 {
                    seq!["main"@]
                } else {
                    o.branches.deep_view()
                },
                ..g2
            };
            let g4 = GeneratorModel {
                matrix_os: if o.matrix.deep_view().len() == 0 {
                    seq!["ubuntu-latest"@]
                } else {
                    o.matrix.deep_view()
                },
                ..g3
            };
            let g5 = if o.no_cache {
                GeneratorModel { rust_cache: false, ..g4 }
            } else {
                g4
            };
            let g6 = if o.workspace {
                GeneratorModel { workspace: true, ..g5 }
            } else {
                g5
            };
            let g7 = match o.features {
                Some(f) => GeneratorModel { features: Some(f@), ..g6 },
                None => g6,
            };
            let g8 = if o.no_default_features_build {
                GeneratorModel { no_default_features_build: true, ..g7 }
            } else {
                g7
            };
            if o.all_features_build {
                GeneratorModel { all_features_build: true, ..g8 }
            } else {
                g8
            }
        }),
{
}

proof fn lemma_with_path_deps_all(g: GeneratorModel, raws: Seq<Seq<char>>)
    ensures
        (forall|i: int| 0 <= i < raws.len() ==> (#[trigger] path_dep_parse(raws[i])) is Ok)
            ==> (with_path_deps(g, raws) matches Ok(g2) && g2 == GeneratorModel {
            path_deps: g2.path_deps,
            ..g
        } && g2.path_deps.len() == g.path_deps.len() + raws.len() && (forall|k: int|
            0 <= k < g.path_deps.len() ==> g2.path_deps[k] == g.path_deps[k]) && (forall|i: int|
            0 <= i < raws.len() ==> path_dep_parse(raws[i]) == Ok::<
                (Seq<char>, Seq<char>),
                Seq<char>,
            >(
                (
                    #[trigger] g2.path_deps[g.path_deps.len() + i].name,
                    g2.path_deps[g.path_deps.len() + i].repo_url,
                ),
            ))),
        forall|i: int|
            0 <= i < raws.len() && (#[trigger] path_dep_parse(raws[i])) is Err && (forall|j: int|
                0 <= j < i ==> path_dep_parse(raws[j]) is Ok) ==> with_path_deps(g, raws)
                == Err::<GeneratorModel, Seq<char>>(path_dep_parse(raws[i])->Err_0),
    decreases raws.len(),
{
    if raws.len() > 0 {
        let rest = raws.drop_first();
        assert forall|i: int| 0 <= i < rest.len() implies rest[i] == raws[i + 1] by {}
        match path_dep_parse(raws[0]) {
            Err(e) => {},
            Ok((name, url)) => {
                let g1 = GeneratorModel {
                    path_deps: g.path_deps.push(PathDepModel { name, repo_url: url }),
                    ..g
                };
                lemma_with_path_deps_all(g1, rest);
                if forall|i: int| 0 <= i < raws.len() ==> (#[trigger] path_dep_parse(raws[i])) is Ok {
                    assert forall|i: int| 0 <= i < rest.len() implies (#[trigger] path_dep_parse(
                        rest[i],
                    )) is Ok by {
                        assert(path_dep_parse(raws[i + 1]) is Ok);
                    }
                    let g2 = with_path_deps(g1, rest)->Ok_0;
                    assert forall|i: int| 0 <= i < raws.len() implies path_dep_parse(raws[i])
                        == Ok::<(Seq<char>, Seq<char>), Seq<char>>(
                        (
                            #[trigger] g2.path_deps[g.path_deps.len() + i].name,
                            g2.path_deps[g.path_deps.len() + i].repo_url,
                        ),
                    ) by {
                        if i > 0 {
                            assert(path_dep_parse(rest[i - 1]) == Ok::<
                                (Seq<char>, Seq<char>),
                                Seq<char>,
                            >(
                                (
                                    g2.path_deps[g1.path_deps.len() + (i - 1)].name,
                                    g2.path_deps[g1.path_deps.len() + (i - 1)].repo_url,
                                ),
                            ));
                        } else {
                            assert(g2.path_deps[g.path_deps.len() as int] == g1.path_deps[g.path_deps.len() as int]);
                        }
                    }
                    assert forall|k: int| 0 <= k < g.path_deps.len() implies g2.path_deps[k]
                        == g.path_deps[k] by {
                        assert(g2.path_deps[k] == g1.path_deps[k]);
                    }
                }
                assert forall|i: int|
                    0 <= i < raws.len() && (#[trigger] path_dep_parse(raws[i])) is Err && (forall|
                        j: int,
                    | 0 <= j < i ==> path_dep_parse(raws[j]) is Ok) implies with_path_deps(g, raws)
                    == Err::<GeneratorModel, Seq<char>>(path_dep_parse(raws[i])->Err_0) by {
                    assert(i > 0);
                    assert(rest[i - 1] == raws[i]);
                    assert forall|j: int| 0 <= j < i - 1 implies path_dep_parse(rest[j]) is Ok by {
                        assert(rest[j] == raws[j + 1]);
                    }
                    assert(path_dep_parse(rest[i - 1]) is Err);
                }
            },
        }
    }
}

proof fn lemma_jobs_keep_path_deps(
    g: GeneratorModel,
    entries: Seq<Seq<char>>,
    msrv: Option<Seq<char>>,
)
    ensures
        with_jobs(g, entries, msrv) matches Ok(g2) ==> g2.path_deps == g.path_deps,
    decreases entries.len(),
{
    if entries.len() > 0 {
        match job_effect(g, job_key(entries[0]), msrv) {
            Err(e) => {},
            Ok(g2) => {
                lemma_jobs_keep_path_deps(g2, entries.drop_first(), msrv);
            },
        }
    }
}

/// Every `--path-dep` value adds its dependency, one per value and in the
/// order given; the first value that does not parse makes the whole
/// command fail with that value's error.
pub proof fn configured_keeps_every_path_dep(o: &GenerateOptions)
    ensures
        (forall|i: int|
            0 <= i < o.path_deps.deep_view().len() ==> (#[trigger] path_dep_parse(
                o.path_deps.deep_view()[i],
            )) is Ok) ==> (configured(o) matches Ok(g) ==> g.path_deps.len()
            == o.path_deps.deep_view().len() && (forall|i: int|
            0 <= i < o.path_deps.deep_view().len() ==> path_dep_parse(o.path_deps.deep_view()[i])
                == Ok::<(Seq<char>, Seq<char>), Seq<char>>(
                (#[trigger] g.path_deps[i].name, g.path_deps[i].repo_url),
            ))),
        forall|i: int|
            0 <= i < o.path_deps.deep_view().len() && (#[trigger] path_dep_parse(
                o.path_deps.deep_view()[i],
            )) is Err && (forall|j: int|
                0 <= j < i ==> path_dep_parse(o.path_deps.deep_view()[j]) is Ok) ==> configured(o)
                == Err::<GeneratorModel, Seq<char>>(path_dep_parse(o.path_deps.deep_view()[i])->Err_0),
{
    let raws = o.path_deps.deep_view();
    let g0 = base_config(o);
    lemma_with_path_deps_all(g0, raws);
    assert(g0.path_deps.len() == 0);
    match with_path_deps(g0, raws) {
        Err(e) => {},
        Ok(g1) => {
            lemma_jobs_keep_path_deps(g1, o.with.deep_view(), opt_string_view(o.msrv));
            if forall|i: int| 0 <= i < raws.len() ==> (#[trigger] path_dep_parse(raws[i])) is Ok {
                assert forall|i: int| 0 <= i < raws.len() implies path_dep_parse(raws[i]) == Ok::<
                    (Seq<char>, Seq<char>),
                    Seq<char>,
                >((#[trigger] g1.path_deps[i].name, g1.path_deps[i].repo_url)) by {
                    assert(g1.path_deps[g0.path_deps.len() + i] == g1.path_deps[i]);
                }
            }
        },
    }
}

} // verus!
