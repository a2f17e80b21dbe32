//! What a build of a project does: the RPM options taken from the project's
//! configuration and from the command line, the setup of the Flatpak builder,
//! and which of the project's artifacts are built.
use crate::build::cli::{FlatpakOpts, PackageType};
use crate::build::defs::{defs_view, sorted_insert};
use crate::build::flatpak::{FlatpakBuilder, FlatpakView};
use crate::build::rpm::RPMOptions;
use crate::rpmspec::sections::split_space;
use crate::rpmspec::words::find_char_exec;
use crate::text::{append_chars, chars_of, extend_strings, opt_view, slice_chars, string_of, strings_view};
use vstd::prelude::*;

verus! {

/// The RPM section of a project's configuration, as plain values. Each map
/// of options is given as its pairs, in the order the map yields them.
pub struct ProjectRpm {
    /// Directory of the sources
    pub sources: Option<String>,
    /// Extra repositories for Mock
    pub extra_repos: Vec<String>,
    /// Whether SCM support is on
    pub enable_scm: Option<bool>,
    /// SCM options
    pub scm_opts: Option<Vec<(String, String)>>,
    /// Mock config options
    pub config: Option<Vec<(String, String)>>,
    /// Mock plugin options
    pub plugin_opts: Option<Vec<(String, String)>>,
}

/// `key=value`.
pub open spec fn key_value(k: Seq<char>, v: Seq<char>) -> Seq<char> {
    k + seq!['='] + v
}

/// `key=value` for every pair, in order.
pub open spec fn key_values(pairs: Seq<(Seq<char>, Seq<char>)>) -> Seq<Seq<char>> {
    Seq::new(pairs.len(), |i: int| key_value(pairs[i].0, pairs[i].1))
}

/// `key=value` for every pair of an optional map; nothing without one.
pub open spec fn opt_key_values(o: Option<Vec<(String, String)>>) -> Seq<Seq<char>> {
    match o {
        Some(p) => key_values(defs_view(p)),
        None => seq![],
    }
}

/// The view of an optional list of strings.
pub open spec fn opt_strings(o: Option<Vec<String>>) -> Option<Seq<Seq<char>>> {
    match o {
        Some(v) => Some(strings_view(v)),
        None => None,
    }
}

/// `key=value` for every pair, in order.
pub fn key_values_exec(pairs: &Vec<(String, String)>) -> (r: Vec<String>)
    ensures
        strings_view(r) == key_values(defs_view(*pairs)),
{
    let ghost goal = key_values(defs_view(*pairs));
    let mut r: Vec<String> = Vec::new();
    let mut i: usize = 0;
    while i < pairs.len()
        invariant
            i <= pairs.len(),
            goal == key_values(defs_view(*pairs)),
            strings_view(r) == goal.take(i as int),
        decreases pairs.len() - i,
    {
        let mut v = chars_of(pairs[i].0.as_str());
        v.push('=');
        append_chars(&mut v, &chars_of(pairs[i].1.as_str()));
        assert(defs_view(*pairs)[i as int] == (pairs@[i as int].0@, pairs@[i as int].1@));
        assert(v@ =~= key_value(pairs@[i as int].0@, pairs@[i as int].1@));
        let s = string_of(&v);
        let ghost before = strings_view(r);
        let ghost sv = s@;
        r.push(s);
        assert(strings_view(r) =~= before.push(sv));
        assert(goal.take(i + 1) =~= goal.take(i as int).push(goal[i as int]));
        i += 1;
    }
    assert(goal.take(pairs.len() as int) =~= goal);
    r
}

fn opt_key_values_exec(o: &Option<Vec<(String, String)>>) -> (r: Vec<String>)
    ensures
        strings_view(r) == opt_key_values(*o),
{
    match o {
        Some(p) => key_values_exec(p),
        None => {
            let r: Vec<String> = Vec::new();
            assert(strings_view(r) =~= Seq::<Seq<char>>::empty());
            r
        },
    }
}

fn copy_strings(v: &Vec<String>) -> (r: Vec<String>)
    ensures
        strings_view(r) == strings_view(*v),
{
    let mut r: Vec<String> = Vec::new();
    extend_strings(&mut r, v);
    assert(strings_view(r) =~= strings_view(*v));
    r
}

/// Sets the options that the RPM section of a project asks for: its extra
/// repositories, its sources, the mirror choice of the command line, source
/// fetching on, external build requirements, and its SCM, config and plugin
/// options.
pub fn apply_project_rpm(opts: &mut RPMOptions, rpm: &ProjectRpm, no_mirrors: bool)
    ensures
        opt_strings(final(opts).extra_repos) == Some(strings_view(rpm.extra_repos)),
        final(opts).sources@ == (match rpm.sources {
            Some(s) => s@,
            None => old(opts).sources@,
        }),
        final(opts).no_mirror == no_mirrors,
        final(opts).macros.view() == sorted_insert(old(opts).macros.view(), "_disable_source_fetch"@, "0"@),
        strings_view(final(opts).config_opts) == strings_view(old(opts).config_opts).push(
            "external_buildrequires=True"@,
        ) + opt_key_values(rpm.config),
        final(opts).scm_enable == (match rpm.enable_scm {
            Some(b) => b,
            None => old(opts).scm_enable,
        }),
        strings_view(final(opts).scm_opts) == (match rpm.scm_opts {
            Some(p) => key_values(defs_view(p)),
            None => strings_view(old(opts).scm_opts),
        }),
        strings_view(final(opts).plugin_opts) == (match rpm.plugin_opts {
            Some(p) => key_values(defs_view(p)),
            None => strings_view(old(opts).plugin_opts),
        }),
        final(opts).mock_config == old(opts).mock_config,
        final(opts).with == old(opts).with,
        final(opts).without == old(opts).without,
        final(opts).target == old(opts).target,
        final(opts).resultdir == old(opts).resultdir,
{
    opts.extra_repos = Some(copy_strings(&rpm.extra_repos));
    match &rpm.sources {
        Some(s) => {
            opts.sources = s.clone();
        },
        None => {},
    }
    opts.no_mirror = no_mirrors;
    opts.macros.insert("_disable_source_fetch".to_owned(), "0".to_owned());
    let ghost before = strings_view(opts.config_opts);
    opts.config_opts.push("external_buildrequires=True".to_owned());
    assert(strings_view(opts.config_opts) =~= before.push("external_buildrequires=True"@));
    match rpm.enable_scm {
        Some(b) => {
            opts.scm_enable = b;
        },
        None => {},
    }
    match &rpm.scm_opts {
        Some(p) => {
            opts.scm_opts = key_values_exec(p);
        },
        None => {},
    }
    let extra = opt_key_values_exec(&rpm.config);
    extend_strings(&mut opts.config_opts, &extra);
    match &rpm.plugin_opts {
        Some(p) => {
            opts.plugin_opts = key_values_exec(p);
        },
        None => {},
    }
}

/// `base` with the relative component `comp` appended, a slash between the
/// two unless `base` is empty or already ends in one (`Path::join`).
pub open spec fn join_path(base: Seq<char>, comp: Seq<char>) -> Seq<char> {
    if base.len() == 0 || base.last() == '/' {
        base + comp
    } else {
        base + seq!['/'] + comp
    }
}

/// `base` with the relative component `comp` appended.
pub fn join_path_exec(base: &str, comp: &str) -> (r: String)
    ensures
        r@ == join_path(base@, comp@),
{
    let mut v = chars_of(base);
    if v.len() > 0 && v[v.len() - 1] != '/' {
        v.push('/');
    }
    append_chars(&mut v, &chars_of(comp));
    assert(v@ =~= join_path(base@, comp@));
    string_of(&v)
}

/// The Flatpak builder of a build into `output_dir`: its build directory,
/// repository and bundles under `flatpak/`, the extra sources of the command
/// line, and the deletion of the build directory unless that was turned off.
pub fn flatpak_builder_for(output_dir: &str, opts: &FlatpakOpts) -> (b: FlatpakBuilder)
    ensures
        b@ == (FlatpakView {
            output_dir: join_path(join_path(output_dir@, "flatpak"@), "build"@),
            output_repo: join_path(join_path(output_dir@, "flatpak"@), "repo"@),
            bundles_dir: join_path(join_path(output_dir@, "flatpak"@), "bundles"@),
            extra_sources: strings_view(opts.flatpak_extra_sources),
            extra_sources_urls: strings_view(opts.flatpak_extra_sources_url),
            extra_args: if opts.flatpak_dont_delete_build_dir {
                seq![]
            } else {
                seq!["--delete-build-dirs"@]
            },
        }),
{
    let out = join_path_exec(output_dir, "flatpak");
    let mut b = FlatpakBuilder::new(
        join_path_exec(out.as_str(), "build"),
        join_path_exec(out.as_str(), "repo"),
        join_path_exec(out.as_str(), "bundles"),
    );
    b.extra_sources_iter(copy_strings(&opts.flatpak_extra_sources));
    b.extra_sources_urls_iter(copy_strings(&opts.flatpak_extra_sources_url));
    if !opts.flatpak_dont_delete_build_dir {
        b.add_extra_args("--delete-build-dirs".to_owned());
    }
    assert(b@.extra_sources =~= strings_view(opts.flatpak_extra_sources));
    assert(b@.extra_sources_urls =~= strings_view(opts.flatpak_extra_sources_url));
    b
}

/// Each `name value` of `defs` defined on `m`, in order; one without a space
/// defines nothing.
pub open spec fn define_each(m: Seq<(Seq<char>, Seq<char>)>, defs: Seq<Seq<char>>) -> Seq<(Seq<char>, Seq<char>)>
    decreases defs.len(),
{
    if defs.len() == 0 {
        m
    } else {
        let prev = define_each(m, defs.drop_last());
        match split_space(defs.last()) {
            Some(p) => sorted_insert(prev, p.0, p.1),
            None => prev,
        }
    }
}

/// The version of a build from git: the date, a dot and the first eight
/// characters of the commit; the date alone without a commit.
pub open spec fn autogit_version(commit: Option<Seq<char>>, date: Seq<char>) -> Seq<char> {
    match commit {
        Some(c) => date + seq!['.'] + c.take(if c.len() < 8 { c.len() as int } else { 8 }),
        None => date,
    }
}

/// `m` with the macros `autogitversion`, `autogitcommit` (the commit, or
/// `unknown`) and `autogitdate` defined.
pub open spec fn autogit_macros(m: Seq<(Seq<char>, Seq<char>)>, commit: Option<Seq<char>>, date: Seq<char>) -> Seq<
    (Seq<char>, Seq<char>),
> {
    let commit_name = match commit {
        Some(c) => c,
        None => "unknown"@,
    };
    sorted_insert(
        sorted_insert(sorted_insert(m, "autogitversion"@, autogit_version(commit, date)), "autogitcommit"@, commit_name),
        "autogitdate"@,
        date,
    )
}

/// A list of repositories after `new` ones are added: unchanged when there
/// are none, else the old ones (if any) followed by the new.
pub open spec fn add_repos(old: Option<Seq<Seq<char>>>, new: Seq<Seq<char>>) -> Option<Seq<Seq<char>>> {
    if new.len() == 0 {
        old
    } else {
        Some(
            match old {
                Some(o) => o,
                None => seq![],
            } + new,
        )
    }
}

/// The repository of earlier builds, as a `file://` URL, if there is one.
pub open spec fn local_repo_url(path: Option<Seq<char>>) -> Seq<Seq<char>> {
    match path {
        Some(p) => seq!["file://"@ + p],
        None => seq![],
    }
}

/// `Invalid rpm macro: ` and the definition.
pub open spec fn invalid_macro_msg(m: Seq<char>) -> Seq<char> {
    "Invalid rpm macro: "@ + m
}

fn push_repo(repos: &mut Option<Vec<String>>, repo: String)
    ensures
        opt_strings(*final(repos)) == add_repos(opt_strings(*old(repos)), seq![repo@]),
{
    let mut v = match repos.take() {
        Some(v) => v,
        None => Vec::new(),
    };
    let ghost before = strings_view(v);
    let ghost rv = repo@;
    v.push(repo);
    assert(strings_view(v) =~= before.push(rv));
    *repos = Some(v);
    proof {
        let o = opt_strings(*old(repos));
        let base = match o {
            Some(x) => x,
            None => seq![],
        };
        assert(base + seq![rv] =~= before.push(rv));
    }
}

/// Adding repositories one after the other adds them all.
proof fn lemma_add_repos_push(old: Option<Seq<Seq<char>>>, a: Seq<Seq<char>>, r: Seq<char>)
    ensures
        add_repos(add_repos(old, a), seq![r]) == add_repos(old, a.push(r)),
{
    let base = match old {
        Some(o) => o,
        None => seq![],
    };
    if a.len() == 0 {
        assert(a.push(r) =~= seq![r]);
    } else {
        assert(base + a + seq![r] =~= base + a.push(r));
    }
}

fn define_split(opts: &mut RPMOptions, def: &String) -> (ok: bool)
    ensures
        ok == split_space(def@) is Some,
        final(opts).macros.view() == (match split_space(def@) {
            Some(p) => sorted_insert(old(opts).macros.view(), p.0, p.1),
            None => old(opts).macros.view(),
        }),
        final(opts).mock_config == old(opts).mock_config,
        final(opts).with == old(opts).with,
        final(opts).without == old(opts).without,
        final(opts).target == old(opts).target,
        final(opts).sources == old(opts).sources,
        final(opts).resultdir == old(opts).resultdir,
        final(opts).extra_repos == old(opts).extra_repos,
        final(opts).no_mirror == old(opts).no_mirror,
        final(opts).config_opts == old(opts).config_opts,
        final(opts).scm_enable == old(opts).scm_enable,
        final(opts).scm_opts == old(opts).scm_opts,
        final(opts).plugin_opts == old(opts).plugin_opts,
{
    let c = chars_of(def.as_str());
    match find_char_exec(&c, ' ') {
        Some(i) => {
            assert(i < c.len());
            let k = slice_chars(&c, 0, i);
            let v = slice_chars(&c, i + 1, c.len());
            assert(k@ =~= def@.take(i as int));
            assert(v@ =~= def@.skip(i + 1));
            opts.macros.insert(string_of(&k), string_of(&v));
            true
        },
        None => false,
    }
}

/// Prepares the options of an RPM build: the repository of earlier builds
/// (`local_repo`, when it has repodata) and the extra repositories of the
/// command line are added, the target is set, each `name value` macro of the
/// command line is defined, and then the macros `autogitversion`,
/// `autogitcommit` and `autogitdate` from the commit and date. A macro
/// without a space fails the preparation, after the macros before it.
pub fn prepare_rpm_build(
    opts: &mut RPMOptions,
    local_repo: Option<String>,
    target: Option<String>,
    extra_repos: &Vec<String>,
    rpm_macros: &Vec<String>,
    commit_id: Option<String>,
    date: &str,
) -> (r: Result<(), String>)
    ensures
        opt_strings(final(opts).extra_repos) == add_repos(
            opt_strings(old(opts).extra_repos),
            local_repo_url(opt_view(local_repo)) + strings_view(*extra_repos),
        ),
        final(opts).target == target,
        match r {
            Ok(()) => (forall|j: int| 0 <= j < rpm_macros@.len() ==> (#[trigger] split_space(rpm_macros@[j]@)) is Some)
                && final(opts).macros.view() == autogit_macros(
                define_each(old(opts).macros.view(), strings_view(*rpm_macros)),
                opt_view(commit_id),
                date@,
            ),
            Err(e) => exists|i: int|
                0 <= i < rpm_macros@.len() && split_space(rpm_macros@[i]@) is None && (forall|j: int|
                    0 <= j < i ==> (#[trigger] split_space(rpm_macros@[j]@)) is Some) && e@ == invalid_macro_msg(
                    rpm_macros@[i]@,
                ) && final(opts).macros.view() == define_each(
                    old(opts).macros.view(),
                    strings_view(*rpm_macros).take(i),
                ),
        },
        final(opts).mock_config == old(opts).mock_config,
        final(opts).with == old(opts).with,
        final(opts).without == old(opts).without,
        final(opts).sources == old(opts).sources,
        final(opts).resultdir == old(opts).resultdir,
        final(opts).no_mirror == old(opts).no_mirror,
        final(opts).config_opts == old(opts).config_opts,
        final(opts).scm_enable == old(opts).scm_enable,
        final(opts).scm_opts == old(opts).scm_opts,
        final(opts).plugin_opts == old(opts).plugin_opts,
{
    let ghost old_repos = opt_strings(opts.extra_repos);
    let ghost local = local_repo_url(opt_view(local_repo));
    match &local_repo {
        Some(p) => {
            let mut u = chars_of("file://");
            append_chars(&mut u, &chars_of(p.as_str()));
            let url = string_of(&u);
            assert(url@ =~= "file://"@ + p@);
            push_repo(&mut opts.extra_repos, url);
            assert(seq![url@] =~= local);
        },
        None => {
            assert(add_repos(old_repos, local) == old_repos);
        },
    }
    opts.target = target;
    let mut i: usize = 0;
    while i < extra_repos.len()
        invariant
            i <= extra_repos.len(),
            opt_strings(opts.extra_repos) == add_repos(old_repos, local + strings_view(*extra_repos).take(i as int)),
            opts.target == target,
            opts.macros == old(opts).macros,
            opts.mock_config == old(opts).mock_config,
            opts.with == old(opts).with,
            opts.without == old(opts).without,
            opts.sources == old(opts).sources,
            opts.resultdir == old(opts).resultdir,
            opts.no_mirror == old(opts).no_mirror,
            opts.config_opts == old(opts).config_opts,
            opts.scm_enable == old(opts).scm_enable,
            opts.scm_opts == old(opts).scm_opts,
            opts.plugin_opts == old(opts).plugin_opts,
        decreases extra_repos.len() - i,
    {
        let ghost sofar = local + strings_view(*extra_repos).take(i as int);
        push_repo(&mut opts.extra_repos, extra_repos[i].clone());
        proof {
            lemma_add_repos_push(old_repos, sofar, extra_repos@[i as int]@);
            assert(sofar.push(extra_repos@[i as int]@) =~= local + strings_view(*extra_repos).take(i + 1));
        }
        i += 1;
    }
    assert(strings_view(*extra_repos).take(extra_repos.len() as int) =~= strings_view(*extra_repos));
    let ghost defs = strings_view(*rpm_macros);
    let ghost m0 = opts.macros.view();
    let mut k: usize = 0;
    while k < rpm_macros.len()
        invariant
            k <= rpm_macros.len(),
            defs == strings_view(*rpm_macros),
            forall|j: int| 0 <= j < k ==> (#[trigger] split_space(rpm_macros@[j]@)) is Some,
            opts.macros.view() == define_each(m0, defs.take(k as int)),
            m0 == old(opts).macros.view(),
            old_repos == opt_strings(old(opts).extra_repos),
            local == local_repo_url(opt_view(local_repo)),
            opt_strings(opts.extra_repos) == add_repos(old_repos, local + strings_view(*extra_repos)),
            opts.target == target,
            opts.mock_config == old(opts).mock_config,
            opts.with == old(opts).with,
            opts.without == old(opts).without,
            opts.sources == old(opts).sources,
            opts.resultdir == old(opts).resultdir,
            opts.no_mirror == old(opts).no_mirror,
            opts.config_opts == old(opts).config_opts,
            opts.scm_enable == old(opts).scm_enable,
            opts.scm_opts == old(opts).scm_opts,
            opts.plugin_opts == old(opts).plugin_opts,
        decreases rpm_macros.len() - k,
    {
        assert(defs.take(k + 1).drop_last() =~= defs.take(k as int));
        assert(defs.take(k + 1).last() == rpm_macros@[k as int]@);
        if !define_split(opts, &rpm_macros[k]) {
            let mut e = chars_of("Invalid rpm macro: ");
            append_chars(&mut e, &chars_of(rpm_macros[k].as_str()));
            let msg = string_of(&e);
            assert(msg@ =~= invalid_macro_msg(rpm_macros@[k as int]@));
            assert(0 <= k < rpm_macros@.len() && split_space(rpm_macros@[k as int]@) is None && (forall|j: int|
                0 <= j < k ==> (#[trigger] split_space(rpm_macros@[j]@)) is Some) && msg@ == invalid_macro_msg(
                rpm_macros@[k as int]@,
            ) && opts.macros.view() == define_each(old(opts).macros.view(), strings_view(*rpm_macros).take(k as int)));
            return Err(msg);
        }
        k += 1;
    }
    assert(defs.take(rpm_macros.len() as int) =~= defs);
    let date_c = chars_of(date);
    let mut version = crate::text::copy_chars(&date_c);
    match &commit_id {
        Some(c) => {
            let cc = chars_of(c.as_str());
            let n: usize = if cc.len() < 8 { cc.len() } else { 8 };
            version.push('.');
            append_chars(&mut version, &slice_chars(&cc, 0, n));
            assert(version@ =~= autogit_version(opt_view(commit_id), date@));
            opts.macros.insert("autogitversion".to_owned(), string_of(&version));
            opts.macros.insert("autogitcommit".to_owned(), c.clone());
        },
        None => {
            assert(version@ =~= autogit_version(opt_view(commit_id), date@));
            opts.macros.insert("autogitversion".to_owned(), string_of(&version));
            opts.macros.insert("autogitcommit".to_owned(), "unknown".to_owned());
        },
    }
    opts.macros.insert("autogitdate".to_owned(), date.to_owned());
    Ok(())
}

/// One step of the build of a project.
#[derive(Debug, Clone, Copy, PartialEq, Eq, Structural)]
pub enum BuildStep {
    Rpm,
    Flatpak,
    Podman,
    Docker,
    /// The project's build scripts
    Scripts,
    /// The project defines no build of this kind.
    Missing(PackageType),
}

/// Which builds a project's configuration defines.
#[derive(Debug, Clone, Copy)]
pub struct ProjectParts {
    pub rpm: bool,
    pub flatpak: bool,
    pub podman: bool,
    pub docker: bool,
    pub scripts: bool,
}

/// `seq![s]` when `b`, else nothing.
pub open spec fn step_if(b: bool, s: BuildStep) -> Seq<BuildStep> {
    if b {
        seq![s]
    } else {
        seq![]
    }
}

/// The steps of building the artifacts of one kind, or all of them: every
/// build the project defines, in the order RPM, Flatpak, Podman, Docker,
/// scripts; for one kind, its build or the note that the project has none.
pub open spec fn build_plan(package: PackageType, parts: ProjectParts) -> Seq<BuildStep> {
    match package {
        PackageType::All => step_if(parts.rpm, BuildStep::Rpm) + step_if(parts.flatpak, BuildStep::Flatpak)
            + step_if(parts.podman, BuildStep::Podman) + step_if(parts.docker, BuildStep::Docker) + step_if(
            parts.scripts,
            BuildStep::Scripts,
        ),
        PackageType::Rpm => seq![if parts.rpm { BuildStep::Rpm } else { BuildStep::Missing(package) }],
        PackageType::Docker => seq![if parts.docker { BuildStep::Docker } else { BuildStep::Missing(package) }],
        PackageType::Podman => seq![if parts.podman { BuildStep::Podman } else { BuildStep::Missing(package) }],
        PackageType::Flatpak => seq![if parts.flatpak { BuildStep::Flatpak } else { BuildStep::Missing(package) }],
        PackageType::RpmOstree => seq![],
    }
}

fn push_if(v: &mut Vec<BuildStep>, b: bool, s: BuildStep)
    ensures
        final(v)@ == old(v)@ + step_if(b, s),
{
    if b {
        v.push(s);
    }
    assert(final(v)@ =~= old(v)@ + step_if(b, s));
}

/// The steps of building `package` for a project with the given parts.
/// There is no build of rpm-ostree composes.
pub fn plan_build(package: PackageType, parts: ProjectParts) -> (r: Vec<BuildStep>)
    requires
        package != PackageType::RpmOstree,
    ensures
        r@ == build_plan(package, parts),
{
    let mut v: Vec<BuildStep> = Vec::new();
    match package {
        PackageType::All => {
            push_if(&mut v, parts.rpm, BuildStep::Rpm);
            push_if(&mut v, parts.flatpak, BuildStep::Flatpak);
            push_if(&mut v, parts.podman, BuildStep::Podman);
            push_if(&mut v, parts.docker, BuildStep::Docker);
            push_if(&mut v, parts.scripts, BuildStep::Scripts);
            assert(v@ =~= build_plan(package, parts));
        },
        PackageType::Rpm => {
            v.push(if parts.rpm { BuildStep::Rpm } else { BuildStep::Missing(package) });
        },
        PackageType::Docker => {
            v.push(if parts.docker { BuildStep::Docker } else { BuildStep::Missing(package) });
        },
        PackageType::Podman => {
            v.push(if parts.podman { BuildStep::Podman } else { BuildStep::Missing(package) });
        },
        PackageType::Flatpak => {
            v.push(if parts.flatpak { BuildStep::Flatpak } else { BuildStep::Missing(package) });
        },
        PackageType::RpmOstree => {},
    }
    assert(v@ =~= build_plan(package, parts));
    v
}

/// Asking for the artifacts of one kind plans exactly one step, that kind's
/// build when the project defines it and the note that it does not
/// otherwise; asking for all of them plans no such note.
pub proof fn lemma_plan_shape(package: PackageType, parts: ProjectParts)
    requires
        package != PackageType::RpmOstree,
    ensures
        package != PackageType::All ==> build_plan(package, parts).len() == 1,
        package == PackageType::All ==> forall|i: int|
            0 <= i < build_plan(package, parts).len() ==> !(#[trigger] build_plan(package, parts)[i] is Missing),
{
    if package == PackageType::All {
        let p = build_plan(package, parts);
        assert forall|i: int| 0 <= i < p.len() implies !(#[trigger] p[i] is Missing) by {
            let a = step_if(parts.rpm, BuildStep::Rpm);
            let b = step_if(parts.flatpak, BuildStep::Flatpak);
            let c = step_if(parts.podman, BuildStep::Podman);
            let d = step_if(parts.docker, BuildStep::Docker);
            let e = step_if(parts.scripts, BuildStep::Scripts);
            assert(p == a + b + c + d + e);
            if i < a.len() {
            } else if i < a.len() + b.len() {
                assert(p[i] == b[i - a.len()]);
            } else if i < a.len() + b.len() + c.len() {
                assert(p[i] == c[i - a.len() - b.len()]);
            } else if i < a.len() + b.len() + c.len() + d.len() {
                assert(p[i] == d[i - a.len() - b.len() - c.len()]);
            } else {
                assert(p[i] == e[i - a.len() - b.len() - c.len() - d.len()]);
            }
        }
    }
}

/// What is printed when the project defines no build of a kind.
pub open spec fn missing_build_msg(t: PackageType) -> Seq<char> {
    match t {
        PackageType::Rpm => "No RPM build defined for project"@,
        PackageType::Docker => "No Docker build defined for project"@,
        PackageType::Podman => "No Podman build defined for project"@,
        PackageType::Flatpak => "No Flatpak build defined for project"@,
        _ => seq![],
    }
}

/// The note that the project defines no build of the kind `t`.
pub fn missing_build_message(t: PackageType) -> (r: String)
    requires
        t != PackageType::All,
        t != PackageType::RpmOstree,
    ensures
        r@ == missing_build_msg(t),
{
    match t {
        PackageType::Rpm => "No RPM build defined for project".to_owned(),
        PackageType::Docker => "No Docker build defined for project".to_owned(),
        PackageType::Podman => "No Podman build defined for project".to_owned(),
        _ => "No Flatpak build defined for project".to_owned(),
    }
}

/// How an artifact of each kind is named in the list of what was built.
pub open spec fn artifact_kind_name(t: PackageType) -> Seq<char> {
    match t {
        PackageType::Rpm => "RPM"@,
        PackageType::Docker => "Docker image"@,
        PackageType::Podman => "Podman image"@,
        PackageType::Flatpak => "flatpak"@,
        _ => seq![],
    }
}

/// `Built <kind>: <path>`, the line that reports an artifact.
pub fn built_message(path: &str, t: PackageType) -> (r: String)
    requires
        t != PackageType::All,
        t != PackageType::RpmOstree,
    ensures
        r@ == "Built "@ + artifact_kind_name(t) + ": "@ + path@,
{
    let kind = match t {
        PackageType::Rpm => "RPM",
        PackageType::Docker => "Docker image",
        PackageType::Podman => "Podman image",
        _ => "flatpak",
    };
    let mut v = chars_of("Built ");
    append_chars(&mut v, &chars_of(kind));
    append_chars(&mut v, &chars_of(": "));
    append_chars(&mut v, &chars_of(path));
    assert(v@ =~= "Built "@ + artifact_kind_name(t) + ": "@ + path@);
    string_of(&v)
}

/// What `Path::extension` gives for a path.
pub uninterp spec fn path_extension(path: Seq<char>) -> Option<Seq<char>>;

/// `Path::extension`: the part of the path's last component after its final
/// dot, if the component has a dot that does not start it. Claimed: the
/// result is a function of the path.
#[verifier::external_body]
pub(crate) fn extension_of(path: &str) -> (r: Option<String>)
    ensures
        opt_view(r) == path_extension(path@),
{
    match std::path::Path::new(path).extension() {
        Some(e) => Some(e.to_string_lossy().into_owned()),
        None => None,
    }
}

/// How a build script is run.
#[derive(Debug, Clone, Copy, PartialEq, Eq, Structural)]
pub enum ScriptKind {
    /// A Rhai script, run by the scripting engine
    Rhai,
    /// Anything else, run by `sh -c`
    Shell,
}

/// A script whose extension is `rhai` is a Rhai script; any other is run by
/// the shell.
pub fn script_kind(path: &str) -> (k: ScriptKind)
    ensures
        k == (if path_extension(path@) == Some("rhai"@) {
            ScriptKind::Rhai
        } else {
            ScriptKind::Shell
        }),
{
    match extension_of(path) {
        Some(e) => {
            let c = chars_of(e.as_str());
            if crate::text::chars_eq(&c, &chars_of("rhai")) {
                ScriptKind::Rhai
            } else {
                ScriptKind::Shell
            }
        },
        None => ScriptKind::Shell,
    }
}

/// Which projects a build takes.
#[derive(Debug, Clone)]
pub enum BuildSelection {
    /// Every project of the manifest
    All,
    /// The project of this name
    Project(String),
}

/// The projects to build: all of them with `--all`, else the one named; it
/// is an error to name none.
pub fn select_build(all: bool, project: Option<String>) -> (r: Result<BuildSelection, String>)
    ensures
        all ==> r matches Ok(BuildSelection::All),
        !all ==> match project {
            Some(p) => r matches Ok(BuildSelection::Project(q)) && q@ == p@,
            None => r matches Err(e) && e@ == "No project specified"@,
        },
{
    if all {
        Ok(BuildSelection::All)
    } else {
        match project {
            Some(p) => Ok(BuildSelection::Project(p)),
            None => Err("No project specified".to_owned()),
        }
    }
}

/// `Project not found: ` and the name.
pub fn project_not_found(name: &str) -> (r: String)
    ensures
        r@ == "Project not found: "@ + name@,
{
    let mut v = chars_of("Project not found: ");
    append_chars(&mut v, &chars_of(name));
    assert(v@ =~= "Project not found: "@ + name@);
    string_of(&v)
}

} // verus!
