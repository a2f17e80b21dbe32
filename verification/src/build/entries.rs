//! The build matrix for continuous integration: which projects to build,
//! and for which architectures, given the files a change touched.
use crate::build::args::ends_with;
use crate::build::defs::Defs;
use crate::text::{chars_eq, chars_of, slice_chars, string_of, strings_view};
use vstd::prelude::*;

verus! {

/// Build entry for GHA
#[derive(Debug)]
pub struct BuildEntry {
    pub pkg: String,
    pub arch: String,
    pub labels: Defs,
}

/// What a build entry holds.
pub type EntryView = (Seq<char>, Seq<char>, Seq<(Seq<char>, Seq<char>)>);

pub open spec fn entry_view(e: BuildEntry) -> EntryView {
    (e.pkg@, e.arch@, e.labels.view())
}

pub open spec fn entries_view(v: Vec<BuildEntry>) -> Seq<EntryView> {
    v@.map_values(|e: BuildEntry| entry_view(e))
}

/// What the build matrix needs to know of a project.
pub struct ProjectEntry {
    /// The project's name in the manifest.
    pub name: String,
    /// `None` without an RPM section; otherwise its `enable_scm` setting.
    pub rpm_enable_scm: Option<Option<bool>>,
    /// The architectures to build for, if given.
    pub arches: Option<Vec<String>>,
    /// The project's labels.
    pub labels: Defs,
}

/// The architectures built when a project names none.
pub open spec fn default_arches() -> Seq<Seq<char>> {
    seq!["x86_64"@, "aarch64"@]
}

/// `s` without the characters after its last `/`, and without trailing
/// slashes: the directory of a changed file.
pub open spec fn trim_end_non_slash(s: Seq<char>) -> Seq<char>
    decreases s.len(),
{
    if s.len() > 0 && s.last() != '/' { trim_end_non_slash(s.drop_last()) } else { s }
}

pub open spec fn trim_end_slash(s: Seq<char>) -> Seq<char>
    decreases s.len(),
{
    if s.len() > 0 && s.last() == '/' { trim_end_slash(s.drop_last()) } else { s }
}

pub open spec fn dir_of(f: Seq<char>) -> Seq<char> {
    trim_end_slash(trim_end_non_slash(f))
}

/// `s` with `suffix` removed from its end as often as it occurs there
/// (`str::trim_end_matches`).
pub open spec fn trim_suffix_all(s: Seq<char>, suffix: Seq<char>) -> Seq<char>
    decreases s.len(),
{
    if suffix.len() > 0 && ends_with(s, suffix) {
        trim_suffix_all(s.take(s.len() - suffix.len()), suffix)
    } else {
        s
    }
}

/// The entries for one project whose directory changed.
pub open spec fn project_entries(name: Seq<char>, scm: Option<Option<bool>>, arches: Option<Seq<Seq<char>>>, labels: Seq<(Seq<char>, Seq<char>)>) -> Seq<EntryView> {
    if scm == Some(Some(true)) {
        seq![(name, "x86_64"@, labels), (seq![], "aarch64"@, labels)]
    } else {
        let a = match arches { Some(a) => a, None => default_arches() };
        Seq::new(a.len(), |i: int| (name, a[i], labels))
    }
}

pub open spec fn project_view(p: ProjectEntry) -> (Seq<char>, Option<Option<bool>>, Option<Seq<Seq<char>>>, Seq<(Seq<char>, Seq<char>)>) {
    (p.name@, p.rpm_enable_scm, match p.arches { Some(a) => Some(strings_view(a)), None => None }, p.labels.view())
}

/// The build matrix: for every project, in order, whose directory (its name
/// without the suffix) is the directory of a changed file, its entries.
pub open spec fn build_entries(
    changed: Seq<Seq<char>>,
    suffix: Seq<char>,
    projects: Seq<(Seq<char>, Option<Option<bool>>, Option<Seq<Seq<char>>>, Seq<(Seq<char>, Seq<char>)>)>,
) -> Seq<EntryView>
    decreases projects.len(),
{
    if projects.len() == 0 {
        seq![]
    } else {
        let p = projects.last();
        let before = build_entries(changed, suffix, projects.drop_last());
        if exists|i: int| 0 <= i < changed.len() && dir_of(changed[i]) == trim_suffix_all(p.0, suffix) {
            before + project_entries(p.0, p.1, p.2, p.3)
        } else {
            before
        }
    }
}

fn dir_of_exec(f: &str) -> (r: Vec<char>)
    ensures
        r@ == dir_of(f@),
{
    let c = chars_of(f);
    let mut n = c.len();
    assert(c@.take(n as int) =~= c@);
    while n > 0 && c[n - 1] != '/'
        invariant
            n <= c.len(),
            trim_end_non_slash(c@) == trim_end_non_slash(c@.take(n as int)),
        decreases n,
    {
        assert(c@.take(n as int).drop_last() =~= c@.take(n - 1));
        n -= 1;
    }
    let m0 = n;
    assert(trim_end_non_slash(c@) == c@.take(m0 as int));
    while n > 0 && c[n - 1] == '/'
        invariant
            n <= m0 <= c.len(),
            trim_end_slash(c@.take(m0 as int)) == trim_end_slash(c@.take(n as int)),
        decreases n,
    {
        assert(c@.take(n as int).drop_last() =~= c@.take(n - 1));
        n -= 1;
    }
    slice_chars(&c, 0, n)
}

fn trim_suffix_all_exec(s: &str, suffix: &str) -> (r: Vec<char>)
    ensures
        r@ == trim_suffix_all(s@, suffix@),
{
    let c = chars_of(s);
    let suf = chars_of(suffix);
    let mut n = c.len();
    assert(c@.take(n as int) =~= c@);
    if suf.len() == 0 {
        return c;
    }
    loop
        invariant
            n <= c.len(),
            suf@ == suffix@,
            suf.len() > 0,
            trim_suffix_all(c@, suf@) == trim_suffix_all(c@.take(n as int), suf@),
            c@ == s@,
        decreases n,
    {
        let ghost t = c@.take(n as int);
        if n < suf.len() {
            assert(!ends_with(t, suf@));
            return slice_chars(&c, 0, n);
        }
        let off = n - suf.len();
        let mut i: usize = 0;
        let mut same = true;
        while i < suf.len()
            invariant
                i <= suf.len(),
                off + suf.len() == n,
                n <= c.len(),
                same == forall|j: int| 0 <= j < i ==> c@[off + j] == suf@[j],
            decreases suf.len() - i,
        {
            if c[off + i] != suf[i] {
                same = false;
            }
            i += 1;
        }
        if !same {
            assert(!ends_with(t, suf@)) by {
                if ends_with(t, suf@) {
                    assert forall|j: int| 0 <= j < suf.len() implies c@[off + j] == suf@[j] by {
                        assert(t.skip(t.len() - suf@.len())[j] == suf@[j]);
                    }
                }
            }
            return slice_chars(&c, 0, n);
        }
        assert(t.skip(t.len() - suf@.len()) =~= suf@);
        assert(t.take(t.len() - suf@.len()) =~= c@.take(off as int));
        n = off;
    }
}

/// Whether `dir` is the directory of one of the changed files.
fn dir_changed(dirs: &Vec<Vec<char>>, dir: &Vec<char>, Ghost(changed): Ghost<Seq<Seq<char>>>) -> (r: bool)
    requires
        dirs@.len() == changed.len(),
        forall|i: int| 0 <= i < changed.len() ==> dirs@[i]@ == dir_of(#[trigger] changed[i]),
    ensures
        r == exists|i: int| 0 <= i < changed.len() && dir_of(changed[i]) == dir@,
{
    let mut i: usize = 0;
    while i < dirs.len()
        invariant
            i <= dirs.len(),
            dirs@.len() == changed.len(),
            forall|i: int| 0 <= i < changed.len() ==> dirs@[i]@ == dir_of(#[trigger] changed[i]),
            forall|j: int| 0 <= j < i ==> dir_of(#[trigger] changed[j]) != dir@,
        decreases dirs.len() - i,
    {
        if chars_eq(&dirs[i], dir) {
            assert(dir_of(changed[i as int]) == dir@);
            return true;
        }
        i += 1;
    }
    false
}

fn push_entry(out: &mut Vec<BuildEntry>, pkg: String, arch: String, labels: Defs)
    ensures
        entries_view(*final(out)) == entries_view(*old(out)).push((pkg@, arch@, labels.view())),
{
    let ghost before = entries_view(*out);
    let ghost e = (pkg@, arch@, labels.view());
    out.push(BuildEntry { pkg, arch, labels });
    assert(entries_view(*out) =~= before.push(e));
}

/// The build matrix for the projects of a manifest, given the files that
/// changed and the suffix that project names carry beyond their directory.
pub fn fetch_build_entries(changed_files: &Vec<String>, strip_suffix: Option<String>, projects: &Vec<ProjectEntry>) -> (r: Vec<BuildEntry>)
    ensures
        entries_view(r) == build_entries(
            strings_view(*changed_files),
            match strip_suffix { Some(s) => s@, None => seq![] },
            projects@.map_values(|p: ProjectEntry| project_view(p)),
        ),
{
    let ghost changed = strings_view(*changed_files);
    let ghost pv = projects@.map_values(|p: ProjectEntry| project_view(p));
    let suffix = match strip_suffix { Some(s) => s, None => String::new() };
    let mut dirs: Vec<Vec<char>> = Vec::new();
    let mut k: usize = 0;
    while k < changed_files.len()
        invariant
            k <= changed_files.len(),
            changed == strings_view(*changed_files),
            dirs@.len() == k,
            forall|i: int| 0 <= i < k ==> dirs@[i]@ == dir_of(#[trigger] changed[i]),
        decreases changed_files.len() - k,
    {
        dirs.push(dir_of_exec(changed_files[k].as_str()));
        k += 1;
    }
    let mut out: Vec<BuildEntry> = Vec::new();
    let mut i: usize = 0;
    assert(entries_view(out) =~= Seq::<EntryView>::empty());
    while i < projects.len()
        invariant
            i <= projects.len(),
            changed == strings_view(*changed_files),
            pv == projects@.map_values(|p: ProjectEntry| project_view(p)),
            dirs@.len() == changed.len(),
            forall|j: int| 0 <= j < changed.len() ==> dirs@[j]@ == dir_of(#[trigger] changed[j]),
            entries_view(out) == build_entries(changed, suffix@, pv.take(i as int)),
        decreases projects.len() - i,
    {
        let p = &projects[i];
        assert(pv.take(i + 1).drop_last() =~= pv.take(i as int));
        assert(pv.take(i + 1).last() == project_view(*p));
        let dir = trim_suffix_all_exec(p.name.as_str(), suffix.as_str());
        if dir_changed(&dirs, &dir, Ghost(changed)) {
            let ghost before = entries_view(out);
            let scm = match p.rpm_enable_scm {
                Some(Some(b)) => b,
                _ => false,
            };
            if scm {
                push_entry(&mut out, p.name.clone(), "x86_64".to_owned(), p.labels.copy());
                push_entry(&mut out, String::new(), "aarch64".to_owned(), p.labels.copy());
                assert(entries_view(out) =~= before + project_entries(p.name@, p.rpm_enable_scm, project_view(*p).2, p.labels.view()));
            } else {
                let arches: Vec<String> = match &p.arches {
                    Some(a) => a.clone(),
                    None => {
                        let mut d: Vec<String> = Vec::new();
                        d.push("x86_64".to_owned());
                        d.push("aarch64".to_owned());
                        d
                    },
                };
                let ghost av = match project_view(*p).2 { Some(a) => a, None => default_arches() };
                assert(strings_view(arches) =~= av);
                let mut j: usize = 0;
                while j < arches.len()
                    invariant
                        j <= arches.len(),
                        strings_view(arches) == av,
                        entries_view(out) == before + Seq::new(j as nat, |m: int| (p.name@, av[m], p.labels.view())),
                    decreases arches.len() - j,
                {
                    let ghost prev = entries_view(out);
                    push_entry(&mut out, p.name.clone(), arches[j].clone(), p.labels.copy());
                    assert(Seq::new((j + 1) as nat, |m: int| (p.name@, av[m], p.labels.view()))
                        =~= Seq::new(j as nat, |m: int| (p.name@, av[m], p.labels.view())).push((p.name@, av[j as int], p.labels.view())));
                    j += 1;
                }
                assert(entries_view(out) =~= before + project_entries(p.name@, p.rpm_enable_scm, project_view(*p).2, p.labels.view()));
            }
        }
        i += 1;
    }
    assert(pv.take(projects.len() as int) =~= pv);
    out
}

} // verus!
