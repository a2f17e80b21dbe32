//! The parsed form of a spec file.
use crate::rpmspec::package::{ConfigFileMod, PkgQCond, VerifyFileMod};
use vstd::prelude::*;

verus! {

/// Denotes a package dependency (`Requires:`, `BuildRequires:`, ...).
#[derive(Debug)]
pub struct Package {
    /// Name of the package dependency
    pub name: String,
    /// Version (right hand side of the dependency query)
    pub version: Option<String>,
    /// Release (right hand side of the dependency query)
    pub release: Option<String>,
    /// Epoch (right hand side of the dependency query)
    pub epoch: Option<u32>,
    /// Conditional operator (middle of the dependency query)
    pub condition: PkgQCond,
}

/// What a dependency holds: name, version, release, epoch, condition.
pub type PkgView = (Seq<char>, Option<Seq<char>>, Option<Seq<char>>, Option<u32>, PkgQCond);

pub open spec fn pkg_view(p: Package) -> PkgView {
    (p.name@, crate::text::opt_view(p.version), crate::text::opt_view(p.release), p.epoch, p.condition)
}

pub open spec fn pkgs_view(v: Vec<Package>) -> Seq<PkgView> {
    v@.map_values(|p: Package| pkg_view(p))
}

impl Package {
    /// A dependency on `name`, with no version.
    pub fn new(name: String) -> (p: Package)
        ensures
            pkg_view(p) == (name@, None::<Seq<char>>, None::<Seq<char>>, None::<u32>, PkgQCond::Eq),
    {
        Package { name, version: None, release: None, epoch: None, condition: PkgQCond::Eq }
    }

    /// A copy of this dependency.
    pub fn copy(&self) -> (p: Package)
        ensures
            pkg_view(p) == pkg_view(*self),
    {
        let version = match &self.version {
            Some(v) => Some(v.clone()),
            None => None,
        };
        let release = match &self.release {
            Some(v) => Some(v.clone()),
            None => None,
        };
        Package { name: self.name.clone(), version, release, epoch: self.epoch, condition: self.condition }
    }
}

/// Copies of the dependencies, in order.
pub fn copy_pkgs(v: &Vec<Package>) -> (r: Vec<Package>)
    ensures
        pkgs_view(r) == pkgs_view(*v),
{
    let mut r: Vec<Package> = Vec::new();
    let mut i: usize = 0;
    while i < v.len()
        invariant
            i <= v.len(),
            pkgs_view(r) == pkgs_view(*v).take(i as int),
        decreases v.len() - i,
    {
        let ghost before = pkgs_view(r);
        r.push(v[i].copy());
        assert(pkgs_view(r) =~= before.push(pkg_view(v@[i as int])));
        assert(pkgs_view(*v).take(i + 1) =~= pkgs_view(*v).take(i as int).push(pkg_view(v@[i as int])));
        i += 1;
    }
    assert(pkgs_view(*v).take(v.len() as int) =~= pkgs_view(*v));
    r
}

/// Represents the `Requires:` preamble, by modifier.
#[derive(Debug)]
pub struct RPMRequires {
    /// Dependencies listed in `Requires:`.
    pub none: Vec<Package>,
    /// Dependencies listed in `Requires(pre):`.
    pub pre: Vec<Package>,
    /// Dependencies listed in `Requires(post):`.
    pub post: Vec<Package>,
    /// Dependencies listed in `Requires(preun):`.
    pub preun: Vec<Package>,
    /// Dependencies listed in `Requires(postun):`.
    pub postun: Vec<Package>,
    /// Dependencies listed in `Requires(pretrans):`.
    pub pretrans: Vec<Package>,
    /// Dependencies listed in `Requires(posttrans):`.
    pub posttrans: Vec<Package>,
    /// Dependencies listed in `Requires(verify):`.
    pub verify: Vec<Package>,
    /// Dependencies listed in `Requires(interp):`.
    pub interp: Vec<Package>,
    /// Dependencies listed in `Requires(meta):`.
    pub meta: Vec<Package>,
}

/// No dependency listed under any modifier.
pub open spec fn no_requires(r: RPMRequires) -> bool {
    r.none@.len() == 0 && r.pre@.len() == 0 && r.post@.len() == 0 && r.preun@.len() == 0
        && r.postun@.len() == 0 && r.pretrans@.len() == 0 && r.posttrans@.len() == 0
        && r.verify@.len() == 0 && r.interp@.len() == 0 && r.meta@.len() == 0
}

impl RPMRequires {
    pub fn new() -> (r: RPMRequires)
        ensures
            no_requires(r),
    {
        RPMRequires {
            none: Vec::new(),
            pre: Vec::new(),
            post: Vec::new(),
            preun: Vec::new(),
            postun: Vec::new(),
            pretrans: Vec::new(),
            posttrans: Vec::new(),
            verify: Vec::new(),
            interp: Vec::new(),
            meta: Vec::new(),
        }
    }
}

/// File derivatives used in `%files`.
#[derive(Debug)]
pub enum RPMFileAttr {
    /// Represents `%artifact`
    Artifact,
    /// Represents `%ghost`
    GhostFile,
    /// Represents `%config(...)`, see [`ConfigFileMod`]
    Config(ConfigFileMod),
    /// Represents `%dir`
    Dir,
    /// Represents `%doc`
    Doc,
    /// Represents `%license`
    License,
    /// Represents `%verify(...)`, see [`VerifyFileMod`]
    Verify(Vec<VerifyFileMod>),
    /// Represents `%docdir`
    Docdir,
    /// Represents files without file derivatives
    Normal,
}

/// Represents a file in `%files`.
#[derive(Debug)]
pub struct RPMFile {
    /// File derivative
    pub attr: RPMFileAttr,
    /// the file / dir path
    pub path: String,
    /// permission / mode
    pub mode: u16,
    /// user / owner that owns the file
    pub user: String,
    /// group that owns the file
    pub group: String,
    /// directory permission / mode
    pub dmode: u16,
}

/// Represents a `%files` section.
#[derive(Debug)]
pub struct RPMFiles {
    /// The argument of `%files -f`: a file listing more files.
    pub incl: String,
    /// Files listed in `%files`
    pub files: Vec<RPMFile>,
    /// The raw `%files` sections
    pub raw: String,
}

impl RPMFiles {
    pub fn new() -> (f: RPMFiles)
        ensures
            f.incl@.len() == 0 && f.files@.len() == 0 && f.raw@.len() == 0,
    {
        RPMFiles { incl: String::new(), files: Vec::new(), raw: String::new() }
    }
}

/// A calendar date of a changelog entry.
#[derive(Debug, Clone, Copy, PartialEq, Eq, Structural)]
pub struct ChangelogDate {
    pub year: i32,
    pub month: u32,
    pub day: u32,
}

/// Represents 1 changelog entry in `%changelog`.
#[derive(Debug)]
pub struct Changelog {
    /// Date of changelog
    pub date: ChangelogDate,
    /// Version corresponding to the changelog entry
    pub version: Option<String>,
    /// The person who created the changelog
    pub maintainer: String,
    /// Email of the maintainer
    pub email: Option<String>,
    /// Message of the changelog
    pub message: String,
}

/// Represents a `%changelog` section.
#[derive(Debug)]
pub struct Changelogs {
    /// The parsed entries
    pub changelogs: Vec<Changelog>,
    /// changelogs that are not (yet) parsed
    pub raw: String,
}

/// Scriptlets like `%pre`, `%posttrans`, etc.
#[derive(Debug)]
pub struct Scriptlets {
    pub pre: Option<String>,
    pub post: Option<String>,
    pub preun: Option<String>,
    pub postun: Option<String>,
    pub pretrans: Option<String>,
    pub posttrans: Option<String>,
    pub verify: Option<String>,
    pub triggerprein: Option<String>,
    pub triggerin: Option<String>,
    pub triggerun: Option<String>,
    pub triggerpostun: Option<String>,
    pub filetriggerin: Option<String>,
    pub filetriggerun: Option<String>,
    pub filetriggerpostun: Option<String>,
    pub transfiletriggerin: Option<String>,
    pub transfiletriggerun: Option<String>,
    pub transfiletriggerpostun: Option<String>,
}

/// No scriptlet set.
pub open spec fn no_scriptlets(s: Scriptlets) -> bool {
    &&& s.pre is None && s.post is None && s.preun is None && s.postun is None
    &&& s.pretrans is None && s.posttrans is None && s.verify is None
    &&& s.triggerprein is None && s.triggerin is None && s.triggerun is None && s.triggerpostun is None
    &&& s.filetriggerin is None && s.filetriggerun is None && s.filetriggerpostun is None
    &&& s.transfiletriggerin is None && s.transfiletriggerun is None && s.transfiletriggerpostun is None
}

impl Scriptlets {
    pub fn new() -> (s: Scriptlets)
        ensures
            no_scriptlets(s),
    {
        Scriptlets {
            pre: None,
            post: None,
            preun: None,
            postun: None,
            pretrans: None,
            posttrans: None,
            verify: None,
            triggerprein: None,
            triggerin: None,
            triggerun: None,
            triggerpostun: None,
            filetriggerin: None,
            filetriggerun: None,
            filetriggerpostun: None,
            transfiletriggerin: None,
            transfiletriggerun: None,
            transfiletriggerpostun: None,
        }
    }
}

/// Represents a subpackage (`%package ...`).
#[derive(Debug)]
pub struct RPMSpecPkg {
    /// Name of subpackage
    pub name: Option<String>,
    /// Summary of subpackage (`Summary:`)
    pub summary: String,
    /// Dependencies of subpackage listed in `Requires:`
    pub requires: RPMRequires,
    /// Description of subpackage (`%description [-n] ...`)
    pub description: String,
    /// Group of subpackage (`Group:`)
    pub group: Option<String>,
    pub provides: Vec<Package>,
    pub conflicts: Vec<Package>,
    pub obsoletes: Vec<Package>,
    pub recommends: Vec<Package>,
    pub suggests: Vec<Package>,
    pub supplements: Vec<Package>,
    pub enhances: Vec<Package>,
    /// Files in subpackage listed in `%files [-n] ...`
    pub files: RPMFiles,
    /// Scriptlets of the subpackage
    pub scriptlets: Scriptlets,
}

/// A subpackage with nothing set yet.
pub open spec fn empty_pkg(p: RPMSpecPkg) -> bool {
    &&& p.name is None && p.summary@.len() == 0 && p.description@.len() == 0 && p.group is None
    &&& p.provides@.len() == 0 && p.conflicts@.len() == 0 && p.obsoletes@.len() == 0
    &&& p.recommends@.len() == 0 && p.suggests@.len() == 0 && p.supplements@.len() == 0 && p.enhances@.len() == 0
    &&& p.files.raw@.len() == 0 && p.files.incl@.len() == 0 && p.files.files@.len() == 0
    &&& no_requires(p.requires) && no_scriptlets(p.scriptlets)
}

/// The names of the subpackages, in order.
pub open spec fn pkg_names(v: Vec<(String, RPMSpecPkg)>) -> Seq<Seq<char>> {
    v@.map_values(|e: (String, RPMSpecPkg)| e.0@)
}

impl RPMSpecPkg {
    /// A subpackage with nothing set.
    pub fn new() -> (p: RPMSpecPkg)
        ensures
            empty_pkg(p),
    {
        RPMSpecPkg {
            name: None,
            summary: String::new(),
            requires: RPMRequires::new(),
            description: String::new(),
            group: None,
            provides: Vec::new(),
            conflicts: Vec::new(),
            obsoletes: Vec::new(),
            recommends: Vec::new(),
            suggests: Vec::new(),
            supplements: Vec::new(),
            enhances: Vec::new(),
            files: RPMFiles::new(),
            scriptlets: Scriptlets::new(),
        }
    }
}

/// Numbered entries (`Source0:`, `Patch1:`, ...), as a map kept in
/// ascending order of numbers (`BTreeMap<u32, String>`): one entry per
/// number, and a later entry for a number replaces the earlier one.
#[derive(Debug)]
pub struct NumMap {
    entries: Vec<(u32, String)>,
}

/// Numbers strictly ascending: each number once, in order.
pub open spec fn ascending(s: Seq<(u32, Seq<char>)>) -> bool {
    forall|i: int, j: int| 0 <= i < j < s.len() ==> s[i].0 < s[j].0
}

/// The map that the entries give (a later entry for a number wins).
pub open spec fn pairs_map(s: Seq<(u32, Seq<char>)>) -> Map<u32, Seq<char>>
    decreases s.len(),
{
    if s.len() == 0 {
        Map::empty()
    } else {
        pairs_map(s.drop_last()).insert(s.last().0, s.last().1)
    }
}

pub open spec fn num_pairs(v: Seq<(u32, String)>) -> Seq<(u32, Seq<char>)> {
    v.map_values(|e: (u32, String)| (e.0, e.1@))
}

/// In ascending entries, each entry is in the map, and only they are.
proof fn lemma_pairs_map(s: Seq<(u32, Seq<char>)>)
    requires
        ascending(s),
    ensures
        forall|i: int| 0 <= i < s.len() ==> pairs_map(s).contains_key(#[trigger] s[i].0) && pairs_map(s)[s[i].0] == s[i].1,
        forall|x: u32| pairs_map(s).contains_key(x) ==> exists|i: int| 0 <= i < s.len() && #[trigger] s[i].0 == x,
    decreases s.len(),
{
    if s.len() > 0 {
        let t = s.drop_last();
        assert(ascending(t));
        lemma_pairs_map(t);
        assert forall|i: int| 0 <= i < s.len() implies pairs_map(s).contains_key(#[trigger] s[i].0) && pairs_map(s)[s[i].0] == s[i].1 by {
            if i < s.len() - 1 {
                assert(t[i] == s[i]);
                assert(s[i].0 < s.last().0);
            }
        }
        assert(pairs_map(s) == pairs_map(t).insert(s.last().0, s.last().1));
        assert forall|x: u32| pairs_map(s).contains_key(x) implies exists|i: int| 0 <= i < s.len() && #[trigger] s[i].0 == x by {
            if x != s.last().0 {
                assert(pairs_map(t).contains_key(x));
                let i = choose|i: int| 0 <= i < t.len() && #[trigger] t[i].0 == x;
                assert(0 <= i < t.len());
                assert(s[i] == t[i]);
            } else {
                assert(s[s.len() - 1].0 == x);
            }
        }
    }
}

impl NumMap {
    #[verifier::type_invariant]
    spec fn in_order(self) -> bool {
        ascending(num_pairs(self.entries@))
    }

    /// The entries, in ascending order of numbers.
    pub closed spec fn pairs(&self) -> Seq<(u32, Seq<char>)> {
        num_pairs(self.entries@)
    }

    pub open spec fn view(&self) -> Map<u32, Seq<char>> {
        pairs_map(self.pairs())
    }

    pub fn new() -> (m: NumMap)
        ensures
            m.view() == Map::<u32, Seq<char>>::empty(),
            m.pairs() == Seq::<(u32, Seq<char>)>::empty(),
    {
        let m = NumMap { entries: Vec::new() };
        assert(m.pairs() =~= Seq::<(u32, Seq<char>)>::empty());
        m
    }

    /// Sets entry `k` to `v`, in its place among the numbers.
    pub fn insert(&mut self, k: u32, v: String)
        ensures
            final(self).view() == old(self).view().insert(k, v@),
            ascending(final(self).pairs()),
    {
        proof { use_type_invariant(&*self); }
        let mut es: Vec<(u32, String)> = Vec::new();
        std::mem::swap(&mut es, &mut self.entries);
        let ghost s = num_pairs(es@);
        let ghost vv = v@;
        let mut i: usize = 0;
        while i < es.len() && es[i].0 < k
            invariant
                i <= es.len(),
                s == num_pairs(es@),
                ascending(s),
                forall|j: int| 0 <= j < i ==> s[j].0 < k,
            decreases es.len() - i,
        {
            i += 1;
        }
        let ghost t: Seq<(u32, Seq<char>)>;
        if i < es.len() && es[i].0 == k {
            es.set(i, (k, v));
            proof {
                t = num_pairs(es@);
                assert(t =~= s.update(i as int, (k, vv)));
                assert forall|a: int, b: int| 0 <= a < b < t.len() implies t[a].0 < t[b].0 by {
                    assert(s[a].0 < s[b].0);
                }
            }
        } else {
            es.insert(i, (k, v));
            proof {
                t = num_pairs(es@);
                assert(t =~= s.insert(i as int, (k, vv)));
                assert(i < s.len() ==> k < s[i as int].0);
                assert forall|a: int, b: int| 0 <= a < b < t.len() implies t[a].0 < t[b].0 by {
                    if b < i {
                        assert(s[a].0 < s[b].0);
                    } else if b == i {
                        assert(s[a].0 < k);
                    } else if a < i {
                        assert(s[a].0 < k);
                        assert(k < s[i as int].0);
                        if b - 1 > i {
                            assert(s[i as int].0 < s[b - 1].0);
                        }
                    } else if a == i {
                        assert(k < s[i as int].0);
                        if b - 1 > i {
                            assert(s[i as int].0 < s[b - 1].0);
                        }
                    } else {
                        assert(s[a - 1].0 < s[b - 1].0);
                    }
                }
            }
        }
        assert(ascending(t));
        proof {
            lemma_pairs_map(s);
            lemma_pairs_map(t);
            assert forall|x: u32| #[trigger] pairs_map(t).contains_key(x) == pairs_map(s).insert(k, vv).contains_key(x) by {
                if pairs_map(t).contains_key(x) && x != k {
                    let j = choose|j: int| 0 <= j < t.len() && #[trigger] t[j].0 == x;
                    if j < i {
                        assert(s[j].0 == x);
                    } else if t.len() == s.len() {
                        assert(s[j].0 == x);
                    } else {
                        assert(s[j - 1].0 == x);
                    }
                }
                if pairs_map(s).contains_key(x) && x != k {
                    let j = choose|j: int| 0 <= j < s.len() && #[trigger] s[j].0 == x;
                    if j < i || t.len() == s.len() {
                        assert(t[j].0 == x);
                    } else {
                        assert(t[j + 1].0 == x);
                    }
                }
                if x == k {
                    assert(t[i as int].0 == k);
                }
            }
            assert forall|x: u32| #[trigger] pairs_map(t).contains_key(x) implies pairs_map(t)[x] == pairs_map(s).insert(k, vv)[x] by {
                if x == k {
                    assert(t[i as int].0 == k);
                } else {
                    let j = choose|j: int| 0 <= j < t.len() && #[trigger] t[j].0 == x;
                    if j < i || t.len() == s.len() {
                        assert(s[j] == t[j]);
                    } else {
                        assert(s[j - 1] == t[j]);
                    }
                }
            }
            assert(pairs_map(t) =~= pairs_map(s).insert(k, vv));
        }
        self.entries = es;
    }

    /// Copies of the entries, in ascending order of numbers.
    pub fn entries(&self) -> (r: Vec<(u32, String)>)
        ensures
            num_pairs(r@) == self.pairs(),
            ascending(self.pairs()),
    {
        proof { use_type_invariant(self); }
        let mut r: Vec<(u32, String)> = Vec::new();
        let mut i: usize = 0;
        while i < self.entries.len()
            invariant
                i <= self.entries.len(),
                num_pairs(r@) == num_pairs(self.entries@).take(i as int),
            decreases self.entries.len() - i,
        {
            let ghost before = num_pairs(r@);
            let n = self.entries[i].0;
            let text = self.entries[i].1.clone();
            r.push((n, text));
            assert(num_pairs(r@) =~= before.push((n, text@)));
            assert(num_pairs(self.entries@).take(i + 1) =~= num_pairs(self.entries@).take(i as int).push(num_pairs(self.entries@)[i as int]));
            assert(num_pairs(r@) =~= num_pairs(self.entries@).take(i + 1));
            i += 1;
        }
        assert(num_pairs(self.entries@).take(self.entries.len() as int) =~= num_pairs(self.entries@));
        r
    }
}

/// Represents the entire spec file.
#[derive(Debug)]
pub struct RPMSpec {
    /// List of subpackages (`%package ...`), by name.
    pub packages: Vec<(String, RPMSpecPkg)>,
    /// Represents `%description`
    pub description: String,
    /// Represents `%prep`
    pub prep: String,
    /// Represents `%generate_buildrequires`
    pub generate_buildrequires: Option<String>,
    /// Represents `%conf`
    pub conf: Option<String>,
    /// Represents `%build`
    pub build: String,
    /// Represents `%install`
    pub install: String,
    /// Represents `%check`
    pub check: String,
    /// Scriptlets such as `%post` and `%pretrans`
    pub scriptlets: Scriptlets,
    /// Files listed in `%files [-f ...]`
    pub files: RPMFiles,
    /// Represents `%changelog`
    pub changelog: Changelogs,
    /// Represents `Name:`
    pub name: Option<String>,
    /// Represents `Version:`
    pub version: Option<String>,
    /// Represents `Release:`
    pub release: Option<String>,
    /// Represents `Epoch:`
    pub epoch: Option<i32>,
    /// Represents `License:`
    pub license: Option<String>,
    /// Represents `SourceLicense:`
    pub sourcelicense: Option<String>,
    /// Represents `Group:`
    pub group: Option<String>,
    /// Represents `Summary:`
    pub summary: Option<String>,
    /// Represents `Source0:`, `Source1:`, ...
    pub sources: NumMap,
    /// Represents `Patch0:`, `Patch1:`, ...
    pub patches: NumMap,
    /// Represents `URL:`
    pub url: Option<String>,
    /// Represents `BugURL:`
    pub bugurl: Option<String>,
    /// Represents `ModularityLabel:`
    pub modularitylabel: Option<String>,
    /// Represents `DistTag:`
    pub disttag: Option<String>,
    /// Represents `VCS:`
    pub vcs: Option<String>,
    /// Represents `Distribution:`
    pub distribution: Option<String>,
    /// Represents `Vendor:`
    pub vendor: Option<String>,
    /// Represents `Packager:`
    pub packager: Option<String>,
    /// Represents `AutoReqProv:`
    pub autoreqprov: bool,
    /// Represents `AutoReq:`
    pub autoreq: bool,
    /// Represents `AutoProv:`
    pub autoprov: bool,
    /// Represents `Requires:` and `Requires(...):`
    pub requires: RPMRequires,
    pub provides: Vec<Package>,
    pub conflicts: Vec<Package>,
    pub obsoletes: Vec<Package>,
    pub recommends: Vec<Package>,
    pub suggests: Vec<Package>,
    pub supplements: Vec<Package>,
    pub enhances: Vec<Package>,
    pub orderwithrequires: Vec<Package>,
    pub buildrequires: Vec<Package>,
    pub buildconflicts: Vec<Package>,
    pub excludearch: Vec<String>,
    pub exclusivearch: Vec<String>,
    pub excludeos: Vec<String>,
    pub exclusiveos: Vec<String>,
    pub buildarch: Vec<String>,
    /// Represents `Prefix:`, `Prefixes:`
    pub prefix: Option<String>,
    /// Represents `Docdir:`
    pub docdir: Option<String>,
    /// Represents `RemovePathPostFixes:`
    pub removepathpostfixes: Vec<String>,
}

/// A spec with nothing set: `autoreqprov`, `autoreq` and `autoprov` on,
/// every other field empty, `None` or false.
pub open spec fn fresh_spec(s: RPMSpec) -> bool {
    &&& s.autoreqprov && s.autoreq && s.autoprov
    &&& s.packages@.len() == 0
    &&& s.description@.len() == 0 && s.prep@.len() == 0 && s.build@.len() == 0
    &&& s.install@.len() == 0 && s.check@.len() == 0
    &&& s.generate_buildrequires is None && s.conf is None
    &&& no_scriptlets(s.scriptlets)
    &&& s.files.raw@.len() == 0 && s.files.incl@.len() == 0 && s.files.files@.len() == 0
    &&& s.changelog.raw@.len() == 0 && s.changelog.changelogs@.len() == 0
    &&& s.name is None && s.version is None && s.release is None && s.epoch is None
    &&& s.license is None && s.sourcelicense is None && s.group is None && s.summary is None
    &&& s.sources.view() == Map::<u32, Seq<char>>::empty()
    &&& s.patches.view() == Map::<u32, Seq<char>>::empty()
    &&& s.url is None && s.bugurl is None && s.modularitylabel is None && s.disttag is None
    &&& s.vcs is None && s.distribution is None && s.vendor is None && s.packager is None
    &&& no_requires(s.requires)
    &&& s.provides@.len() == 0 && s.conflicts@.len() == 0 && s.obsoletes@.len() == 0
    &&& s.recommends@.len() == 0 && s.suggests@.len() == 0 && s.supplements@.len() == 0
    &&& s.enhances@.len() == 0 && s.orderwithrequires@.len() == 0
    &&& s.buildrequires@.len() == 0 && s.buildconflicts@.len() == 0
    &&& s.excludearch@.len() == 0 && s.exclusivearch@.len() == 0
    &&& s.excludeos@.len() == 0 && s.exclusiveos@.len() == 0 && s.buildarch@.len() == 0
    &&& s.prefix is None && s.docdir is None && s.removepathpostfixes@.len() == 0
}

impl RPMSpec {
    /// Creates a new RPM spec object with good defaults: `autoreqprov`,
    /// `autoreq` and `autoprov` are on, everything else is empty.
    pub fn new() -> (s: RPMSpec)
        ensures
            fresh_spec(s),
    {
        RPMSpec {
            packages: Vec::new(),
            description: String::new(),
            prep: String::new(),
            generate_buildrequires: None,
            conf: None,
            build: String::new(),
            install: String::new(),
            check: String::new(),
            scriptlets: Scriptlets::new(),
            files: RPMFiles::new(),
            changelog: Changelogs { changelogs: Vec::new(), raw: String::new() },
            name: None,
            version: None,
            release: None,
            epoch: None,
            license: None,
            sourcelicense: None,
            group: None,
            summary: None,
            sources: NumMap::new(),
            patches: NumMap::new(),
            url: None,
            bugurl: None,
            modularitylabel: None,
            disttag: None,
            vcs: None,
            distribution: None,
            vendor: None,
            packager: None,
            autoreqprov: true,
            autoreq: true,
            autoprov: true,
            requires: RPMRequires::new(),
            provides: Vec::new(),
            conflicts: Vec::new(),
            obsoletes: Vec::new(),
            recommends: Vec::new(),
            suggests: Vec::new(),
            supplements: Vec::new(),
            enhances: Vec::new(),
            orderwithrequires: Vec::new(),
            buildrequires: Vec::new(),
            buildconflicts: Vec::new(),
            excludearch: Vec::new(),
            exclusivearch: Vec::new(),
            excludeos: Vec::new(),
            exclusiveos: Vec::new(),
            buildarch: Vec::new(),
            prefix: None,
            docdir: None,
            removepathpostfixes: Vec::new(),
        }
    }
}

} // verus!
