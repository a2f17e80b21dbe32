//! The RPM build backends (Mock and plain rpmbuild): their options and the
//! command lines they run.
use crate::build::args::{
    ends_with, ends_with_exec, flag_pairs, macro_args, opt_pair, push_arg, push_macros, push_opt,
    push_pairs, push_string, lemma_flag_pairs_within, passes, lemma_flag_pairs_elem,
    lemma_macro_args_elem,
};
use crate::build::defs::{sorted_insert, Defs};
use crate::text::{append_chars, chars_of, extend_strings, opt_view, string_of, strings_view};
use vstd::prelude::*;

verus! {

/// The options of an RPM build.
pub struct RPMOptions {
    /// Mock config, only used if backend is mock
    pub mock_config: Option<String>,
    /// With flags
    pub with: Vec<String>,
    /// Without flags
    pub without: Vec<String>,
    /// Build target, used for cross-compile
    pub target: Option<String>,
    /// Path to sources
    pub sources: String,
    /// Output directory
    pub resultdir: String,
    /// Extra repos; only used if backend is mock
    pub extra_repos: Option<Vec<String>>,
    /// Do not use mirrors; only used if backend is mock
    pub no_mirror: bool,
    /// Custom RPM macros to define
    pub macros: Defs,
    /// Config options for Mock
    pub config_opts: Vec<String>,
    /// Enable SCM support
    pub scm_enable: bool,
    /// SCM Options (mock)
    pub scm_opts: Vec<String>,
    /// Plugin Options (mock)
    pub plugin_opts: Vec<String>,
}

impl Default for RPMOptions {
    fn default() -> (r: RPMOptions)
        ensures
            r.mock_config is None,
            r.with@.len() == 0,
            r.without@.len() == 0,
            r.target is None,
            r.sources@ == Seq::<char>::empty(),
            r.resultdir@ == Seq::<char>::empty(),
            r.extra_repos is None,
            !r.no_mirror,
            r.macros.view().len() == 0,
            r.config_opts@.len() == 0,
            !r.scm_enable,
            r.scm_opts@.len() == 0,
            r.plugin_opts@.len() == 0,
    {
        RPMOptions {
            mock_config: None,
            with: Vec::new(),
            without: Vec::new(),
            target: None,
            sources: String::new(),
            resultdir: String::new(),
            extra_repos: None,
            no_mirror: false,
            macros: Defs::new(),
            config_opts: Vec::new(),
            scm_enable: false,
            scm_opts: Vec::new(),
            plugin_opts: Vec::new(),
        }
    }
}

/// What the options shared by all backends hold.
pub struct ExtraView {
    pub with: Seq<Seq<char>>,
    pub without: Seq<Seq<char>>,
    pub macros: Seq<(Seq<char>, Seq<char>)>,
    pub target: Option<Seq<char>>,
}

/// Options that every RPM backend takes.
pub trait RPMExtraOptions {
    /// The flags, macros and target set so far.
    spec fn extra(&self) -> ExtraView;

    /// Set target, used for cross-compile
    fn set_target(&mut self, target: Option<String>)
        ensures
            final(self).extra() == (ExtraView { target: opt_view(target), ..old(self).extra() }),
    ;

    /// Defines a macro
    fn def_macro(&mut self, name: &str, value: &str)
        ensures
            final(self).extra() == (ExtraView {
                macros: sorted_insert(old(self).extra().macros, name@, value@),
                ..old(self).extra()
            }),
    ;

    /// Adds `with` flags
    fn extend_with_flags(&mut self, flags: Vec<String>)
        ensures
            final(self).extra() == (ExtraView { with: old(self).extra().with + strings_view(flags), ..old(self).extra() }),
    ;

    /// Adds `without` flags
    fn extend_without_flags(&mut self, flags: Vec<String>)
        ensures
            final(self).extra() == (ExtraView {
                without: old(self).extra().without + strings_view(flags),
                ..old(self).extra()
            }),
    ;
}

impl RPMOptions {
    /// Options with the given Mock config, sources and output directory, and
    /// nothing else set.
    pub fn new(mock_config: Option<String>, sources: String, resultdir: String) -> (r: RPMOptions)
        ensures
            r.mock_config == mock_config,
            r.sources == sources,
            r.resultdir == resultdir,
            r.with@.len() == 0,
            r.without@.len() == 0,
            r.target is None,
            r.extra_repos is None,
            !r.no_mirror,
            r.macros.view().len() == 0,
            r.config_opts@.len() == 0,
            !r.scm_enable,
            r.scm_opts@.len() == 0,
            r.plugin_opts@.len() == 0,
    {
        RPMOptions {
            mock_config,
            with: Vec::new(),
            without: Vec::new(),
            target: None,
            sources,
            resultdir,
            extra_repos: None,
            no_mirror: false,
            macros: Defs::new(),
            config_opts: Vec::new(),
            scm_enable: false,
            scm_opts: Vec::new(),
            plugin_opts: Vec::new(),
        }
    }
}

impl RPMExtraOptions for RPMOptions {
    open spec fn extra(&self) -> ExtraView {
        ExtraView {
            with: strings_view(self.with),
            without: strings_view(self.without),
            macros: self.macros.view(),
            target: opt_view(self.target),
        }
    }

    fn set_target(&mut self, target: Option<String>) {
        self.target = target;
    }

    fn def_macro(&mut self, name: &str, value: &str) {
        self.macros.insert(name.to_owned(), value.to_owned());
    }

    fn extend_with_flags(&mut self, flags: Vec<String>) {
        extend_strings(&mut self.with, &flags);
    }

    fn extend_without_flags(&mut self, flags: Vec<String>) {
        extend_strings(&mut self.without, &flags);
    }
}

/// The RPM builders.
#[derive(Debug, Clone, Copy, PartialEq, Eq, Structural)]
pub enum RPMBuilder {
    Mock,
    Rpmbuild,
}

/// What setting up a backend leaves in the options: sources, output
/// directory, target and flags are taken, the macros and the two switches
/// stay; for Mock its own options are taken too, for rpmbuild they stay.
pub open spec fn options_left(b: RPMBuilder, o: RPMOptions, n: RPMOptions) -> bool {
    &&& n.sources@.len() == 0 && n.resultdir@.len() == 0
    &&& n.target is None && n.with@.len() == 0 && n.without@.len() == 0
    &&& n.macros.view() == o.macros.view()
    &&& n.no_mirror == o.no_mirror && n.scm_enable == o.scm_enable
    &&& if b == RPMBuilder::Mock {
        &&& n.mock_config is None && n.extra_repos is None
        &&& n.config_opts@.len() == 0 && n.scm_opts@.len() == 0 && n.plugin_opts@.len() == 0
    } else {
        &&& n.mock_config == o.mock_config && n.extra_repos == o.extra_repos
        &&& n.config_opts == o.config_opts && n.scm_opts == o.scm_opts && n.plugin_opts == o.plugin_opts
    }
}

/// `Invalid RPM builder: ` followed by the name.
pub open spec fn invalid_builder_msg(s: Seq<char>) -> Seq<char> {
    "Invalid RPM builder: "@ + s
}

impl RPMBuilder {
    /// Parses `mock` or `rpmbuild`.
    pub fn parse(s: &str) -> (r: Result<RPMBuilder, String>)
        ensures
            s@ == "mock"@ ==> r == Ok::<RPMBuilder, String>(RPMBuilder::Mock),
            s@ == "rpmbuild"@ ==> r == Ok::<RPMBuilder, String>(RPMBuilder::Rpmbuild),
            s@ != "mock"@ && s@ != "rpmbuild"@ ==> r is Err && r->Err_0@ == invalid_builder_msg(s@),
    {
        proof {
            reveal_strlit("mock");
            reveal_strlit("rpmbuild");
        }
        let c = chars_of(s);
        if crate::text::chars_eq(&c, &chars_of("mock")) {
            assert(s@ == "mock"@);
            assert(s@.len() == 4);
            assert("rpmbuild"@.len() == 8);
            Ok(RPMBuilder::Mock)
        } else if crate::text::chars_eq(&c, &chars_of("rpmbuild")) {
            assert(s@ == "rpmbuild"@);
            Ok(RPMBuilder::Rpmbuild)
        } else {
            let mut m = chars_of("Invalid RPM builder: ");
            append_chars(&mut m, &c);
            let e = string_of(&m);
            assert(e@ == invalid_builder_msg(s@));
            Err(e)
        }
    }

    /// Sets up the backend for this builder, taking from `options` what it
    /// needs (what `build` does before it runs the backend); the macros are
    /// copied and stay in the options.
    pub fn backend(&self, options: &mut RPMOptions) -> (b: Backend)
        ensures
            match b {
                Backend::Mock(m) => *self == RPMBuilder::Mock && m@ == mock_from_options(*old(options)),
                Backend::Rpmbuild(r) => *self == RPMBuilder::Rpmbuild && r@ == rpmbuild_from_options(*old(options)),
            },
            options_left(*self, *old(options), *final(options)),
    {
        let mut sources = String::new();
        std::mem::swap(&mut sources, &mut options.sources);
        let mut resultdir = String::new();
        std::mem::swap(&mut resultdir, &mut options.resultdir);
        let target = options.target.take();
        let mut with: Vec<String> = Vec::new();
        std::mem::swap(&mut with, &mut options.with);
        let mut without: Vec<String> = Vec::new();
        std::mem::swap(&mut without, &mut options.without);
        let macros = options.macros.copy();
        match self {
            RPMBuilder::Mock => {
                let mut mock = MockBackend::new(options.mock_config.take(), sources, resultdir);
                match options.extra_repos.take() {
                    Some(repos) => {
                        mock.extend_extra_repos(repos);
                    },
                    None => {},
                }
                mock.macros = macros;
                mock.target(target);
                mock.extend_with_flags(with);
                mock.extend_without_flags(without);
                let mut config_opts: Vec<String> = Vec::new();
                std::mem::swap(&mut config_opts, &mut options.config_opts);
                mock.extend_config_opts(config_opts);
                mock.no_mirror(options.no_mirror);
                mock.enable_scm(options.scm_enable);
                let mut scm_opts: Vec<String> = Vec::new();
                std::mem::swap(&mut scm_opts, &mut options.scm_opts);
                mock.extend_scm_opts(scm_opts);
                let mut plugin_opts: Vec<String> = Vec::new();
                std::mem::swap(&mut plugin_opts, &mut options.plugin_opts);
                mock.plugin_opts(plugin_opts);
                assert(mock@ == mock_from_options(*old(options)));
                Backend::Mock(mock)
            },
            RPMBuilder::Rpmbuild => {
                let mut rpmbuild = RPMBuildBackend::new(sources, resultdir);
                rpmbuild.macros = macros;
                rpmbuild.set_target(target);
                rpmbuild.extend_with_flags(with);
                rpmbuild.extend_without_flags(without);
                assert(rpmbuild@ == rpmbuild_from_options(*old(options)));
                Backend::Rpmbuild(rpmbuild)
            },
        }
    }
}

impl From<crate::build::cli::RPMBuilder> for RPMBuilder {
    fn from(builder: crate::build::cli::RPMBuilder) -> (r: RPMBuilder) {
        match builder {
            crate::build::cli::RPMBuilder::Mock => RPMBuilder::Mock,
            crate::build::cli::RPMBuilder::Rpmbuild => RPMBuilder::Rpmbuild,
        }
    }
}

impl vstd::std_specs::convert::FromSpecImpl<crate::build::cli::RPMBuilder> for RPMBuilder {
    open spec fn obeys_from_spec() -> bool {
        true
    }

    open spec fn from_spec(builder: crate::build::cli::RPMBuilder) -> RPMBuilder {
        match builder {
            crate::build::cli::RPMBuilder::Mock => RPMBuilder::Mock,
            crate::build::cli::RPMBuilder::Rpmbuild => RPMBuilder::Rpmbuild,
        }
    }
}

/// A configured backend.
pub enum Backend {
    Mock(MockBackend),
    Rpmbuild(RPMBuildBackend),
}

/// What a Mock backend holds.
pub struct MockView {
    pub mock_config: Option<Seq<char>>,
    pub with: Seq<Seq<char>>,
    pub without: Seq<Seq<char>>,
    pub sources: Seq<char>,
    pub resultdir: Seq<char>,
    pub extra_repos: Seq<Seq<char>>,
    pub no_mirror: bool,
    pub macros: Seq<(Seq<char>, Seq<char>)>,
    pub config_opts: Seq<Seq<char>>,
    pub scm_enable: bool,
    pub scm_opts: Seq<Seq<char>>,
    pub plugin_opts: Seq<Seq<char>>,
    pub target: Option<Seq<char>>,
}

/// The Mock backend that a Mock build sets up from its options.
pub open spec fn mock_from_options(o: RPMOptions) -> MockView {
    MockView {
        mock_config: opt_view(o.mock_config),
        with: strings_view(o.with),
        without: strings_view(o.without),
        sources: o.sources@,
        resultdir: o.resultdir@,
        extra_repos: match o.extra_repos {
            Some(r) => strings_view(r),
            None => seq![],
        },
        no_mirror: o.no_mirror,
        macros: o.macros.view(),
        config_opts: strings_view(o.config_opts),
        scm_enable: o.scm_enable,
        scm_opts: strings_view(o.scm_opts),
        plugin_opts: strings_view(o.plugin_opts),
        target: opt_view(o.target),
    }
}

/// An RPM spec backend that uses Mock to build RPMs
pub struct MockBackend {
    pub mock_config: Option<String>,
    pub with: Vec<String>,
    pub without: Vec<String>,
    pub sources: String,
    pub resultdir: String,
    pub extra_repos: Vec<String>,
    pub no_mirror: bool,
    pub macros: Defs,
    pub config_opts: Vec<String>,
    pub scm_enable: bool,
    pub scm_opts: Vec<String>,
    pub plugin_opts: Vec<String>,
    pub target: Option<String>,
}

impl View for MockBackend {
    type V = MockView;

    open spec fn view(&self) -> MockView {
        MockView {
            mock_config: opt_view(self.mock_config),
            with: strings_view(self.with),
            without: strings_view(self.without),
            sources: self.sources@,
            resultdir: self.resultdir@,
            extra_repos: strings_view(self.extra_repos),
            no_mirror: self.no_mirror,
            macros: self.macros.view(),
            config_opts: strings_view(self.config_opts),
            scm_enable: self.scm_enable,
            scm_opts: strings_view(self.scm_opts),
            plugin_opts: strings_view(self.plugin_opts),
            target: opt_view(self.target),
        }
    }
}

/// The arguments of `mock` for a backend's settings (before the action).
pub open spec fn mock_args(m: MockView) -> Seq<Seq<char>> {
    opt_pair("-r"@, m.mock_config) + opt_pair("--target"@, m.target) + flag_pairs("-a"@, m.extra_repos)
        + flag_pairs("--with"@, m.with) + flag_pairs("--without"@, m.without) + macro_args(m.macros)
        + (if m.no_mirror { seq!["--config-opts"@, "mirrored=False"@] } else { seq![] })
        + flag_pairs("--config-opts"@, m.config_opts)
        + (if m.scm_enable { seq!["--scm-enable"@] } else { seq![] })
        + flag_pairs("--scm-option"@, m.scm_opts)
}

/// Every build condition given to Mock reaches its command line with its
/// own flag: each entry of the without-list stands right after a
/// `--without`, and each entry of the with-list right after a `--with`.
pub proof fn law_mock_bconds(m: MockView)
    ensures
        forall|j: int| 0 <= j < m.without.len() ==> passes(mock_args(m), "--without"@, #[trigger] m.without[j]),
        forall|j: int| 0 <= j < m.with.len() ==> passes(mock_args(m), "--with"@, #[trigger] m.with[j]),
{
    let a = opt_pair("-r"@, m.mock_config) + opt_pair("--target"@, m.target) + flag_pairs("-a"@, m.extra_repos);
    let rest = macro_args(m.macros)
        + (if m.no_mirror { seq!["--config-opts"@, "mirrored=False"@] } else { seq![] })
        + flag_pairs("--config-opts"@, m.config_opts)
        + (if m.scm_enable { seq!["--scm-enable"@] } else { seq![] })
        + flag_pairs("--scm-option"@, m.scm_opts);
    let w = flag_pairs("--with"@, m.with);
    let wo = flag_pairs("--without"@, m.without);
    assert(mock_args(m) =~= (a + w) + wo + rest);
    assert(mock_args(m) =~= a + w + (wo + rest));
    assert forall|j: int| 0 <= j < m.without.len() implies passes(mock_args(m), "--without"@, #[trigger] m.without[j]) by {
        lemma_flag_pairs_within(a + w, "--without"@, m.without, rest, j);
    }
    assert forall|j: int| 0 <= j < m.with.len() implies passes(mock_args(m), "--with"@, #[trigger] m.with[j]) by {
        lemma_flag_pairs_within(a, "--with"@, m.with, wo + rest, j);
    }
}

/// An argument of a flag's pairs is `--with` only where the flag is
/// `--with`, when no item is.
proof fn lemma_pairs_not_with(flag: Seq<char>, items: Seq<Seq<char>>, i: int)
    requires
        0 <= i < flag_pairs(flag, items).len(),
        flag != "--with"@,
        !items.contains("--with"@),
    ensures
        flag_pairs(flag, items)[i] != "--with"@,
{
    lemma_flag_pairs_elem(flag, items, i);
}

/// Mock is told `--with` only for the with-list: wherever `--with` stands
/// on its command line, an entry of the with-list follows it (so an entry
/// of the without-list follows a `--with` only when the with-list has it
/// too). This holds when nothing that Mock is given is itself the text
/// `--with`.
pub proof fn law_mock_with_only(m: MockView)
    requires
        m.mock_config != Some("--with"@),
        m.target != Some("--with"@),
        !m.extra_repos.contains("--with"@),
        !m.with.contains("--with"@),
        !m.without.contains("--with"@),
        !m.config_opts.contains("--with"@),
        !m.scm_opts.contains("--with"@),
    ensures
        forall|i: int| 0 <= i < mock_args(m).len() && #[trigger] mock_args(m)[i] == "--with"@
            ==> i + 1 < mock_args(m).len() && m.with.contains(mock_args(m)[i + 1]),
{
    reveal_strlit("--with");
    reveal_strlit("--without");
    reveal_strlit("-r");
    reveal_strlit("--target");
    reveal_strlit("-a");
    reveal_strlit("-D");
    reveal_strlit("--config-opts");
    reveal_strlit("mirrored=False");
    reveal_strlit("--scm-enable");
    reveal_strlit("--scm-option");
    assert("--with"@.len() == 6 && "--config-opts"@.len() == 13 && "--scm-option"@.len() == 12);
    let s1 = opt_pair("-r"@, m.mock_config);
    let s2 = opt_pair("--target"@, m.target);
    let s3 = flag_pairs("-a"@, m.extra_repos);
    let s4 = flag_pairs("--with"@, m.with);
    let s5 = flag_pairs("--without"@, m.without);
    let s6 = macro_args(m.macros);
    let s7: Seq<Seq<char>> = if m.no_mirror { seq!["--config-opts"@, "mirrored=False"@] } else { seq![] };
    let s8 = flag_pairs("--config-opts"@, m.config_opts);
    let s9: Seq<Seq<char>> = if m.scm_enable { seq!["--scm-enable"@] } else { seq![] };
    let s10 = flag_pairs("--scm-option"@, m.scm_opts);
    let args = mock_args(m);
    assert(args =~= s1 + s2 + s3 + s4 + s5 + s6 + s7 + s8 + s9 + s10);
    assert forall|i: int| 0 <= i < args.len() && #[trigger] args[i] == "--with"@
        implies i + 1 < args.len() && m.with.contains(args[i + 1]) by {
        let c2 = s1.len();
        let c3 = c2 + s2.len();
        let c4 = c3 + s3.len();
        let c5 = c4 + s4.len();
        let c6 = c5 + s5.len();
        let c7 = c6 + s6.len();
        let c8 = c7 + s7.len();
        let c9 = c8 + s8.len();
        let c10 = c9 + s9.len();
        if i < c2 {
            assert(args[i] == s1[i]);
        } else if i < c3 {
            assert(args[i] == s2[i - c2]);
        } else if i < c4 {
            assert(args[i] == s3[i - c3]);
            lemma_pairs_not_with("-a"@, m.extra_repos, i - c3);
        } else if i < c5 {
            assert(args[i] == s4[i - c4]);
            lemma_flag_pairs_elem("--with"@, m.with, i - c4);
            assert(args[i + 1] == s4[i + 1 - c4]);
        } else if i < c6 {
            assert(args[i] == s5[i - c5]);
            lemma_pairs_not_with("--without"@, m.without, i - c5);
        } else if i < c7 {
            assert(args[i] == s6[i - c6]);
            lemma_macro_args_elem(m.macros, i - c6);
        } else if i < c8 {
            assert(args[i] == s7[i - c7]);
        } else if i < c9 {
            assert(args[i] == s8[i - c8]);
            lemma_pairs_not_with("--config-opts"@, m.config_opts, i - c8);
        } else if i < c10 {
            assert(args[i] == s9[i - c9]);
        } else {
            assert(args[i] == s10[i - c10]);
            lemma_pairs_not_with("--scm-option"@, m.scm_opts, i - c10);
        }
    }
}

impl RPMExtraOptions for MockBackend {
    open spec fn extra(&self) -> ExtraView {
        ExtraView { with: self@.with, without: self@.without, macros: self@.macros, target: self@.target }
    }

    fn set_target(&mut self, target: Option<String>)
        ensures
            final(self)@ == (MockView { target: opt_view(target), ..old(self)@ }),
    {
        self.target = target;
    }

    fn def_macro(&mut self, name: &str, value: &str)
        ensures
            final(self)@ == (MockView { macros: sorted_insert(old(self)@.macros, name@, value@), ..old(self)@ }),
    {
        self.macros.insert(name.to_owned(), value.to_owned());
    }

    fn extend_with_flags(&mut self, flags: Vec<String>)
        ensures
            final(self)@ == (MockView { with: old(self)@.with + strings_view(flags), ..old(self)@ }),
    {
        extend_strings(&mut self.with, &flags);
    }

    fn extend_without_flags(&mut self, flags: Vec<String>)
        ensures
            final(self)@ == (MockView { without: old(self)@.without + strings_view(flags), ..old(self)@ }),
    {
        extend_strings(&mut self.without, &flags);
    }
}

impl MockBackend {
    /// A backend with the given config, sources and output directory, and
    /// nothing else set.
    pub fn new(mock_config: Option<String>, sources: String, resultdir: String) -> (m: MockBackend)
        ensures
            m@ == (MockView {
                mock_config: opt_view(mock_config),
                with: seq![],
                without: seq![],
                sources: sources@,
                resultdir: resultdir@,
                extra_repos: seq![],
                no_mirror: false,
                macros: seq![],
                config_opts: seq![],
                scm_enable: false,
                scm_opts: seq![],
                plugin_opts: seq![],
                target: None,
            }),
    {
        let m = MockBackend {
            mock_config,
            with: Vec::new(),
            without: Vec::new(),
            sources,
            resultdir,
            extra_repos: Vec::new(),
            no_mirror: false,
            macros: Defs::new(),
            config_opts: Vec::new(),
            scm_enable: false,
            scm_opts: Vec::new(),
            plugin_opts: Vec::new(),
            target: None,
        };
        assert(strings_view(m.with) =~= Seq::<Seq<char>>::empty());
        assert(strings_view(m.without) =~= Seq::<Seq<char>>::empty());
        assert(strings_view(m.extra_repos) =~= Seq::<Seq<char>>::empty());
        assert(strings_view(m.config_opts) =~= Seq::<Seq<char>>::empty());
        assert(strings_view(m.scm_opts) =~= Seq::<Seq<char>>::empty());
        assert(strings_view(m.plugin_opts) =~= Seq::<Seq<char>>::empty());
        m
    }

    /// Adds Mock config options.
    pub fn extend_config_opts(&mut self, opts: Vec<String>)
        ensures
            final(self)@ == (MockView { config_opts: old(self)@.config_opts + strings_view(opts), ..old(self)@ }),
    {
        extend_strings(&mut self.config_opts, &opts);
    }

    /// Adds an extra repository.
    pub fn add_extra_repo(&mut self, repo: String)
        ensures
            final(self)@ == (MockView { extra_repos: old(self)@.extra_repos.push(repo@), ..old(self)@ }),
    {
        let ghost before = strings_view(self.extra_repos);
        let ghost r = repo@;
        self.extra_repos.push(repo);
        assert(strings_view(self.extra_repos) =~= before.push(r));
    }

    /// Adds extra repositories, in order.
    pub fn extend_extra_repos(&mut self, repos: Vec<String>)
        ensures
            final(self)@ == (MockView { extra_repos: old(self)@.extra_repos + strings_view(repos), ..old(self)@ }),
    {
        extend_strings(&mut self.extra_repos, &repos);
    }

    /// Sets whether mirrors are turned off.
    pub fn no_mirror(&mut self, no_mirror: bool)
        ensures
            final(self)@ == (MockView { no_mirror: no_mirror, ..old(self)@ }),
    {
        self.no_mirror = no_mirror;
    }

    /// Sets whether SCM support is on.
    pub fn enable_scm(&mut self, enable: bool)
        ensures
            final(self)@ == (MockView { scm_enable: enable, ..old(self)@ }),
    {
        self.scm_enable = enable;
    }

    /// Adds SCM options.
    pub fn extend_scm_opts(&mut self, opts: Vec<String>)
        ensures
            final(self)@ == (MockView { scm_opts: old(self)@.scm_opts + strings_view(opts), ..old(self)@ }),
    {
        extend_strings(&mut self.scm_opts, &opts);
    }

    /// Adds plugin options.
    pub fn plugin_opts(&mut self, opts: Vec<String>)
        ensures
            final(self)@ == (MockView { plugin_opts: old(self)@.plugin_opts + strings_view(opts), ..old(self)@ }),
    {
        extend_strings(&mut self.plugin_opts, &opts);
    }

    /// Sets the build target.
    pub fn target(&mut self, target: Option<String>)
        ensures
            final(self)@ == (MockView { target: opt_view(target), ..old(self)@ }),
    {
        self.target = target;
    }

    /// The arguments of `mock` for these settings.
    pub fn mock(&self) -> (r: Vec<String>)
        ensures
            strings_view(r) == mock_args(self@),
    {
        let mut out: Vec<String> = Vec::new();
        assert(strings_view(out) =~= Seq::<Seq<char>>::empty());
        push_opt(&mut out, "-r", &self.mock_config);
        push_opt(&mut out, "--target", &self.target);
        push_pairs(&mut out, "-a", &self.extra_repos);
        push_pairs(&mut out, "--with", &self.with);
        push_pairs(&mut out, "--without", &self.without);
        push_macros(&mut out, &self.macros);
        let ghost mid = strings_view(out);
        if self.no_mirror {
            push_arg(&mut out, "--config-opts");
            push_arg(&mut out, "mirrored=False");
            assert(strings_view(out) =~= mid + seq!["--config-opts"@, "mirrored=False"@]);
        } else {
            assert(strings_view(out) =~= mid + Seq::<Seq<char>>::empty());
        }
        push_pairs(&mut out, "--config-opts", &self.config_opts);
        let ghost mid2 = strings_view(out);
        if self.scm_enable {
            push_arg(&mut out, "--scm-enable");
            assert(strings_view(out) =~= mid2 + seq!["--scm-enable"@]);
        } else {
            assert(strings_view(out) =~= mid2 + Seq::<Seq<char>>::empty());
        }
        push_pairs(&mut out, "--scm-option", &self.scm_opts);
        assert(strings_view(out) =~= mock_args(self@));
        out
    }

    /// The arguments of `mock` that build a source RPM from `spec` into
    /// `resultdir`.
    pub fn srpm_args(&self, spec: &str, resultdir: &str) -> (r: Vec<String>)
        ensures
            strings_view(r) == mock_args(self@) + seq!["--buildsrpm"@, "--spec"@, spec@, "--sources"@, self@.sources,
                "--resultdir"@, resultdir@, "--enable-network"@],
    {
        let mut out = self.mock();
        let ghost m = strings_view(out);
        push_arg(&mut out, "--buildsrpm");
        push_arg(&mut out, "--spec");
        push_arg(&mut out, spec);
        push_arg(&mut out, "--sources");
        push_string(&mut out, self.sources.clone());
        push_arg(&mut out, "--resultdir");
        push_arg(&mut out, resultdir);
        push_arg(&mut out, "--enable-network");
        assert(strings_view(out) =~= m + seq!["--buildsrpm"@, "--spec"@, spec@, "--sources"@, self@.sources,
            "--resultdir"@, resultdir@, "--enable-network"@]);
        out
    }

    /// The arguments of `mock` that rebuild the source RPM `srpm` into
    /// `resultdir`.
    pub fn rpm_args(&self, srpm: &str, resultdir: &str) -> (r: Vec<String>)
        ensures
            strings_view(r) == mock_args(self@) + seq!["--rebuild"@, srpm@, "--enable-network"@, "--resultdir"@, resultdir@],
    {
        let mut out = self.mock();
        let ghost m = strings_view(out);
        push_arg(&mut out, "--rebuild");
        push_arg(&mut out, srpm);
        push_arg(&mut out, "--enable-network");
        push_arg(&mut out, "--resultdir");
        push_arg(&mut out, resultdir);
        assert(strings_view(out) =~= m + seq!["--rebuild"@, srpm@, "--enable-network"@, "--resultdir"@, resultdir@]);
        out
    }
}

/// What an rpmbuild backend holds.
pub struct RPMBuildView {
    pub sources: Seq<char>,
    pub resultdir: Seq<char>,
    pub with: Seq<Seq<char>>,
    pub without: Seq<Seq<char>>,
    pub target: Option<Seq<char>>,
    pub macros: Seq<(Seq<char>, Seq<char>)>,
}

/// The rpmbuild backend that an rpmbuild build sets up from its options.
pub open spec fn rpmbuild_from_options(o: RPMOptions) -> RPMBuildView {
    RPMBuildView {
        sources: o.sources@,
        resultdir: o.resultdir@,
        with: strings_view(o.with),
        without: strings_view(o.without),
        target: opt_view(o.target),
        macros: o.macros.view(),
    }
}

/// Pure rpmbuild backend for building inside host
pub struct RPMBuildBackend {
    pub sources: String,
    pub resultdir: String,
    pub with: Vec<String>,
    pub without: Vec<String>,
    pub target: Option<String>,
    pub macros: Defs,
}

impl View for RPMBuildBackend {
    type V = RPMBuildView;

    open spec fn view(&self) -> RPMBuildView {
        RPMBuildView {
            sources: self.sources@,
            resultdir: self.resultdir@,
            with: strings_view(self.with),
            without: strings_view(self.without),
            target: opt_view(self.target),
            macros: self.macros.view(),
        }
    }
}

/// The arguments of `rpmbuild` for a backend's settings (before the
/// action); the target is not passed.
pub open spec fn rpmbuild_args(r: RPMBuildView) -> Seq<Seq<char>> {
    flag_pairs("--with"@, r.with) + flag_pairs("--without"@, r.without) + macro_args(r.macros)
}

/// The same holds of a plain `rpmbuild` command line: each entry of the
/// without-list follows a `--without`, each of the with-list a `--with`.
pub proof fn law_rpmbuild_bconds(r: RPMBuildView)
    ensures
        forall|j: int| 0 <= j < r.without.len() ==> passes(rpmbuild_args(r), "--without"@, #[trigger] r.without[j]),
        forall|j: int| 0 <= j < r.with.len() ==> passes(rpmbuild_args(r), "--with"@, #[trigger] r.with[j]),
{
    let w = flag_pairs("--with"@, r.with);
    let wo = flag_pairs("--without"@, r.without);
    let rest = macro_args(r.macros);
    assert(rpmbuild_args(r) =~= Seq::<Seq<char>>::empty() + w + (wo + rest));
    assert(rpmbuild_args(r) =~= w + wo + rest);
    assert forall|j: int| 0 <= j < r.without.len() implies passes(rpmbuild_args(r), "--without"@, #[trigger] r.without[j]) by {
        lemma_flag_pairs_within(w, "--without"@, r.without, rest, j);
    }
    assert forall|j: int| 0 <= j < r.with.len() implies passes(rpmbuild_args(r), "--with"@, #[trigger] r.with[j]) by {
        lemma_flag_pairs_within(Seq::<Seq<char>>::empty(), "--with"@, r.with, wo + rest, j);
    }
}

/// `--define` with `name value`.
pub open spec fn define_pair(name: Seq<char>, value: Seq<char>) -> Seq<Seq<char>> {
    seq!["--define"@, name + seq![' '] + value]
}

fn push_define(out: &mut Vec<String>, name: &str, value: &str)
    ensures
        strings_view(*final(out)) == strings_view(*old(out)) + define_pair(name@, value@),
{
    let ghost before = strings_view(*out);
    push_arg(out, "--define");
    let mut v = chars_of(name);
    v.push(' ');
    append_chars(&mut v, &chars_of(value));
    assert(v@ =~= name@ + seq![' '] + value@);
    push_string(out, string_of(&v));
    assert(strings_view(*out) =~= before + define_pair(name@, value@));
}

impl RPMExtraOptions for RPMBuildBackend {
    open spec fn extra(&self) -> ExtraView {
        ExtraView { with: self@.with, without: self@.without, macros: self@.macros, target: self@.target }
    }

    fn set_target(&mut self, target: Option<String>)
        ensures
            final(self)@ == (RPMBuildView { target: opt_view(target), ..old(self)@ }),
    {
        self.target = target;
    }

    fn def_macro(&mut self, name: &str, value: &str)
        ensures
            final(self)@ == (RPMBuildView { macros: sorted_insert(old(self)@.macros, name@, value@), ..old(self)@ }),
    {
        self.macros.insert(name.to_owned(), value.to_owned());
    }

    fn extend_with_flags(&mut self, flags: Vec<String>)
        ensures
            final(self)@ == (RPMBuildView { with: old(self)@.with + strings_view(flags), ..old(self)@ }),
    {
        extend_strings(&mut self.with, &flags);
    }

    fn extend_without_flags(&mut self, flags: Vec<String>)
        ensures
            final(self)@ == (RPMBuildView { without: old(self)@.without + strings_view(flags), ..old(self)@ }),
    {
        extend_strings(&mut self.without, &flags);
    }
}

impl RPMBuildBackend {
    /// A backend with the given sources and output directory, and nothing
    /// else set.
    pub fn new(sources: String, resultdir: String) -> (r: RPMBuildBackend)
        ensures
            r@ == (RPMBuildView {
                sources: sources@,
                resultdir: resultdir@,
                with: seq![],
                without: seq![],
                target: None,
                macros: seq![],
            }),
    {
        let r = RPMBuildBackend {
            sources,
            resultdir,
            with: Vec::new(),
            without: Vec::new(),
            macros: Defs::new(),
            target: None,
        };
        assert(strings_view(r.with) =~= Seq::<Seq<char>>::empty());
        assert(strings_view(r.without) =~= Seq::<Seq<char>>::empty());
        r
    }

    /// The arguments of `rpmbuild` for these settings.
    pub fn rpmbuild(&self) -> (r: Vec<String>)
        ensures
            strings_view(r) == rpmbuild_args(self@),
    {
        let mut out: Vec<String> = Vec::new();
        assert(strings_view(out) =~= Seq::<Seq<char>>::empty());
        push_pairs(&mut out, "--with", &self.with);
        push_pairs(&mut out, "--without", &self.without);
        push_macros(&mut out, &self.macros);
        assert(strings_view(out) =~= rpmbuild_args(self@));
        out
    }

    /// The arguments of `rpmbuild` that build a source RPM from `spec`,
    /// with the sources in `sourcedir` and the result in `outdir`.
    pub fn srpm_args(&self, spec: &str, sourcedir: &str, outdir: &str) -> (r: Vec<String>)
        ensures
            strings_view(r) == rpmbuild_args(self@) + seq!["-br"@, spec@] + define_pair("_sourcedir"@, sourcedir@)
                + define_pair("_srcrpmdir"@, outdir@),
    {
        let mut out = self.rpmbuild();
        let ghost m = strings_view(out);
        push_arg(&mut out, "-br");
        push_arg(&mut out, spec);
        push_define(&mut out, "_sourcedir", sourcedir);
        push_define(&mut out, "_srcrpmdir", outdir);
        assert(strings_view(out) =~= m + seq!["-br"@, spec@] + define_pair("_sourcedir"@, sourcedir@)
            + define_pair("_srcrpmdir"@, outdir@));
        out
    }

    /// The arguments of `rpmbuild` that build binary RPMs from `spec`.
    pub fn rpm_args(&self, spec: &str, sourcedir: &str, outdir: &str) -> (r: Vec<String>)
        ensures
            strings_view(r) == rpmbuild_args(self@) + seq!["-bb"@, spec@] + define_pair("_sourcedir"@, sourcedir@)
                + define_pair("_rpmdir"@, outdir@),
    {
        let mut out = self.rpmbuild();
        let ghost m = strings_view(out);
        push_arg(&mut out, "-bb");
        push_arg(&mut out, spec);
        push_define(&mut out, "_sourcedir", sourcedir);
        push_define(&mut out, "_rpmdir", outdir);
        assert(strings_view(out) =~= m + seq!["-bb"@, spec@] + define_pair("_sourcedir"@, sourcedir@)
            + define_pair("_rpmdir"@, outdir@));
        out
    }

    /// The arguments of `rpmbuild` that build source and binary RPMs from
    /// `spec` in one go.
    pub fn build_args(&self, spec: &str, sourcedir: &str, outdir: &str) -> (r: Vec<String>)
        ensures
            strings_view(r) == rpmbuild_args(self@) + seq!["-ba"@, spec@] + define_pair("_sourcedir"@, sourcedir@)
                + define_pair("_srcrpmdir"@, outdir@) + define_pair("_rpmdir"@, outdir@),
    {
        let mut out = self.rpmbuild();
        let ghost m = strings_view(out);
        push_arg(&mut out, "-ba");
        push_arg(&mut out, spec);
        push_define(&mut out, "_sourcedir", sourcedir);
        push_define(&mut out, "_srcrpmdir", outdir);
        push_define(&mut out, "_rpmdir", outdir);
        assert(strings_view(out) =~= m + seq!["-ba"@, spec@] + define_pair("_sourcedir"@, sourcedir@)
            + define_pair("_srcrpmdir"@, outdir@) + define_pair("_rpmdir"@, outdir@));
        out
    }
}

/// What a file left by a build is.
#[derive(Debug, Clone, Copy, PartialEq, Eq, Structural)]
pub enum OutputKind {
    /// A source RPM (`.src.rpm`), kept under `rpm/srpm`.
    SourceRpm,
    /// A binary RPM (`.rpm`), kept under `rpm/rpms`.
    BinaryRpm,
    /// Anything else, left alone.
    Other,
}

/// Sorts a file left by a build by its name.
pub fn classify_output(file_name: &str) -> (k: OutputKind)
    ensures
        ends_with(file_name@, ".src.rpm"@) ==> k == OutputKind::SourceRpm,
        !ends_with(file_name@, ".src.rpm"@) && ends_with(file_name@, ".rpm"@) ==> k == OutputKind::BinaryRpm,
        !ends_with(file_name@, ".src.rpm"@) && !ends_with(file_name@, ".rpm"@) ==> k == OutputKind::Other,
{
    if ends_with_exec(file_name, ".src.rpm") {
        OutputKind::SourceRpm
    } else if ends_with_exec(file_name, ".rpm") {
        OutputKind::BinaryRpm
    } else {
        OutputKind::Other
    }
}

} // verus!
