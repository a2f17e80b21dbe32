use anda::rpmspec::model::{Package, RPMFileAttr, RPMSpec};
use anda::rpmspec::package::{ConfigFileMod, PkgQCond, VerifyFileMod};
use anda::rpmspec::parser::{ParserError, RPMSection, SpecFailure, SpecParser};

#[test]
fn parse_define_then_name() {
    let mut parser = SpecParser::new();
    parser.parse("%define hai bai\nName: %hai").unwrap();
    assert_eq!(parser.rpm.name, Some("bai".to_owned()));
}

#[test]
fn parse_preambles_and_lists() {
    let mut parser = SpecParser::new();
    parser
        .parse("Name: foo\nVersion: 1.0\nSource0: a.tar.gz\nSource1: b.patch\nPatch3: fix.patch\nBuildArch: noarch x86_64\nAutoReq: false\n")
        .unwrap();
    assert_eq!(parser.rpm.name, Some("foo".to_owned()));
    assert_eq!(parser.rpm.version, Some("1.0".to_owned()));
    assert_eq!(parser.rpm.sources.entries().len(), 2);
    assert_eq!(parser.rpm.sources.entries()[1], (1, "b.patch".to_owned()));
    assert_eq!(parser.rpm.patches.entries()[0], (3, "fix.patch".to_owned()));
    assert_eq!(parser.rpm.buildarch, vec!["noarch".to_owned(), "x86_64".to_owned()]);
    assert!(!parser.rpm.autoreq);
    assert!(parser.rpm.autoprov);
}

#[test]
fn parse_duplicate_preamble_fails() {
    let mut parser = SpecParser::new();
    let r = parser.parse("Name: a\nName: b\n");
    assert!(matches!(r, Err(SpecFailure::Invalid(_))));
    assert_eq!(parser.rpm.name, Some("b".to_owned()));
    assert!(parser.state.errors.is_empty());
}

#[test]
fn parse_unknown_line_fails() {
    let mut parser = SpecParser::new();
    assert!(parser.parse("this is not a preamble\n").is_err());
}

#[test]
fn parse_conditions_skip_lines() {
    let mut parser = SpecParser::new();
    parser.state.arch = "x86_64".to_owned();
    // `%%` keeps the keyword from being expanded as an (undefined) macro.
    parser.parse("%%if 1\nName: kept\n%%endif\n%%ifarch x86_64\nVersion: 2\n%%endif\n%%ifnarch x86_64\nRelease: 3\n").unwrap();
    assert_eq!(parser.rpm.name, Some("kept".to_owned()));
    assert_eq!(parser.rpm.version, Some("2".to_owned()));
    // A false condition skips every line after it.
    assert_eq!(parser.rpm.release, None);
    // An undefined macro expands to nothing, so `%if 1` reads as `1`.
    let mut plain = SpecParser::new();
    assert!(plain.parse("%if 1\n").is_err());
}

#[test]
fn conditions_need_if() {
    let mut parser = SpecParser::new();
    assert!(parser._handle_conditions("endif", "").is_err());
    assert!(parser._handle_conditions("else", "").is_err());
    assert_eq!(parser._handle_conditions("if", "00"), Ok(true));
    assert_eq!(parser.state.cond, vec![(false, false)]);
    assert_eq!(parser._handle_conditions("elif", "1"), Ok(true));
    assert_eq!(parser.state.cond, vec![(true, true)]);
    assert_eq!(parser._handle_conditions("else", ""), Ok(true));
    assert_eq!(parser.state.cond, vec![(false, true)]);
    assert_eq!(parser._handle_conditions("endif", ""), Ok(true));
    assert!(parser.state.cond.is_empty());
    assert_eq!(parser._handle_conditions("package", "x"), Ok(false));
}

#[test]
fn sections_and_subpackages() {
    let mut parser = SpecParser::new();
    parser
        .parse("Name: foo\n%%package devel\nSummary: dev files\nRequires: foo  = 1:2.0-1\n%%description devel\nDevelopment files.\n")
        .unwrap();
    assert_eq!(parser.rpm.packages.len(), 1);
    assert_eq!(parser.rpm.packages[0].0, "foo-devel");
    assert_eq!(parser.rpm.packages[0].1.summary, "dev files");
    assert_eq!(parser.rpm.packages[0].1.description, "Development files.\n");
    let req = &parser.rpm.packages[0].1.requires.none;
    assert_eq!(req.len(), 1);
    assert_eq!(req[0].name, "foo");
    assert_eq!(req[0].epoch, Some(1));
    assert_eq!(req[0].version, Some("2.0".to_owned()));
    assert_eq!(req[0].release, Some("1".to_owned()));
    assert_eq!(req[0].condition, PkgQCond::Eq);
}

#[test]
fn package_section_needs_name() {
    let mut parser = SpecParser::new();
    assert!(parser._handle_section("%package devel").is_err());
    assert!(matches!(parser.state.section, RPMSection::Global));
}

#[test]
fn files_section_args() {
    let mut parser = SpecParser::new();
    parser.rpm.name = Some("foo".to_owned());
    assert!(matches!(parser._handle_section("%files -f list.txt"), Ok(true)));
    match &parser.state.section {
        RPMSection::Files(n, f) => {
            assert_eq!(n, "");
            assert_eq!(f.as_deref(), Some("list.txt"));
        }
        other => panic!("unexpected section {other:?}"),
    }
    assert!(parser._handle_section("%files -f a -f b").is_err());
    assert!(parser._handle_section("%files -x").is_err());
}

#[test]
fn files_body_and_defattr() {
    let mut parser = SpecParser::new();
    parser.parse("Name: foo\n%%package x\n%%files x\n/usr/bin/foo\n").unwrap();
    let files = &parser.rpm.packages[0].1.files;
    assert_eq!(files.raw, "/usr/bin/foo\n");
    assert_eq!(files.files.len(), 1);
    assert_eq!(files.files[0].path, "/usr/bin/foo");
    assert!(matches!(files.files[0].attr, RPMFileAttr::Normal));
    let mut list = anda::rpmspec::model::RPMFiles::new();
    list.raw = "/usr/bin/foo\n%defattr(-,root,root,-)\n".to_owned();
    list.parse().unwrap();
    assert_eq!(list.files.len(), 1);
    assert!(matches!(list.files[0].attr, RPMFileAttr::Normal));
    assert_eq!(list.files[0].path, "/usr/bin/foo");
    assert_eq!(list.files[0].user, "");
    // `%defattr` lines list no file.
    list.raw = "%defattr(-,root,root,-)\n%defattr(644,root,root)\n".to_owned();
    list.parse().unwrap();
    assert!(list.files.is_empty());
    // Every body line of a `%files -f` section of the main package goes to
    // its list; the list file is taken once.
    let mut main = SpecParser::new();
    main.rpm.name = Some("foo".to_owned());
    main.parse("%%files -f list.txt\n/usr/bin/foo\n/usr/bin/bar\n").unwrap();
    assert_eq!(main.rpm.files.incl, "list.txt");
    assert_eq!(main.rpm.files.raw, "/usr/bin/foo\n/usr/bin/bar\n");
    assert_eq!(main.rpm.files.files.len(), 2);
}

#[test]
fn files_plain_and_doc() {
    let mut f = anda::rpmspec::model::RPMFiles::new();
    f.raw = "/usr/bin/foo\n%doc README.md\n".to_owned();
    assert!(f.parse().is_ok());
    assert_eq!(f.files.len(), 2);
    assert!(matches!(f.files[0].attr, RPMFileAttr::Normal));
    assert_eq!(f.files[0].path, "/usr/bin/foo");
    assert_eq!((f.files[0].mode, f.files[0].dmode), (0, 0));
    assert!(f.files[0].user.is_empty() && f.files[0].group.is_empty());
    assert!(matches!(f.files[1].attr, RPMFileAttr::Doc));
    assert_eq!(f.files[1].path, "README.md");
}

#[test]
fn files_directives() {
    let mut f = anda::rpmspec::model::RPMFiles::new();
    f.raw = "%defattr(644,root,wheel,755)\n%attr(600,-,adm) /etc/x\n%verify(not md5 size) /etc/y\n%config(noreplace) /etc/z\n%dir /var/lib/foo\n%license LICENSE\n%ghost /run/foo\n%config /etc/w\n".to_owned();
    f.parse().unwrap();
    assert_eq!(f.files.len(), 7);
    let x = &f.files[0];
    assert!(matches!(x.attr, RPMFileAttr::Normal));
    assert_eq!((x.path.as_str(), x.mode, x.user.as_str(), x.group.as_str(), x.dmode), ("/etc/x", 600, "root", "adm", 755));
    match &f.files[1].attr {
        RPMFileAttr::Verify(v) => {
            assert_eq!(v.len(), 8);
            assert!(matches!(v[0], VerifyFileMod::Owner));
            assert!(matches!(v[3], VerifyFileMod::Maj));
            assert!(matches!(v[7], VerifyFileMod::Rdev));
        }
        other => panic!("unexpected attribute {other:?}"),
    }
    assert_eq!((f.files[1].mode, f.files[1].user.as_str(), f.files[1].group.as_str()), (644, "root", "wheel"));
    assert!(matches!(f.files[2].attr, RPMFileAttr::Config(ConfigFileMod::NoReplace)));
    assert!(matches!(f.files[3].attr, RPMFileAttr::Dir));
    assert_eq!(f.files[3].path, "/var/lib/foo");
    assert!(matches!(f.files[4].attr, RPMFileAttr::License));
    assert!(matches!(f.files[5].attr, RPMFileAttr::GhostFile));
    assert!(matches!(f.files[6].attr, RPMFileAttr::Config(ConfigFileMod::Plain)));
}

#[test]
fn files_bad_lines_fail() {
    let mut f = anda::rpmspec::model::RPMFiles::new();
    f.raw = "/a\n".to_owned();
    f.parse().unwrap();
    for bad in ["%bogus /x\n", "%config(bad) /x\n", "%verify(foo) /x\n", "%attr(6x,-,-) /x\n", "%defattr(-,root)\n"] {
        f.raw = bad.to_owned();
        assert!(f.parse().is_err(), "{bad}");
        assert_eq!(f.files.len(), 1);
        assert_eq!(f.files[0].path, "/a");
    }
}

#[test]
fn changelog_entries() {
    let mut parser = SpecParser::new();
    parser
        .parse("%%changelog x\n* Wed Jan 11 2006 madomado <madonuko@outlook.com> - 1.11.0\n- messages here\n")
        .unwrap();
    let cl = &parser.rpm.changelog.changelogs;
    assert_eq!(cl.len(), 1);
    assert_eq!(cl[0].date.year, 2006);
    assert_eq!(cl[0].date.month, 1);
    assert_eq!(cl[0].date.day, 11);
    assert_eq!(cl[0].maintainer, "madomado");
    assert_eq!(cl[0].email.as_deref(), Some("madonuko@outlook.com"));
    assert_eq!(cl[0].version.as_deref(), Some("1.11.0"));
    assert_eq!(cl[0].message, "- messages here");
}

#[test]
fn simple_query_names() {
    let mut pkgs = vec![];
    Package::add_simple_query(&mut pkgs, "anda subatomic, mock").unwrap();
    let names: Vec<&str> = pkgs.iter().map(|p| p.name.as_str()).collect();
    assert_eq!(names, vec!["anda", "subatomic", "mock"]);
    let mut bad = vec![];
    assert!(Package::add_simple_query(&mut bad, "a b@c d").is_err());
    assert_eq!(bad.len(), 1);
}

#[test]
fn versioned_query() {
    let mut pkgs = vec![];
    Package::add_query(&mut pkgs, "foo  >= 1.2-3,  bar  < 4:5-6").unwrap();
    assert_eq!(pkgs.len(), 2);
    assert_eq!(pkgs[0].name, "foo");
    assert_eq!(pkgs[0].condition, PkgQCond::Ge);
    assert_eq!(pkgs[0].version.as_deref(), Some("1.2"));
    assert_eq!(pkgs[1].name, "bar");
    assert_eq!(pkgs[1].condition, PkgQCond::Lt);
    assert_eq!(pkgs[1].epoch, Some(4));
    let mut one = vec![];
    Package::add_query(&mut one, "single").unwrap();
    assert_eq!(one.len(), 1);
    let mut big = vec![];
    assert!(Package::add_query(&mut big, "x  = 99999999999:1-1").is_err());
}

#[test]
fn parser_error_messages() {
    assert_eq!(ParserError::Duplicate(3, "Name".into()).message(), "! 3: Duplicate Preamble for Name");
    assert_eq!(ParserError::NoPreamble("Version".into()).message(), "! Preamble not found for Version");
    assert_eq!(ParserError::UnknownMacro(12, "foo".into()).message(), "! 12: Unknown Macro for foo");
    assert_eq!(ParserError::Others("bad".into()).message(), "! bad");
    assert_eq!(ParserError::UnknownModifier(1, "x".into()).description(), "Modifier not supported");
    assert_eq!(ParserError::Others("bad".into()).description(), "Parsing Error");
}

#[test]
fn dnl_lines_are_comments() {
    let mut parser = SpecParser::new();
    // The line is expanded first, and `%%` gives the `%` that the comment needs.
    parser.parse("%%dnl Name: bar\nName: foo\n").unwrap();
    assert_eq!(parser.rpm.name, Some("foo".to_owned()));
    assert!(parser.state.errors.is_empty());
    // An undefined `%dnl` expands to nothing, leaving the rest of the line.
    let mut other = SpecParser::new();
    assert!(other.parse("%dnl Name: bar\nName: foo\n").is_err());
}

#[test]
fn sections_without_arguments() {
    let mut p = SpecParser::new();
    assert!(matches!(p._handle_section("%prep"), Ok(true)));
    assert!(matches!(p.state.section, RPMSection::Prep));
    assert!(matches!(p._handle_section("%build"), Ok(true)));
    assert!(matches!(p.state.section, RPMSection::Build));
    assert!(matches!(p._handle_section("%files"), Ok(true)));
    match &p.state.section {
        RPMSection::Files(n, f) => {
            assert_eq!(n, "");
            assert!(f.is_none());
        }
        other => panic!("unexpected section {other:?}"),
    }
    assert!(matches!(p._handle_section("%if 1"), Ok(true)));
    assert!(matches!(p._handle_section("%endif"), Ok(true)));
    assert!(p.state.cond.is_empty());
    assert!(matches!(p._handle_section("%unknown"), Ok(false)));
    assert!(matches!(p._handle_section("plain text"), Ok(false)));
}

#[test]
fn subpackage_group_and_excludeos() {
    let mut p = SpecParser::new();
    p.rpm.name = Some("anda".to_owned());
    assert!(matches!(p._handle_section("%package devel"), Ok(true)));
    assert!(p.add_preamble("Group", "Development/Libraries".to_owned()).is_ok());
    let (n, sub) = &p.rpm.packages[0];
    assert_eq!(n, "anda-devel");
    assert_eq!(sub.group, Some("Development/Libraries".to_owned()));
    assert_eq!(sub.name, None);
    assert_eq!(p.rpm.group, None);
    assert!(p.state.errors.is_empty());
    assert!(p.add_preamble("Group", "Other".to_owned()).is_ok());
    assert_eq!(p.rpm.packages[0].1.group, Some("Other".to_owned()));
    assert!(matches!(p.state.errors[0], ParserError::Duplicate(_, _)));
    let mut q = SpecParser::new();
    assert!(q.add_preamble("ExcludeOS", "windows macos".to_owned()).is_ok());
    assert_eq!(q.rpm.excludeos, vec!["windows".to_owned(), "macos".to_owned()]);
    assert!(q.rpm.exclusiveos.is_empty());
    assert!(q.add_preamble("ExclusiveOS", "linux".to_owned()).is_ok());
    assert_eq!(q.rpm.exclusiveos, vec!["linux".to_owned()]);
}

#[test]
fn requires_modifiers() {
    let mut p = SpecParser::new();
    assert!(matches!(p.parse_requires("Requires(pre): foo"), Ok(true)));
    assert_eq!(p.rpm.requires.pre.len(), 1);
    assert_eq!(p.rpm.requires.pre[0].name, "foo");
    assert!(p.rpm.requires.none.is_empty());
    assert!(matches!(p.parse_requires("Requires(post, postun): bar"), Ok(true)));
    assert_eq!(p.rpm.requires.post[0].name, "bar");
    assert_eq!(p.rpm.requires.postun[0].name, "bar");
    assert!(matches!(p.parse_requires("Requires: baz"), Ok(true)));
    assert_eq!(p.rpm.requires.none[0].name, "baz");
    assert!(p.state.errors.is_empty());
    assert!(matches!(p.parse_requires("Requires(bogus): qux"), Ok(true)));
    assert!(matches!(&p.state.errors[0], ParserError::UnknownModifier(_, m) if m == "bogus"));
    assert!(matches!(p.parse_requires("Name: x"), Ok(false)));
}

#[test]
fn query_names_and_errors() {
    let mut pkgs = vec![];
    assert!(Package::add_query(&mut pkgs, "foo, bar").is_ok());
    assert_eq!(pkgs.len(), 2);
    assert_eq!(pkgs[0].name, "foo");
    assert_eq!(pkgs[1].name, "bar");
    assert!(pkgs.iter().all(|p| p.version.is_none() && p.release.is_none() && p.epoch.is_none()));
    let mut bad = vec![];
    assert!(Package::add_query(&mut bad, "foo$").is_err());
    let mut one_space = vec![];
    Package::add_query(&mut one_space, "foo >= 1.2-3 bar").unwrap();
    assert_eq!(one_space.len(), 2);
    assert_eq!(one_space[0].condition, PkgQCond::Ge);
    assert_eq!(one_space[0].release.as_deref(), Some("3"));
    assert_eq!(one_space[1].name, "bar");
    assert!(one_space[1].version.is_none());
    let mut later = vec![];
    Package::add_query(&mut later, "foo, bar = 2-1").unwrap();
    assert!(later[0].version.is_none());
    assert_eq!(later[1].version.as_deref(), Some("2"));
}

#[test]
fn new_spec_is_empty() {
    let s = RPMSpec::new();
    assert!(s.autoreqprov && s.autoreq && s.autoprov);
    assert!(s.group.is_none() && s.summary.is_none() && s.release.is_none() && s.epoch.is_none());
    assert!(s.excludeos.is_empty() && s.exclusivearch.is_empty() && s.requires.pre.is_empty());
    assert!(s.scriptlets.post.is_none() && s.changelog.changelogs.is_empty());
}

#[test]
fn verify_settings_all() {
    let all = VerifyFileMod::all();
    assert_eq!(all.len(), 10);
    assert!(matches!(all[9], VerifyFileMod::Rdev));
}

#[test]
fn false_conditions_end() {
    let mut parser = SpecParser::new();
    parser
        .parse("%%if 0\nName: skipped\n%%if 1\nVersion: 9\n%%else\nVersion: 8\n%%endif\n%%else\nName: other\n%%endif\nRelease: 3\n")
        .unwrap();
    assert_eq!(parser.rpm.name, Some("other".to_owned()));
    assert_eq!(parser.rpm.version, None);
    assert_eq!(parser.rpm.release, Some("3".to_owned()));
    assert!(parser.state.cond.is_empty());
}

#[test]
fn changelog_message_keeps_stars() {
    let mut cl = anda::rpmspec::model::Changelogs { changelogs: vec![], raw: String::new() };
    cl.raw = "\n* Wed Jan 11 2006 madomado <madonuko@outlook.com> - 1.11.0-6\n- messages here\n- *markdown magic* here\n- version and email is optional\n* Thu Jan 12 2006 other - 2\n- second\n".to_owned();
    cl.parse().unwrap();
    assert_eq!(cl.changelogs.len(), 2);
    assert_eq!(cl.changelogs[0].message, "- messages here\n- *markdown magic* here\n- version and email is optional");
    assert_eq!(cl.changelogs[0].version.as_deref(), Some("1.11.0-6"));
    assert_eq!(cl.changelogs[1].maintainer, "other");
    assert_eq!(cl.changelogs[1].message, "- second");
}

#[test]
fn files_defattr_runs_on_into_the_next_line() {
    let mut f = anda::rpmspec::model::RPMFiles::new();
    f.raw = "%defattr(640,root,wheel,-)\n/etc/a\n%dir\n/var/lib/b\n".to_owned();
    f.parse().unwrap();
    assert_eq!(f.files.len(), 2);
    assert_eq!((f.files[0].path.as_str(), f.files[0].mode, f.files[0].user.as_str()), ("/etc/a", 640, "root"));
    assert!(matches!(f.files[1].attr, RPMFileAttr::Dir));
    assert_eq!(f.files[1].path, "/var/lib/b");
    assert_eq!(f.files[1].group, "wheel");
}

#[test]
fn numbered_entries_are_ordered_and_unique() {
    let mut m = anda::rpmspec::model::NumMap::new();
    m.insert(3, "c".to_owned());
    m.insert(1, "a".to_owned());
    m.insert(3, "d".to_owned());
    m.insert(2, "b".to_owned());
    assert_eq!(m.entries(), vec![(1, "a".to_owned()), (2, "b".to_owned()), (3, "d".to_owned())]);
}
