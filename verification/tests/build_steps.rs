use anda::build::cli::{FlatpakOpts, PackageType};
use anda::build::cmdlog::{log_line, script_args};
use anda::build::defs::Defs;
use anda::build::entries::{fetch_build_entries, ProjectEntry};
use anda::build::flatpak::{FlatpakArtifact, FlatpakBuilder};
use anda::build::init::{init_entry, InitEntry};
use anda::build::oci::{pkgmgr, podman_socket};
use anda::build::plan::{
    apply_project_rpm, built_message, flatpak_builder_for, join_path_exec, key_values_exec, missing_build_message,
    plan_build, prepare_rpm_build, project_not_found, script_kind, select_build, BuildSelection, BuildStep,
    ProjectParts, ProjectRpm, ScriptKind,
};
use anda::build::rpm::{classify_output, Backend, MockBackend, OutputKind, RPMBuildBackend, RPMBuilder, RPMExtraOptions, RPMOptions};

fn strs(v: &[&str]) -> Vec<String> {
    v.iter().map(|s| s.to_string()).collect()
}

fn pairs(v: &[(&str, &str)]) -> Vec<(String, String)> {
    v.iter().map(|(a, b)| (a.to_string(), b.to_string())).collect()
}

#[test]
fn package_types_parse_by_name() {
    let names = ["rpm", "docker", "podman", "flatpak", "rpm-ostree", "all"];
    let types: Vec<PackageType> = names.iter().map(|n| n.parse::<PackageType>().unwrap()).collect();
    assert_eq!(
        types,
        vec![
            PackageType::Rpm,
            PackageType::Docker,
            PackageType::Podman,
            PackageType::Flatpak,
            PackageType::RpmOstree,
            PackageType::All
        ]
    );
    for i in 0..types.len() {
        for j in 0..types.len() {
            assert_eq!(types[i] == types[j], i == j);
        }
    }
    assert_eq!("RPM".parse::<PackageType>().unwrap_err(), "Invalid package type: RPM");
}

#[test]
fn rpm_builder_parse() {
    assert_eq!(RPMBuilder::parse("mock").unwrap(), RPMBuilder::Mock);
    assert_eq!(RPMBuilder::parse("rpmbuild").unwrap(), RPMBuilder::Rpmbuild);
    assert!(RPMBuilder::parse("koji").is_err());
}

#[test]
fn defs_keep_names_sorted_and_last_value() {
    let mut d = Defs::new();
    d.insert("b".into(), "2".into());
    d.insert("a".into(), "1".into());
    d.insert("c".into(), "3".into());
    d.insert("a".into(), "4".into());
    assert_eq!(d.entries, pairs(&[("a", "4"), ("b", "2"), ("c", "3")]));
    assert_eq!(d.get("a"), Some("4".to_owned()));
    assert_eq!(d.get("b"), Some("2".to_owned()));
    assert_eq!(d.get("z"), None);
}

#[test]
fn mock_arguments() {
    let mut m = MockBackend::new(Some("fedora-40-x86_64".into()), "src".into(), "out".into());
    m.add_extra_repo("https://r".into());
    m.def_macro("dist", ".fc40");
    m.no_mirror(true);
    m.enable_scm(true);
    m.extend_scm_opts(strs(&["a=b"]));
    assert_eq!(
        m.mock(),
        strs(&[
            "-r",
            "fedora-40-x86_64",
            "-a",
            "https://r",
            "-D",
            "'dist .fc40'",
            "--config-opts",
            "mirrored=False",
            "--scm-enable",
            "--scm-option",
            "a=b"
        ])
    );
    let srpm = m.srpm_args("foo.spec", "outdir");
    assert_eq!(
        srpm[11..].to_vec(),
        strs(&["--buildsrpm", "--spec", "foo.spec", "--sources", "src", "--resultdir", "outdir", "--enable-network"])
    );
    let rpm = m.rpm_args("foo.src.rpm", "outdir");
    assert_eq!(rpm[11..].to_vec(), strs(&["--rebuild", "foo.src.rpm", "--enable-network", "--resultdir", "outdir"]));
}

#[test]
fn rpmbuild_arguments() {
    let mut r = RPMBuildBackend::new("src".into(), "out".into());
    r.def_macro("a", "1");
    r.extend_with_flags(strs(&["x"]));
    assert_eq!(r.rpmbuild(), strs(&["--with", "x", "-D", "'a 1'"]));
    assert_eq!(
        r.srpm_args("p.spec", "S", "O"),
        strs(&["--with", "x", "-D", "'a 1'", "-br", "p.spec", "--define", "_sourcedir S", "--define", "_srcrpmdir O"])
    );
    assert_eq!(
        r.build_args("p.spec", "S", "O"),
        strs(&[
            "--with",
            "x",
            "-D",
            "'a 1'",
            "-ba",
            "p.spec",
            "--define",
            "_sourcedir S",
            "--define",
            "_srcrpmdir O",
            "--define",
            "_rpmdir O"
        ])
    );
}

#[test]
fn backend_takes_the_options() {
    let mut o = RPMOptions::new(Some("cfg".into()), "src".into(), "res".into());
    o.def_macro("k", "v");
    o.extra_repos = Some(strs(&["r1"]));
    match RPMBuilder::Mock.backend(&mut o) {
        Backend::Mock(m) => {
            assert_eq!(m.mock(), strs(&["-r", "cfg", "-a", "r1", "-D", "'k v'"]));
            assert_eq!(m.sources, "src");
        }
        Backend::Rpmbuild(_) => panic!("expected mock"),
    }
    assert_eq!(o.sources, "");
    assert!(o.mock_config.is_none() && o.extra_repos.is_none());
    assert_eq!(o.macros.get("k"), Some("v".to_string()));
}

#[test]
fn outputs_are_sorted_by_name() {
    assert_eq!(classify_output("foo-1.0-1.src.rpm"), OutputKind::SourceRpm);
    assert_eq!(classify_output("foo-1.0-1.x86_64.rpm"), OutputKind::BinaryRpm);
    assert_eq!(classify_output("build.log"), OutputKind::Other);
}

#[test]
fn flatpak_arguments() {
    let mut b = FlatpakBuilder::new("out".into(), "repo".into(), "bundles".into());
    b.add_extra_source("dir".into());
    b.add_extra_source_url("https://u".into());
    b.add_extra_args("--x".into());
    assert_eq!(
        b.build_args("bd", "app.yml", "rp"),
        strs(&["bd", "app.yml", "--force-clean", "--repo", "rp", "--extra-sources", "dir", "--extra-sources-url", "https://u", "--x"])
    );
    assert_eq!(b.bundle_args("rp", "b.flatpak", "org.app"), strs(&["build-bundle", "rp", "b.flatpak", "org.app"]));
    assert_eq!(FlatpakBuilder::bundle_file_name("org.app"), "org.app.flatpak");
    assert_eq!(FlatpakArtifact::Ref("org.app".into()).describe(), "ref org.app");
    assert_eq!(FlatpakArtifact::Bundle("x.flatpak".into()).describe(), "bundle x.flatpak");
}

#[test]
fn podman_choices() {
    assert_eq!(podman_socket(None, 0), "unix:///var/run/podman/podman.sock");
    assert_eq!(podman_socket(None, 1000), "unix:///run/user/1000/podman/podman.sock");
    assert_eq!(podman_socket(Some("unix:///x".into()), 1000), "unix:///x");
    assert_eq!(pkgmgr(None), "dnf");
    assert_eq!(pkgmgr(Some("yum".into())), "yum");
}

#[test]
fn build_matrix_of_changed_projects() {
    let mut labels = Defs::new();
    labels.insert("large".into(), "1".into());
    let projects = vec![
        ProjectEntry { name: "foo".into(), rpm_enable_scm: Some(None), arches: None, labels: Defs::new() },
        ProjectEntry { name: "bar".into(), rpm_enable_scm: Some(Some(true)), arches: None, labels },
        ProjectEntry { name: "baz".into(), rpm_enable_scm: None, arches: Some(strs(&["i386"])), labels: Defs::new() },
    ];
    let changed = strs(&["foo/foo.spec", "bar/anda.hcl", "other/x"]);
    let entries = fetch_build_entries(&changed, None, &projects);
    let got: Vec<(String, String)> = entries.iter().map(|e| (e.pkg.clone(), e.arch.clone())).collect();
    assert_eq!(got, pairs(&[("foo", "x86_64"), ("foo", "aarch64"), ("bar", "x86_64"), ("", "aarch64")]));
    assert_eq!(entries[2].labels.get("large"), Some("1".to_owned()));
    let suffixed = vec![ProjectEntry {
        name: "baz-pkg".into(),
        rpm_enable_scm: None,
        arches: Some(strs(&["i386"])),
        labels: Defs::new(),
    }];
    let e = fetch_build_entries(&strs(&["baz/baz.spec"]), Some("-pkg".into()), &suffixed);
    assert_eq!(e.len(), 1);
    assert_eq!((e[0].pkg.as_str(), e[0].arch.as_str()), ("baz-pkg", "i386"));
}

#[test]
fn project_rpm_options() {
    let mut o = RPMOptions::new(None, "cwd".into(), "target".into());
    let rpm = ProjectRpm {
        sources: Some("srcdir".into()),
        extra_repos: strs(&["https://repo"]),
        enable_scm: Some(true),
        scm_opts: Some(pairs(&[("method", "git"), ("package", "foo")])),
        config: Some(pairs(&[("a", "b")])),
        plugin_opts: None,
    };
    apply_project_rpm(&mut o, &rpm, true);
    assert_eq!(o.extra_repos, Some(strs(&["https://repo"])));
    assert_eq!(o.sources, "srcdir");
    assert!(o.no_mirror);
    assert_eq!(o.macros.get("_disable_source_fetch"), Some("0".to_owned()));
    assert_eq!(o.config_opts, strs(&["external_buildrequires=True", "a=b"]));
    assert!(o.scm_enable);
    assert_eq!(o.scm_opts, strs(&["method=git", "package=foo"]));
    assert!(o.plugin_opts.is_empty());
    assert_eq!(o.resultdir, "target");
    assert_eq!(key_values_exec(&pairs(&[("x", "1")])), strs(&["x=1"]));
}

#[test]
fn rpm_build_preparation() {
    let mut o = RPMOptions::new(None, "s".into(), "r".into());
    let r = prepare_rpm_build(
        &mut o,
        Some("/w/anda-build/rpm".into()),
        Some("aarch64".into()),
        &strs(&["https://extra"]),
        &strs(&["vendor Acme Corp"]),
        Some("0123456789abcdef".into()),
        "20240102",
    );
    assert!(r.is_ok());
    assert_eq!(o.extra_repos, Some(strs(&["file:///w/anda-build/rpm", "https://extra"])));
    assert_eq!(o.target, Some("aarch64".to_owned()));
    assert_eq!(o.macros.get("vendor"), Some("Acme Corp".to_owned()));
    assert_eq!(o.macros.get("autogitversion"), Some("20240102.01234567".to_owned()));
    assert_eq!(o.macros.get("autogitcommit"), Some("0123456789abcdef".to_owned()));
    assert_eq!(o.macros.get("autogitdate"), Some("20240102".to_owned()));

    let mut o = RPMOptions::new(None, "s".into(), "r".into());
    prepare_rpm_build(&mut o, None, None, &vec![], &vec![], None, "20240102").unwrap();
    assert_eq!(o.extra_repos, None);
    assert_eq!(o.macros.get("autogitversion"), Some("20240102".to_owned()));
    assert_eq!(o.macros.get("autogitcommit"), Some("unknown".to_owned()));

    let mut o = RPMOptions::new(None, "s".into(), "r".into());
    let e = prepare_rpm_build(&mut o, None, None, &vec![], &strs(&["a 1", "broken", "c 3"]), None, "d");
    assert_eq!(e.unwrap_err(), "Invalid rpm macro: broken");
    assert_eq!(o.macros.get("a"), Some("1".to_owned()));
    assert_eq!(o.macros.get("c"), None);
    assert_eq!(o.macros.get("autogitdate"), None);
}

#[test]
fn flatpak_builder_setup() {
    let opts = FlatpakOpts {
        flatpak_extra_sources: strs(&["extra"]),
        flatpak_extra_sources_url: strs(&["https://e"]),
        flatpak_dont_delete_build_dir: false,
    };
    let b = flatpak_builder_for("anda-build", &opts);
    assert_eq!(b.output_dir, "anda-build/flatpak/build");
    assert_eq!(b.output_repo, "anda-build/flatpak/repo");
    assert_eq!(b.bundles_dir, "anda-build/flatpak/bundles");
    assert_eq!(b.extra_sources, strs(&["extra"]));
    assert_eq!(b.extra_sources_urls, strs(&["https://e"]));
    assert_eq!(b.extra_args, strs(&["--delete-build-dirs"]));
    let keep = FlatpakOpts { flatpak_dont_delete_build_dir: true, ..opts };
    assert!(flatpak_builder_for("out/", &keep).extra_args.is_empty());
    assert_eq!(flatpak_builder_for("out/", &keep).output_dir, "out/flatpak/build");
    assert_eq!(join_path_exec("", "x"), "x");
}

#[test]
fn build_plans() {
    let parts = ProjectParts { rpm: true, flatpak: false, podman: true, docker: false, scripts: true };
    assert_eq!(plan_build(PackageType::All, parts), vec![BuildStep::Rpm, BuildStep::Podman, BuildStep::Scripts]);
    assert_eq!(plan_build(PackageType::Rpm, parts), vec![BuildStep::Rpm]);
    assert_eq!(plan_build(PackageType::Flatpak, parts), vec![BuildStep::Missing(PackageType::Flatpak)]);
    assert_eq!(plan_build(PackageType::Docker, parts), vec![BuildStep::Missing(PackageType::Docker)]);
    assert_eq!(plan_build(PackageType::Podman, parts), vec![BuildStep::Podman]);
    assert_eq!(missing_build_message(PackageType::Flatpak), "No Flatpak build defined for project");
    assert_eq!(missing_build_message(PackageType::Rpm), "No RPM build defined for project");
    assert_eq!(built_message("a.rpm", PackageType::Rpm), "Built RPM: a.rpm");
    assert_eq!(built_message("img", PackageType::Podman), "Built Podman image: img");
}

#[test]
fn scripts_by_extension() {
    assert_eq!(script_kind("scripts/pre.rhai"), ScriptKind::Rhai);
    assert_eq!(script_kind("scripts/pre.sh"), ScriptKind::Shell);
    assert_eq!(script_kind("scripts/.rhai"), ScriptKind::Shell);
    assert_eq!(script_kind("rhai"), ScriptKind::Shell);
}

#[test]
fn project_selection() {
    assert!(matches!(select_build(true, None), Ok(BuildSelection::All)));
    match select_build(false, Some("foo".into())) {
        Ok(BuildSelection::Project(p)) => assert_eq!(p, "foo"),
        _ => panic!("expected the project"),
    }
    assert_eq!(select_build(false, None).unwrap_err(), "No project specified");
    assert_eq!(project_not_found("foo"), "Project not found: foo");
}

#[test]
fn init_entries() {
    assert_eq!(init_entry("pkgs/foo.spec"), InitEntry::Spec("foo".into()));
    assert_eq!(init_entry("Dockerfile"), InitEntry::Dockerfile);
    assert_eq!(init_entry("app/web.dockerfile"), InitEntry::Dockerfile);
    assert_eq!(init_entry("README.md"), InitEntry::Other);
}

#[test]
fn command_log_lines() {
    let line = log_line(&b"mock".to_vec(), &b"a\rb".to_vec());
    assert_eq!(line, "mock | a\rmock | b\n".as_bytes().to_vec());
    assert_eq!(log_line(&b"x".to_vec(), &vec![]), "x | \n".as_bytes().to_vec());
}

#[test]
fn script_invocation_quotes_arguments() {
    assert_eq!(
        script_args("mock", &strs(&["--rebuild", "my file.src.rpm", ""])),
        strs(&["-e", "-f", "/dev/null", "-q", "-c", "mock --rebuild my' file.src.rpm' ''"])
    );
    assert_eq!(script_args("true", &vec![]), strs(&["-e", "-f", "/dev/null", "-q", "-c", "true "]));
}

#[test]
fn test_entries() {
    // A manifest of three projects, of which only one lies in a changed directory.
    let projects = vec![
        ProjectEntry { name: "anda".into(), rpm_enable_scm: Some(Some(false)), arches: None, labels: Defs::new() },
        ProjectEntry { name: "tools/x".into(), rpm_enable_scm: None, arches: Some(strs(&["x86_64"])), labels: Defs::new() },
        ProjectEntry { name: "docs".into(), rpm_enable_scm: None, arches: None, labels: Defs::new() },
    ];
    let entries = fetch_build_entries(&strs(&["tools/x/x.spec", "README.md"]), None, &projects);
    assert_eq!(entries.len(), 1);
    assert_eq!((entries[0].pkg.as_str(), entries[0].arch.as_str()), ("tools/x", "x86_64"));
    assert!(fetch_build_entries(&vec![], None, &projects).is_empty());
}
