use anda::andax::kokoro::{find, sub};
use anda::andax::rpm::RPMSpec;
use anda::andax::tsunagu::{
    bearer, crates_url, crates_version, env_not_present, gh_tag_url, gh_tag_version, gh_url, gh_version, npm_url, npm_version,
    pypi_url, pypi_version, CrateVersion, Json, Req, USER_AGENT,
    ansible_galaxy_url, ansible_galaxy_version, codeberg_commit_url, codeberg_rawfile_url, cran_url, cran_version,
    first_key_text, forge_commit_url, forge_tag_url, forge_tag_version, forge_url, gems_url, gems_version,
    gh_commit_url, gh_rawfile_url, gitlab_commit_url, gnome_extensions_version, gitlab_commit_version, gitlab_tag_url, gitlab_url, gnome_extensions_url,
    hackage_url, hackage_version, hex_url, hex_version, key_text, sourcehut_rawfile_url, tangled_rawfile_url,
};
use anda::andax::shell::{plan_command, shell_answer, stdio_mode, CommandArg, ShellAnswer, StdioMode};
use anda::andax::traceback::{describe_error, hint, hint_text, traceback, Cause, EngineError, TbErr};
use anda::andax::{cmd_rpm, cmd_srpm, ehdl, sh_rc, sh_stderr, sh_stdout};

fn strs(v: &[&str]) -> Vec<String> {
    v.iter().map(|s| s.to_string()).collect()
}

const SPEC: &str = "Name: foo\nVersion: 1.0\nRelease: 3\nSource0: https://x/foo-1.0.tar.gz\nSource1: extra.tar.gz\n%define commit abc\n%global ver 1\n";

fn spec() -> RPMSpec {
    RPMSpec::new("foo".into(), "foo/update.rhai".into(), "foo/foo.spec".into(), SPEC.into())
}

#[test]
fn shell_result_parts() {
    let o = (2, "out".to_owned(), "err".to_owned());
    assert_eq!(sh_rc(o.clone()), 2);
    assert_eq!(sh_stdout(o.clone()), "out");
    assert_eq!(sh_stderr(o), "err");
    assert_eq!(ehdl::<u8>(Ok(3)), Ok(3));
    assert_eq!(ehdl::<u8>(Err("bad".into())), Err("bad".to_owned()));
}

#[test]
fn mock_command_lines() {
    assert_eq!(
        cmd_srpm("foo.spec", Some("src"), "\"/tmp/anda-srpm1\""),
        strs(&["mock", "--buildsrpm", "--spec", "foo.spec", "--sources", "src", "--resultdir", "\"/tmp/anda-srpm1\"", "--enable-network", "--verbose"])
    );
    assert_eq!(
        cmd_rpm("foo.spec", None, "r"),
        strs(&["mock", "--rebuild", "--spec", "foo.spec", "--sources", "", "--resultdir", "r", "--enable-network", "--verbose"])
    );
}

#[test]
fn same_version_changes_nothing() {
    let mut s = spec();
    s.version("1.0").unwrap();
    assert_eq!(s.f, SPEC);
    assert!(!s.changed);
}

#[test]
fn new_version_resets_release() {
    let mut s = spec();
    s.version("2.0").unwrap();
    assert!(s.changed);
    assert_eq!(
        s.f,
        "Name: foo\nVersion: 2.0\nRelease: 1%{?dist}Source0: https://x/foo-1.0.tar.gz\nSource1: extra.tar.gz\n%define commit abc\n%global ver 1\n"
    );
    // The release line no longer ends in a number and a newline, so a second
    // bump of the version finds no release to reset.
    assert_eq!(s.version("3.0").unwrap_err(), "No preamble in spec");
    assert!(s.f.contains("Version: 3.0\n"));
}

#[test]
fn version_and_release_missing() {
    let mut s = RPMSpec::new("x".into(), "u".into(), "s".into(), "Name: x\n".into());
    assert_eq!(s.version("1").unwrap_err(), "No version preamble in spec");
    assert_eq!(s.release("2").unwrap_err(), "No preamble in spec");
    assert_eq!(s.reset_release().unwrap_err(), "No preamble in spec");
    assert!(!s.changed);
    assert_eq!(s.f, "Name: x\n");
}

#[test]
fn release_is_set() {
    let mut s = spec();
    s.release("5").unwrap();
    assert!(s.f.contains("Release: 5%{?dist}Source0"));
    assert!(s.changed);
}

#[test]
fn define_and_global_are_set() {
    let mut s = spec();
    s.define("commit", "def").unwrap();
    assert!(s.f.contains("%define commit def\n"));
    s.global("ver", "2").unwrap();
    assert!(s.f.contains("%global ver 2\n"));
    assert!(s.changed);
    assert_eq!(s.define("nope", "x").unwrap_err(), "No `%define nope` in spec");
    assert_eq!(s.global("commit", "x").unwrap_err(), "No `%global commit` in spec");
}

#[test]
fn source_is_pointed_elsewhere() {
    let mut s = spec();
    s.source(1, "https://y/extra.tar.gz").unwrap();
    assert!(s.f.contains("Source1: https://y/extra.tar.gz\n"));
    assert!(s.f.contains("Source0: https://x/foo-1.0.tar.gz\n"));
    assert_eq!(s.source(7, "z").unwrap_err(), "No source preamble in spec");
    assert_eq!(s.source(-1, "z").unwrap_err(), "No source preamble in spec");
}

#[test]
fn text_get_and_set() {
    let mut s = spec();
    assert_eq!(s.get(), SPEC);
    s.set("Name: bar\n".into());
    assert_eq!(s.get(), "Name: bar\n");
    assert!(s.changed);
}

#[test]
fn regex_find() {
    assert_eq!(find(r"(\d+)\.(\d+)", "v1.23", 2).unwrap(), "23");
    assert_eq!(find(r"(\d+)\.(\d+)", "v1.23", 0).unwrap(), "1.23");
    assert_eq!(find(r"(\d+)\.(\d+)", "v1.23", 3).unwrap_err(), "Can't get group: (\\d+)\\.(\\d+)\nText: v1.23");
    assert_eq!(find(r"(a)|(b)", "b", 1).unwrap_err(), "Can't get group: (a)|(b)\nText: b");
    assert_eq!(find(r"(\d+)", "v1", -1).unwrap_err(), "out of range integral type conversion attempted");
    assert_eq!(find("x", "abc", 0).unwrap_err(), "Can't match regex: x\nText: abc");
    assert!(find("(", "abc", 0).unwrap_err().starts_with("regex parse error"));
}

#[test]
fn regex_sub() {
    assert_eq!(sub(r"\d", "#", "a1b2").unwrap(), "a#b#");
    assert_eq!(sub(r"(\w+)@(\w+)", "$2 at $1", "me@home").unwrap(), "home at me");
    assert!(sub("(", "x", "y").is_err());
}

#[test]
fn hint_blocks() {
    assert_eq!(
        hint_text("  ", "line one\n   line two  \n"),
        format!("\n    └─═ Hint: line one\n{}...: line two", " ".repeat(9))
    );
    assert_eq!(hint_text(" ", ""), "");
}

#[test]
fn hints_for_known_mistakes() {
    let token = hint("gh(\"a/b\")", &Cause::Engine(EngineError::RuntimeString("env(`GITHUB_TOKEN`) not present".into())), "gh");
    assert!(token.unwrap().starts_with("gh() requires the environment variable `GITHUB_TOKEN`"));
    let arr = Cause::Engine(EngineError::MismatchOutputType("map".into(), "array".into()));
    assert_eq!(hint("let x = json(s);", &arr, "").unwrap(), "If the json root is an array `[]`, use json_arr() instead.");
    assert_eq!(hint("let x = s;", &arr, ""), None);
    let missing = Cause::Foreign("https://api.github.com/repos/a/b/releases/latest: status code 404".into());
    assert_eq!(
        hint("gh(\"a/b\")", &missing, "gh").unwrap(),
        "Check if the repo is valid. Only releases are supported; use gh_tag() for tags."
    );
    assert_eq!(hint("gh(\"a/b\")", &missing, "gh_tag"), None);
    assert_eq!(hint("x", &Cause::Report, "gh"), None);
    assert_eq!(hint("x", &Cause::Engine(EngineError::Other), "gh"), None);
}

#[test]
fn traceback_of_a_failure() {
    let raw = "let x\t= gh(\"a/b\");";
    let sl = "let x = gh(\"a/b\");";
    let err = describe_error(TbErr::Arb, "boom");
    assert_eq!(err, "Caused by: boom");
    let t = traceback("foo", "update.rhai", 12, 9, raw, "gh", "", &err, "");
    let rule = "─".repeat(sl.len() + 2);
    let expected = format!(
        "Script Exception —— foo\n────┬{rule}\n    │ update.rhai:12:9\n────┼{rule}\n 12 │ {sl}\n    │ {}🭶🭶\n    ├─═ When invoking: gh()\n    └─═ Caused by: boom",
        " ".repeat(8)
    );
    assert_eq!(t, expected);
    // A column off any word marks one column.
    let t = traceback("foo", "s", 1, 4, "a = b", "", "src", "Rhai: x", "");
    assert!(t.ends_with(" 1 │ a = b\n   │    🭶\n   ├─═ Function source: src\n   └─═ Rhai: x"));
    assert_eq!(describe_error(TbErr::Report, "r"), "From: r");
    assert_eq!(describe_error(TbErr::Rhai, "e"), "Rhai: e");
}

#[test]
fn shell_commands_from_arguments() {
    let c = plan_command(CommandArg::Line("echo hai".into()), None, Some(Ok("piped".into())), Some(Ok("/tmp".into()))).unwrap();
    assert_eq!(c.program, "sh");
    assert_eq!(c.args, strs(&["-c", "echo hai"]));
    assert_eq!(c.stdout, StdioMode::Inherit);
    assert_eq!(c.stderr, StdioMode::Piped);
    assert_eq!(c.cwd, Some("/tmp".to_owned()));
    let c = plan_command(CommandArg::Argv(strs(&["rm", "-rf", "a b"])), Some(Ok("null".into())), None, None).unwrap();
    assert_eq!((c.program.as_str(), c.args.clone()), ("rm", strs(&["-rf", "a b"])));
    assert_eq!(c.stdout, StdioMode::Null);
    assert_eq!(c.cwd, None);
}

#[test]
fn shell_mistakes() {
    let f = plan_command(CommandArg::Argv(vec![]), None, None, None).unwrap_err();
    assert_eq!((f.kind.as_str(), f.expect.as_str(), f.found.as_str()), ("empty_cmd_arr", "cmd.len() >= 1", "cmd.len() == 0"));
    let f = plan_command(CommandArg::Other("i64".into()), None, None, None).unwrap_err();
    assert_eq!((f.kind.as_str(), f.expect.as_str(), f.found.as_str()), ("bad_param_type", "String | Vec<String>", "i64"));
    let f = plan_command(CommandArg::Line("x".into()), Some(Ok("loud".into())), None, None).unwrap_err();
    assert_eq!((f.kind.as_str(), f.expect.as_str(), f.found.as_str()), ("bad_stdio_opt", "\"inherit\" | \"null\" | \"piped\"", "loud"));
    let f = plan_command(CommandArg::Line("x".into()), None, Some(Err("bool".into())), None).unwrap_err();
    assert_eq!((f.kind.as_str(), f.found.as_str()), ("bad_stdio_type", "bool"));
    let f = plan_command(CommandArg::Line("x".into()), None, None, Some(Err("array".into()))).unwrap_err();
    assert_eq!((f.kind.as_str(), f.expect.as_str(), f.found.as_str()), ("bad_cwd_type", "String", "array"));
    assert_eq!(stdio_mode(Some(Ok("inherit".into()))).unwrap(), StdioMode::Inherit);
}

#[test]
fn shell_answers() {
    match shell_answer(Ok(("out".into(), "err".into(), None))) {
        ShellAnswer::Success { stdout, stderr, rc } => assert_eq!((stdout.as_str(), stderr.as_str(), rc), ("out", "err", 0)),
        _ => panic!("expected success"),
    }
    match shell_answer(Ok((String::new(), String::new(), Some(3)))) {
        ShellAnswer::Success { rc, .. } => assert_eq!(rc, 3),
        _ => panic!("expected success"),
    }
    match shell_answer(Err("No such file or directory".into())) {
        ShellAnswer::Failure { error } => assert_eq!(error, "No such file or directory"),
        _ => panic!("expected failure"),
    }
}

fn obj(ms: Vec<(&str, Json)>) -> Json {
    Json::Object(ms.into_iter().map(|(k, v)| (k.to_owned(), v)).collect())
}

fn text(s: &str) -> Json {
    Json::Text(s.to_owned())
}

#[test]
fn lookup_urls() {
    assert_eq!(gh_url("terrapkg/anda"), "https://api.github.com/repos/terrapkg/anda/releases/latest");
    assert_eq!(gh_tag_url("terrapkg/anda"), "https://api.github.com/repos/terrapkg/anda/tags");
    assert_eq!(pypi_url("requests"), "https://pypi.org/pypi/requests/json");
    assert_eq!(crates_url("serde"), "https://crates.io/api/v1/crates/serde");
    assert_eq!(npm_url("left-pad"), "https://registry.npmjs.org/left-pad/latest");
    assert_eq!(bearer("tok"), "Bearer tok");
    assert_eq!(env_not_present("GITHUB_TOKEN"), "env(`GITHUB_TOKEN`) not present");
    assert_eq!(USER_AGENT, "AndaX");
}

#[test]
fn github_versions() {
    assert_eq!(gh_version(&obj(vec![("name", text("x")), ("tag_name", text("v1.2"))])), "v1.2");
    assert_eq!(gh_version(&obj(vec![("tag_name", Json::Null)])), "");
    assert_eq!(gh_version(&Json::Array(vec![])), "");
    let tags = Json::Array(vec![obj(vec![("name", text("v3"))]), obj(vec![("name", text("v2"))])]);
    assert_eq!(gh_tag_version(&tags).unwrap(), "v3");
    assert_eq!(gh_tag_version(&Json::Array(vec![Json::Null])).unwrap(), "");
    assert_eq!(gh_tag_version(&Json::Array(vec![])).unwrap_err(), "gh_tag no tags");
    assert_eq!(gh_tag_version(&obj(vec![])).unwrap_err(), "gh_tag received not array");
}

#[test]
fn registry_versions() {
    let reply = obj(vec![("info", obj(vec![("version", text("2.31.0"))]))]);
    assert_eq!(pypi_version(&reply).unwrap(), "2.31.0");
    assert_eq!(pypi_version(&obj(vec![])).unwrap_err(), "No json[`info`]?");
    assert_eq!(pypi_version(&obj(vec![("info", obj(vec![]))])).unwrap_err(), "No json[`info`][`version`]?");
    let number = obj(vec![("info", obj(vec![("version", Json::Number("2".into()))]))]);
    assert_eq!(pypi_version(&number).unwrap_err(), "json not string?");
    let krate = obj(vec![(
        "crate",
        obj(vec![("max_stable_version", text("1.0.1")), ("max_version", text("1.1.0-rc1")), ("newest_version", text("1.0.2"))]),
    )]);
    assert_eq!(crates_version(&krate, CrateVersion::MaxStable).unwrap(), "1.0.1");
    assert_eq!(crates_version(&krate, CrateVersion::Max).unwrap(), "1.1.0-rc1");
    assert_eq!(crates_version(&krate, CrateVersion::Newest).unwrap(), "1.0.2");
    assert_eq!(crates_version(&obj(vec![("crate", obj(vec![]))]), CrateVersion::Max).unwrap_err(), "No json[`crate`][`max_version`]?");
    assert_eq!(npm_version(&obj(vec![("version", text("1.3.0"))])).unwrap(), "1.3.0");
    assert_eq!(npm_version(&Json::Bool(true)).unwrap_err(), "No json[`version`]?");
}

#[test]
fn request_settings() {
    let mut r = Req::new("https://example.org".into());
    r.head("Accept".into(), "text/plain".into());
    r.redirects(5);
    assert_eq!(r.headers, vec![("Accept".to_owned(), "text/plain".to_owned())]);
    assert_eq!(r.redirect_limit(), Ok(5));
    r.redirects(-1);
    assert_eq!(r.redirect_limit().unwrap_err(), "out of range integral type conversion attempted");
}

#[test]
fn forge_and_registry_urls() {
    assert_eq!(gh_commit_url("o/r"), "https://api.github.com/repos/o/r/commits/HEAD");
    assert_eq!(gh_rawfile_url("o/r", "main", "a.txt"), "https://raw.githubusercontent.com/o/r/main/a.txt");
    assert_eq!(gitlab_url("gitlab.com", "42"), "https://gitlab.com/api/v4/projects/42/releases/");
    assert_eq!(gitlab_tag_url("gl.io", "7"), "https://gl.io/api/v4/projects/7/repository/tags");
    assert_eq!(gitlab_commit_url("gitlab.com", "42", "dev"), "https://gitlab.com/api/v4/projects/42/repository/branches/dev");
    assert_eq!(forge_url("codeberg.org", "o/r"), "https://codeberg.org/api/v1/repos/o/r/releases/latest");
    assert_eq!(forge_tag_url("git.host", "o/r"), "https://git.host/api/v1/repos/o/r/tags");
    assert_eq!(forge_commit_url("git.host", "o/r"), "https://git.host/api/v1/repos/o/r/commits?limit=1");
    assert_eq!(
        codeberg_commit_url("o/r"),
        "https://codeberg.org/api/v1/repos/o/r/commits?stat=false&verification=false&files=false&limit=1"
    );
    assert_eq!(codeberg_rawfile_url("o/r", "main", "f"), "https://codeberg.org/o/r/raw/branch/main/f");
    assert_eq!(tangled_rawfile_url("o/r", "main", "f"), "https://tangled.org/o/r/raw/main/f");
    assert_eq!(sourcehut_rawfile_url("~o/r", "main", "f"), "https://git.sr.ht/~o/r/blob/main/f");
    assert_eq!(hex_url("jason"), "https://hex.pm/api/packages/jason");
    assert_eq!(cran_url("dplyr"), "https://crandb.r-pkg.org/dplyr");
    assert_eq!(hackage_url("aeson"), "https://hackage.haskell.org/package/aeson/preferred.json");
    assert_eq!(gems_url("rails"), "https://rubygems.org/api/v1/versions/rails/latest.json");
    assert_eq!(
        ansible_galaxy_url("ns", "col"),
        "https://galaxy.ansible.com/api/v3/plugin/ansible/content/published/collections/index/ns/col/versions/?limit=1&ordering=-version"
    );
    assert_eq!(gnome_extensions_url("a@b"), "https://extensions.gnome.org/api/v1/extensions/a@b/versions/?format=json");
}

#[test]
fn forge_and_registry_versions() {
    let releases = Json::Array(vec![obj(vec![("tag_name", text("v9"))])]);
    assert_eq!(first_key_text(&releases, "tag_name"), "v9");
    assert_eq!(first_key_text(&Json::Array(vec![]), "tag_name"), "");
    assert_eq!(first_key_text(&obj(vec![("tag_name", text("x"))]), "tag_name"), "");
    assert_eq!(key_text(&obj(vec![("sha", text("abc"))]), "sha"), "abc");
    assert_eq!(key_text(&Json::Null, "sha"), "");
    assert_eq!(gitlab_commit_version(&obj(vec![("commit", obj(vec![("id", text("deadbeef"))]))])), "deadbeef");
    assert_eq!(gitlab_commit_version(&obj(vec![("commit", Json::Null)])), "");
    let galaxy = obj(vec![("data", Json::Array(vec![obj(vec![("version", text("1.2.3"))])]))]);
    assert_eq!(ansible_galaxy_version(&galaxy), "1.2.3");
    assert_eq!(ansible_galaxy_version(&obj(vec![("data", Json::Array(vec![]))])), "");
    let tags = Json::Array(vec![obj(vec![("name", text("v2"))])]);
    assert_eq!(forge_tag_version(&tags, "codeberg_tag").unwrap(), "v2");
    assert_eq!(forge_tag_version(&Json::Array(vec![]), "gitea_tag").unwrap_err(), "gitea_tag no tags");
    assert_eq!(forge_tag_version(&Json::Null, "forgejo_tag").unwrap_err(), "forgejo_tag received not array");
    assert_eq!(hex_version(&obj(vec![("latest_stable_version", text("1.4.0"))])).unwrap(), "1.4.0");
    assert_eq!(hex_version(&Json::Null).unwrap_err(), "No json[`latest_stable_version`]?");
    assert_eq!(cran_version(&obj(vec![("Version", text("1.1.4"))])).unwrap(), "1.1.4");
    assert_eq!(gems_version(&obj(vec![("version", Json::Number("7".into()))])).unwrap_err(), "json not string?");
    let hackage = obj(vec![("normal-version", Json::Array(vec![text("2.2.3.0"), text("2.2.2.0")]))]);
    assert_eq!(hackage_version(&hackage).unwrap(), "2.2.3.0");
    assert_eq!(hackage_version(&Json::Null).unwrap_err(), "No json[`normal-version`]");
    assert_eq!(hackage_version(&obj(vec![("normal-version", Json::Array(vec![]))])).unwrap_err(), "No normal package versions available");
    assert_eq!(hackage_version(&obj(vec![("normal-version", text("x"))])).unwrap_err(), "`normal-version` is not an array");
    assert_eq!(hackage_version(&obj(vec![("normal-version", Json::Array(vec![Json::Null]))])).unwrap_err(), "Package version is not a string");
}

#[test]
fn gnome_extension_versions() {
    let entry = |status: &str, version: &str| obj(vec![("status", Json::Number(status.into())), ("version", Json::Number(version.into()))]);
    let reply = obj(vec![("results", Json::Array(vec![entry("3", "12"), entry("1", "40"), entry("3", "15"), entry("3", "7"), Json::Null]))]);
    assert_eq!(gnome_extensions_version(&reply).unwrap(), "15");
    let none = obj(vec![("results", Json::Array(vec![entry("2", "5"), entry("3", "1.5")]))]);
    assert_eq!(gnome_extensions_version(&none).unwrap_err(), "No active extension version could be found!");
    assert_eq!(gnome_extensions_version(&Json::Null).unwrap_err(), "No json[`results`]?");
    assert_eq!(gnome_extensions_version(&obj(vec![("results", text("x"))])).unwrap_err(), "json[`results`] is not array type?");
    let big = obj(vec![("results", Json::Array(vec![entry("3", "99999999999999999999"), entry("3", "-4"), entry("3", "9223372036854775807")]))]);
    assert_eq!(gnome_extensions_version(&big).unwrap(), "9223372036854775807");
}
