//! The web lookups of update scripts: where each lookup asks, and how the
//! version is picked out of the JSON reply. Sending the request and parsing
//! the reply into [`Json`] is the caller's part.
use crate::text::{append_chars, chars_eq, chars_of, string_of};
use vstd::prelude::*;

verus! {

/// The user agent of every request.
pub const USER_AGENT: &'static str = "AndaX";

/// A JSON value; numbers are kept as their text.
#[derive(Debug)]
pub enum Json {
    Null,
    Bool(bool),
    Number(String),
    Text(String),
    Array(Vec<Json>),
    Object(Vec<(String, Json)>),
}

/// The value of the first member named `k` of an object's members, from `i`.
pub open spec fn member_from(ms: Seq<(String, Json)>, k: Seq<char>, i: int) -> Option<Json>
    decreases ms.len() - i,
{
    if i < 0 || i >= ms.len() {
        None
    } else if ms[i].0@ == k {
        Some(ms[i].1)
    } else {
        member_from(ms, k, i + 1)
    }
}

/// The member `k` of a value (`Value::get`): none unless it is an object
/// with such a member.
pub open spec fn member(v: Json, k: Seq<char>) -> Option<Json> {
    match v {
        Json::Object(ms) => member_from(ms@, k, 0),
        _ => None,
    }
}

/// The text of a value, if it is a text (`Value::as_str`).
pub open spec fn text_of(v: Option<Json>) -> Option<Seq<char>> {
    match v {
        Some(Json::Text(s)) => Some(s@),
        _ => None,
    }
}

fn member_exec<'a>(v: &'a Json, k: &str) -> (r: Option<&'a Json>)
    ensures
        match r {
            Some(x) => member(*v, k@) == Some(*x),
            None => member(*v, k@) is None,
        },
{
    match v {
        Json::Object(ms) => {
            let kc = chars_of(k);
            let mut i: usize = 0;
            while i < ms.len()
                invariant
                    i <= ms.len(),
                    kc@ == k@,
                    member(*v, k@) == member_from(ms@, k@, 0),
                    member_from(ms@, k@, 0) == member_from(ms@, k@, i as int),
                decreases ms.len() - i,
            {
                if chars_eq(&chars_of(ms[i].0.as_str()), &kc) {
                    assert(ms@[i as int].0@ == k@);
                    assert(member_from(ms@, k@, i as int) == Some(ms@[i as int].1));
                    return Some(&ms[i].1);
                }
                i += 1;
            }
            None
        },
        _ => None,
    }
}

fn text_exec(v: Option<&Json>) -> (r: Option<String>)
    ensures
        crate::text::opt_view(r) == text_of(
            match v {
                Some(x) => Some(*x),
                None => None,
            },
        ),
{
    match v {
        Some(Json::Text(s)) => Some(s.clone()),
        _ => None,
    }
}

/// The version of the latest GitHub release in its reply: its `tag_name`,
/// or nothing when there is no such text.
pub fn gh_version(reply: &Json) -> (r: String)
    ensures
        r@ == match text_of(member(*reply, "tag_name"@)) {
            Some(t) => t,
            None => seq![],
        },
{
    match text_exec(member_exec(reply, "tag_name")) {
        Some(t) => t,
        None => {
            proof {
                reveal_strlit("");
            }
            "".to_owned()
        },
    }
}

/// The name of the newest GitHub tag in its reply (an array of tags): the
/// first tag's `name`, or nothing when it has no such text; an error when
/// the reply is no array or an empty one.
pub fn gh_tag_version(reply: &Json) -> (r: Result<String, String>)
    ensures
        match *reply {
            Json::Array(a) => if a@.len() == 0 {
                r is Err && r->Err_0@ == "gh_tag no tags"@
            } else {
                r is Ok && r->Ok_0@ == match text_of(member(a@[0], "name"@)) {
                    Some(t) => t,
                    None => seq![],
                }
            },
            _ => r is Err && r->Err_0@ == "gh_tag received not array"@,
        },
{
    match reply {
        Json::Array(a) => {
            if a.len() == 0 {
                return Err("gh_tag no tags".to_owned());
            }
            match text_exec(member_exec(&a[0], "name")) {
                Some(t) => Ok(t),
                None => {
                    proof {
                        reveal_strlit("");
                    }
                    Ok("".to_owned())
                },
            }
        },
        _ => Err("gh_tag received not array".to_owned()),
    }
}

/// `No json` followed by ``[`key`]`` for each key, and `?`.
pub open spec fn no_json_msg(keys: Seq<Seq<char>>) -> Seq<char> {
    "No json"@ + keys_text(keys) + "?"@
}

/// ``[`key`]`` for each key.
pub open spec fn keys_text(keys: Seq<Seq<char>>) -> Seq<char>
    decreases keys.len(),
{
    if keys.len() == 0 {
        seq![]
    } else {
        keys_text(keys.drop_last()) + "[`"@ + keys.last() + "`]"@
    }
}

/// Following the keys from a value: the value reached, or the number of
/// keys followed before one was missing.
pub open spec fn follow(v: Json, keys: Seq<Seq<char>>) -> Result<Json, nat>
    decreases keys.len(),
{
    if keys.len() == 0 {
        Ok(v)
    } else {
        match follow(v, keys.drop_last()) {
            Err(n) => Err(n),
            Ok(x) => match member(x, keys.last()) {
                Some(y) => Ok(y),
                None => Err((keys.len() - 1) as nat),
            },
        }
    }
}

/// The text reached by following the keys, or the error of the lookup: the
/// keys up to the first missing one, or that the value is no text.
pub open spec fn field_text(v: Json, keys: Seq<Seq<char>>) -> Result<Seq<char>, Seq<char>> {
    match follow(v, keys) {
        Err(n) => Err(no_json_msg(keys.take(n + 1 as int))),
        Ok(x) => match text_of(Some(x)) {
            Some(t) => Ok(t),
            None => Err("json not string?"@),
        },
    }
}

fn no_json_message(keys: &Vec<&str>, n: usize) -> (r: String)
    requires
        n <= keys.len(),
    ensures
        r@ == no_json_msg(keys@.map_values(|k: &str| k@).take(n as int)),
{
    let ghost ks = keys@.map_values(|k: &str| k@);
    let mut v = chars_of("No json");
    let ghost head = v@;
    let mut i: usize = 0;
    while i < n
        invariant
            i <= n <= keys.len(),
            ks == keys@.map_values(|k: &str| k@),
            v@ == head + keys_text(ks.take(i as int)),
        decreases n - i,
    {
        assert(ks.take(i + 1).drop_last() =~= ks.take(i as int));
        assert(ks.take(i + 1).last() == keys@[i as int]@);
        append_chars(&mut v, &chars_of("[`"));
        append_chars(&mut v, &chars_of(keys[i]));
        append_chars(&mut v, &chars_of("`]"));
        assert(v@ =~= head + keys_text(ks.take(i + 1)));
        i += 1;
    }
    v.push('?');
    proof {
        reveal_strlit("?");
    }
    assert(v@ =~= no_json_msg(ks.take(n as int)));
    string_of(&v)
}

/// The text reached by following `keys` from the reply, or the error of
/// the lookup.
pub fn pick_text(reply: &Json, keys: &Vec<&str>) -> (r: Result<String, String>)
    ensures
        match (r, field_text(*reply, keys@.map_values(|k: &str| k@))) {
            (Ok(a), Ok(b)) => a@ == b,
            (Err(a), Err(b)) => a@ == b,
            _ => false,
        },
{
    let ghost ks = keys@.map_values(|k: &str| k@);
    let mut cur: &Json = reply;
    let mut i: usize = 0;
    while i < keys.len()
        invariant
            i <= keys.len(),
            ks == keys@.map_values(|k: &str| k@),
            follow(*reply, ks.take(i as int)) == Ok::<Json, nat>(*cur),
        decreases keys.len() - i,
    {
        assert(ks.take(i + 1).drop_last() =~= ks.take(i as int));
        assert(ks.take(i + 1).last() == keys@[i as int]@);
        match member_exec(cur, keys[i]) {
            Some(x) => {
                cur = x;
            },
            None => {
                proof {
                    assert(follow(*reply, ks.take(i + 1)) == Err::<Json, nat>(i as nat));
                    lemma_follow_stops(*reply, ks, i + 1);
                    assert(ks.take(i + 1).take(i + 1) =~= ks.take(i + 1));
                }
                return Err(no_json_message(keys, i + 1));
            },
        }
        i += 1;
    }
    assert(ks.take(keys.len() as int) =~= ks);
    match text_exec(Some(cur)) {
        Some(t) => Ok(t),
        None => Err("json not string?".to_owned()),
    }
}

/// Once a key is missing, following more keys reports the same place.
proof fn lemma_follow_stops(v: Json, ks: Seq<Seq<char>>, m: int)
    requires
        0 <= m <= ks.len(),
        follow(v, ks.take(m)) is Err,
    ensures
        follow(v, ks) == follow(v, ks.take(m)),
    decreases ks.len() - m,
{
    if m < ks.len() {
        assert(ks.take(m + 1).drop_last() =~= ks.take(m));
        lemma_follow_stops(v, ks, m + 1);
    } else {
        assert(ks.take(m) =~= ks);
    }
}

fn url_of(head: &str, name: &str, tail: &str) -> (r: String)
    ensures
        r@ == head@ + name@ + tail@,
{
    let mut v = chars_of(head);
    append_chars(&mut v, &chars_of(name));
    append_chars(&mut v, &chars_of(tail));
    string_of(&v)
}

/// Where the latest release of a GitHub repository is asked for.
pub fn gh_url(repo: &str) -> (r: String)
    ensures
        r@ == "https://api.github.com/repos/"@ + repo@ + "/releases/latest"@,
{
    url_of("https://api.github.com/repos/", repo, "/releases/latest")
}

/// Where the tags of a GitHub repository are asked for.
pub fn gh_tag_url(repo: &str) -> (r: String)
    ensures
        r@ == "https://api.github.com/repos/"@ + repo@ + "/tags"@,
{
    url_of("https://api.github.com/repos/", repo, "/tags")
}

/// Where a Python package is asked for.
pub fn pypi_url(name: &str) -> (r: String)
    ensures
        r@ == "https://pypi.org/pypi/"@ + name@ + "/json"@,
{
    url_of("https://pypi.org/pypi/", name, "/json")
}

/// Where a Rust crate is asked for.
pub fn crates_url(name: &str) -> (r: String)
    ensures
        r@ == "https://crates.io/api/v1/crates/"@ + name@,
{
    proof {
        reveal_strlit("");
    }
    let r = url_of("https://crates.io/api/v1/crates/", name, "");
    assert(r@ =~= "https://crates.io/api/v1/crates/"@ + name@);
    r
}

/// Where the latest version of an npm package is asked for.
pub fn npm_url(name: &str) -> (r: String)
    ensures
        r@ == "https://registry.npmjs.org/"@ + name@ + "/latest"@,
{
    url_of("https://registry.npmjs.org/", name, "/latest")
}

/// The `Authorization` header of GitHub requests.
pub fn bearer(token: &str) -> (r: String)
    ensures
        r@ == "Bearer "@ + token@,
{
    proof {
        reveal_strlit("");
    }
    let r = url_of("Bearer ", token, "");
    assert(r@ =~= "Bearer "@ + token@);
    r
}

/// The error of `env` for a variable that is not set.
pub fn env_not_present(key: &str) -> (r: String)
    ensures
        r@ == "env(`"@ + key@ + "`) not present"@,
{
    url_of("env(`", key, "`) not present")
}

/// The version of a Python package in its reply: `info.version`.
pub fn pypi_version(reply: &Json) -> (r: Result<String, String>)
    ensures
        match (r, field_text(*reply, seq!["info"@, "version"@])) {
            (Ok(a), Ok(b)) => a@ == b,
            (Err(a), Err(b)) => a@ == b,
            _ => false,
        },
{
    let keys = vec!["info", "version"];
    assert(keys@.map_values(|k: &str| k@) =~= seq!["info"@, "version"@]);
    pick_text(reply, &keys)
}

/// Which version of a crate to take.
#[derive(Debug, Clone, Copy, PartialEq, Eq, Structural)]
pub enum CrateVersion {
    /// The highest stable version (`crates`)
    MaxStable,
    /// The highest version (`crates_max`)
    Max,
    /// The newest version (`crates_newest`)
    Newest,
}

/// The field of a crate's reply that holds the version asked for.
pub open spec fn crate_field(which: CrateVersion) -> Seq<char> {
    match which {
        CrateVersion::MaxStable => "max_stable_version"@,
        CrateVersion::Max => "max_version"@,
        CrateVersion::Newest => "newest_version"@,
    }
}

/// A version of a crate in its reply: `crate.<field>`.
pub fn crates_version(reply: &Json, which: CrateVersion) -> (r: Result<String, String>)
    ensures
        match (r, field_text(*reply, seq!["crate"@, crate_field(which)])) {
            (Ok(a), Ok(b)) => a@ == b,
            (Err(a), Err(b)) => a@ == b,
            _ => false,
        },
{
    let field = match which {
        CrateVersion::MaxStable => "max_stable_version",
        CrateVersion::Max => "max_version",
        CrateVersion::Newest => "newest_version",
    };
    let keys = vec!["crate", field];
    assert(keys@.map_values(|k: &str| k@) =~= seq!["crate"@, crate_field(which)]);
    pick_text(reply, &keys)
}

/// The latest version of an npm package in its reply: `version`.
pub fn npm_version(reply: &Json) -> (r: Result<String, String>)
    ensures
        match (r, field_text(*reply, seq!["version"@])) {
            (Ok(a), Ok(b)) => a@ == b,
            (Err(a), Err(b)) => a@ == b,
            _ => false,
        },
{
    let keys = vec!["version"];
    assert(keys@.map_values(|k: &str| k@) =~= seq!["version"@]);
    pick_text(reply, &keys)
}

/// The text, or nothing.
pub open spec fn or_empty(t: Option<Seq<char>>) -> Seq<char> {
    match t {
        Some(x) => x,
        None => seq![],
    }
}

/// The first element of an array (`value[0]`): none for anything else or an
/// empty array.
pub open spec fn first_of(v: Json) -> Option<Json> {
    match v {
        Json::Array(a) => if a@.len() > 0 { Some(a@[0]) } else { None },
        _ => None,
    }
}

/// The member `k` of a value that may be missing.
pub open spec fn member_of(v: Option<Json>, k: Seq<char>) -> Option<Json> {
    match v {
        Some(x) => member(x, k),
        None => None,
    }
}

fn first_exec(v: &Json) -> (r: Option<&Json>)
    ensures
        match r {
            Some(x) => first_of(*v) == Some(*x),
            None => first_of(*v) is None,
        },
{
    match v {
        Json::Array(a) => if a.len() > 0 { Some(&a[0]) } else { None },
        _ => None,
    }
}

fn member_of_exec<'a>(v: Option<&'a Json>, k: &str) -> (r: Option<&'a Json>)
    ensures
        match r {
            Some(x) => member_of(match v { Some(y) => Some(*y), None => None }, k@) == Some(*x),
            None => member_of(match v { Some(y) => Some(*y), None => None }, k@) is None,
        },
{
    match v {
        Some(x) => member_exec(x, k),
        None => None,
    }
}

fn text_or_empty(v: Option<&Json>) -> (r: String)
    ensures
        r@ == or_empty(text_of(match v { Some(x) => Some(*x), None => None })),
{
    match text_exec(v) {
        Some(t) => t,
        None => {
            proof {
                reveal_strlit("");
            }
            "".to_owned()
        },
    }
}

/// The text of the member `key` of the reply (`value[key]`), or nothing:
/// `sha` of a GitHub commit, `tag_name` of a Codeberg, Gitea or Forgejo
/// release.
pub fn key_text(reply: &Json, key: &str) -> (r: String)
    ensures
        r@ == or_empty(text_of(member(*reply, key@))),
{
    text_or_empty(member_exec(reply, key))
}

/// The text of the member `key` of the reply's first element
/// (`value[0][key]`), or nothing: `tag_name` of the latest GitLab release,
/// `name` of the newest GitLab tag, `sha` of the latest Codeberg, Gitea or
/// Forgejo commit.
pub fn first_key_text(reply: &Json, key: &str) -> (r: String)
    ensures
        r@ == or_empty(text_of(member_of(first_of(*reply), key@))),
{
    text_or_empty(member_of_exec(first_exec(reply), key))
}

/// The commit of a GitLab branch in its reply: `commit.id`, or nothing.
pub fn gitlab_commit_version(reply: &Json) -> (r: String)
    ensures
        r@ == or_empty(text_of(member_of(member(*reply, "commit"@), "id"@))),
{
    text_or_empty(member_of_exec(member_exec(reply, "commit"), "id"))
}

/// The newest version of an Ansible Galaxy collection in its reply:
/// `data[0].version`, or nothing.
pub fn ansible_galaxy_version(reply: &Json) -> (r: String)
    ensures
        r@ == or_empty(text_of(member_of(
            match member(*reply, "data"@) { Some(d) => first_of(d), None => None },
            "version"@,
        ))),
{
    let first = match member_exec(reply, "data") {
        Some(d) => first_exec(d),
        None => None,
    };
    text_or_empty(member_of_exec(first, "version"))
}

/// The name of the newest tag of a Codeberg, Gitea or Forgejo repository
/// in its reply (an array of tags): the first tag's `name`, or nothing; an
/// error, named after the lookup `what`, when the reply is no array or an
/// empty one.
pub fn forge_tag_version(reply: &Json, what: &str) -> (r: Result<String, String>)
    ensures
        match *reply {
            Json::Array(a) => if a@.len() == 0 {
                r is Err && r->Err_0@ == what@ + " no tags"@
            } else {
                r is Ok && r->Ok_0@ == or_empty(text_of(member(a@[0], "name"@)))
            },
            _ => r is Err && r->Err_0@ == what@ + " received not array"@,
        },
{
    match reply {
        Json::Array(a) => {
            if a.len() == 0 {
                proof {
                    reveal_strlit("");
                }
                let m = url_of("", what, " no tags");
                assert(m@ =~= what@ + " no tags"@);
                return Err(m);
            }
            Ok(text_or_empty(member_exec(&a[0], "name")))
        },
        _ => {
            proof {
                reveal_strlit("");
            }
            let m = url_of("", what, " received not array");
            assert(m@ =~= what@ + " received not array"@);
            Err(m)
        },
    }
}

/// The latest stable version of a Hex package in its reply:
/// `latest_stable_version`.
pub fn hex_version(reply: &Json) -> (r: Result<String, String>)
    ensures
        match (r, field_text(*reply, seq!["latest_stable_version"@])) {
            (Ok(a), Ok(b)) => a@ == b,
            (Err(a), Err(b)) => a@ == b,
            _ => false,
        },
{
    let keys = vec!["latest_stable_version"];
    assert(keys@.map_values(|k: &str| k@) =~= seq!["latest_stable_version"@]);
    pick_text(reply, &keys)
}

/// The version of a CRAN package in its reply: `Version`.
pub fn cran_version(reply: &Json) -> (r: Result<String, String>)
    ensures
        match (r, field_text(*reply, seq!["Version"@])) {
            (Ok(a), Ok(b)) => a@ == b,
            (Err(a), Err(b)) => a@ == b,
            _ => false,
        },
{
    let keys = vec!["Version"];
    assert(keys@.map_values(|k: &str| k@) =~= seq!["Version"@]);
    pick_text(reply, &keys)
}

/// The latest version of a Ruby gem in its reply: `version`.
pub fn gems_version(reply: &Json) -> (r: Result<String, String>)
    ensures
        match (r, field_text(*reply, seq!["version"@])) {
            (Ok(a), Ok(b)) => a@ == b,
            (Err(a), Err(b)) => a@ == b,
            _ => false,
        },
{
    let keys = vec!["version"];
    assert(keys@.map_values(|k: &str| k@) =~= seq!["version"@]);
    pick_text(reply, &keys)
}

/// The preferred version of a Hackage package in its reply: the first of
/// `normal-version`, with an error for each way the reply falls short.
pub open spec fn hackage_pick(reply: Json) -> Result<Seq<char>, Seq<char>> {
    match member(reply, "normal-version"@) {
        None => Err("No json[`normal-version`]"@),
        Some(Json::Array(a)) => if a@.len() == 0 {
            Err("No normal package versions available"@)
        } else {
            match text_of(Some(a@[0])) {
                Some(t) => Ok(t),
                None => Err("Package version is not a string"@),
            }
        },
        Some(_) => Err("`normal-version` is not an array"@),
    }
}

/// The preferred version of a Hackage package in its reply.
pub fn hackage_version(reply: &Json) -> (r: Result<String, String>)
    ensures
        match (r, hackage_pick(*reply)) {
            (Ok(a), Ok(b)) => a@ == b,
            (Err(a), Err(b)) => a@ == b,
            _ => false,
        },
{
    match member_exec(reply, "normal-version") {
        None => Err("No json[`normal-version`]".to_owned()),
        Some(Json::Array(a)) => {
            if a.len() == 0 {
                return Err("No normal package versions available".to_owned());
            }
            match text_exec(Some(&a[0])) {
                Some(t) => Ok(t),
                None => Err("Package version is not a string".to_owned()),
            }
        },
        Some(_) => Err("`normal-version` is not an array".to_owned()),
    }
}

fn url_of2(head: &str, a: &str, mid: &str, b: &str, tail: &str) -> (r: String)
    ensures
        r@ == head@ + a@ + mid@ + b@ + tail@,
{
    let mut v = chars_of(head);
    append_chars(&mut v, &chars_of(a));
    append_chars(&mut v, &chars_of(mid));
    append_chars(&mut v, &chars_of(b));
    append_chars(&mut v, &chars_of(tail));
    string_of(&v)
}

fn url_of3(head: &str, a: &str, m1: &str, b: &str, m2: &str, c: &str) -> (r: String)
    ensures
        r@ == head@ + a@ + m1@ + b@ + m2@ + c@,
{
    let mut v = chars_of(head);
    append_chars(&mut v, &chars_of(a));
    append_chars(&mut v, &chars_of(m1));
    append_chars(&mut v, &chars_of(b));
    append_chars(&mut v, &chars_of(m2));
    append_chars(&mut v, &chars_of(c));
    string_of(&v)
}

/// Where the latest commit of a GitHub repository is asked for.
pub fn gh_commit_url(repo: &str) -> (r: String)
    ensures
        r@ == "https://api.github.com/repos/"@ + repo@ + "/commits/HEAD"@,
{
    url_of("https://api.github.com/repos/", repo, "/commits/HEAD")
}

/// Where a file of a GitHub repository is fetched from.
pub fn gh_rawfile_url(repo: &str, branch: &str, file: &str) -> (r: String)
    ensures
        r@ == "https://raw.githubusercontent.com/"@ + repo@ + "/"@ + branch@ + "/"@ + file@,
{
    url_of3("https://raw.githubusercontent.com/", repo, "/", branch, "/", file)
}

/// Where the releases of a GitLab project on `domain` are asked for.
pub fn gitlab_url(domain: &str, id: &str) -> (r: String)
    ensures
        r@ == "https://"@ + domain@ + "/api/v4/projects/"@ + id@ + "/releases/"@,
{
    url_of2("https://", domain, "/api/v4/projects/", id, "/releases/")
}

/// Where the tags of a GitLab project on `domain` are asked for.
pub fn gitlab_tag_url(domain: &str, id: &str) -> (r: String)
    ensures
        r@ == "https://"@ + domain@ + "/api/v4/projects/"@ + id@ + "/repository/tags"@,
{
    url_of2("https://", domain, "/api/v4/projects/", id, "/repository/tags")
}

/// Where a branch of a GitLab project on `domain` is asked for.
pub fn gitlab_commit_url(domain: &str, id: &str, branch: &str) -> (r: String)
    ensures
        r@ == "https://"@ + domain@ + "/api/v4/projects/"@ + id@ + "/repository/branches/"@ + branch@,
{
    url_of3("https://", domain, "/api/v4/projects/", id, "/repository/branches/", branch)
}

/// Where the latest release of a repository on a Gitea or Forgejo host
/// (Codeberg is `codeberg.org`) is asked for.
pub fn forge_url(host: &str, repo: &str) -> (r: String)
    ensures
        r@ == "https://"@ + host@ + "/api/v1/repos/"@ + repo@ + "/releases/latest"@,
{
    url_of2("https://", host, "/api/v1/repos/", repo, "/releases/latest")
}

/// Where the tags of a repository on a Gitea or Forgejo host are asked for.
pub fn forge_tag_url(host: &str, repo: &str) -> (r: String)
    ensures
        r@ == "https://"@ + host@ + "/api/v1/repos/"@ + repo@ + "/tags"@,
{
    url_of2("https://", host, "/api/v1/repos/", repo, "/tags")
}

/// Where the latest commit of a repository on a Gitea or Forgejo host is
/// asked for.
pub fn forge_commit_url(host: &str, repo: &str) -> (r: String)
    ensures
        r@ == "https://"@ + host@ + "/api/v1/repos/"@ + repo@ + "/commits?limit=1"@,
{
    url_of2("https://", host, "/api/v1/repos/", repo, "/commits?limit=1")
}

/// Where the latest commit of a Codeberg repository is asked for.
pub fn codeberg_commit_url(repo: &str) -> (r: String)
    ensures
        r@ == "https://codeberg.org/api/v1/repos/"@ + repo@ + "/commits?stat=false&verification=false&files=false&limit=1"@,
{
    url_of("https://codeberg.org/api/v1/repos/", repo, "/commits?stat=false&verification=false&files=false&limit=1")
}

/// Where a file of a Codeberg repository is fetched from.
pub fn codeberg_rawfile_url(repo: &str, branch: &str, file: &str) -> (r: String)
    ensures
        r@ == "https://codeberg.org/"@ + repo@ + "/raw/branch/"@ + branch@ + "/"@ + file@,
{
    url_of3("https://codeberg.org/", repo, "/raw/branch/", branch, "/", file)
}

/// Where a file of a Tangled repository is fetched from.
pub fn tangled_rawfile_url(repo: &str, branch: &str, file: &str) -> (r: String)
    ensures
        r@ == "https://tangled.org/"@ + repo@ + "/raw/"@ + branch@ + "/"@ + file@,
{
    url_of3("https://tangled.org/", repo, "/raw/", branch, "/", file)
}

/// Where a file of a SourceHut repository is fetched from.
pub fn sourcehut_rawfile_url(repo: &str, branch: &str, file: &str) -> (r: String)
    ensures
        r@ == "https://git.sr.ht/"@ + repo@ + "/blob/"@ + branch@ + "/"@ + file@,
{
    url_of3("https://git.sr.ht/", repo, "/blob/", branch, "/", file)
}

/// Where a Hex package is asked for.
pub fn hex_url(name: &str) -> (r: String)
    ensures
        r@ == "https://hex.pm/api/packages/"@ + name@,
{
    proof {
        reveal_strlit("");
    }
    let r = url_of("https://hex.pm/api/packages/", name, "");
    assert(r@ =~= "https://hex.pm/api/packages/"@ + name@);
    r
}

/// Where a CRAN package is asked for.
pub fn cran_url(name: &str) -> (r: String)
    ensures
        r@ == "https://crandb.r-pkg.org/"@ + name@,
{
    proof {
        reveal_strlit("");
    }
    let r = url_of("https://crandb.r-pkg.org/", name, "");
    assert(r@ =~= "https://crandb.r-pkg.org/"@ + name@);
    r
}

/// Where the preferred versions of a Hackage package are asked for.
pub fn hackage_url(name: &str) -> (r: String)
    ensures
        r@ == "https://hackage.haskell.org/package/"@ + name@ + "/preferred.json"@,
{
    url_of("https://hackage.haskell.org/package/", name, "/preferred.json")
}

/// Where the latest version of a Ruby gem is asked for.
pub fn gems_url(gem: &str) -> (r: String)
    ensures
        r@ == "https://rubygems.org/api/v1/versions/"@ + gem@ + "/latest.json"@,
{
    url_of("https://rubygems.org/api/v1/versions/", gem, "/latest.json")
}

/// Where the newest version of an Ansible Galaxy collection is asked for.
pub fn ansible_galaxy_url(namespace: &str, collection: &str) -> (r: String)
    ensures
        r@ == "https://galaxy.ansible.com/api/v3/plugin/ansible/content/published/collections/index/"@ + namespace@
            + "/"@ + collection@ + "/versions/?limit=1&ordering=-version"@,
{
    url_of2(
        "https://galaxy.ansible.com/api/v3/plugin/ansible/content/published/collections/index/",
        namespace,
        "/",
        collection,
        "/versions/?limit=1&ordering=-version",
    )
}

/// Where the versions of a GNOME Shell extension are asked for.
pub fn gnome_extensions_url(uuid: &str) -> (r: String)
    ensures
        r@ == "https://extensions.gnome.org/api/v1/extensions/"@ + uuid@ + "/versions/?format=json"@,
{
    url_of("https://extensions.gnome.org/api/v1/extensions/", uuid, "/versions/?format=json")
}

/// The value of ASCII decimal digits (at least one).
pub open spec fn digits_nat(s: Seq<char>) -> Option<nat>
    decreases s.len(),
{
    if s.len() == 0 || !('0' <= s.last() && s.last() <= '9') {
        None
    } else {
        let d = (s.last() as int - '0' as int) as nat;
        if s.len() == 1 {
            Some(d)
        } else {
            match digits_nat(s.drop_last()) {
                Some(v) => Some(v * 10 + d),
                None => None,
            }
        }
    }
}

/// The integer that a JSON value holds, as `Value::as_i64` reads it: a
/// number written as an optional `-` and decimal digits, within `i64`.
pub open spec fn json_i64(v: Option<Json>) -> Option<int> {
    match v {
        Some(Json::Number(t)) => {
            let neg = t@.len() > 0 && t@[0] == '-';
            let ds = if neg { t@.drop_first() } else { t@ };
            match digits_nat(ds) {
                Some(n) => {
                    let x = if neg { -(n as int) } else { n as int };
                    if i64::MIN <= x && x <= i64::MAX { Some(x) } else { None }
                },
                None => None,
            }
        },
        _ => None,
    }
}

proof fn lemma_digits_prefix_none(s: Seq<char>, k: int)
    requires
        0 < k <= s.len(),
        digits_nat(s.take(k)) is None,
    ensures
        digits_nat(s) is None,
    decreases s.len() - k,
{
    if k < s.len() {
        assert(s.drop_last().take(k) =~= s.take(k));
        lemma_digits_prefix_none(s.drop_last(), k);
    } else {
        assert(s.take(k) =~= s);
    }
}

proof fn lemma_digits_grow(s: Seq<char>, k: int)
    requires
        0 < k <= s.len(),
        digits_nat(s.take(k)) is Some,
    ensures
        match digits_nat(s) {
            Some(n) => n >= digits_nat(s.take(k))->Some_0,
            None => true,
        },
    decreases s.len() - k,
{
    if k < s.len() {
        assert(s.drop_last().take(k) =~= s.take(k));
        lemma_digits_grow(s.drop_last(), k);
    } else {
        assert(s.take(k) =~= s);
    }
}

fn json_i64_exec(v: Option<&Json>) -> (r: Option<i64>)
    ensures
        match r {
            Some(x) => json_i64(match v { Some(y) => Some(*y), None => None }) == Some(x as int),
            None => json_i64(match v { Some(y) => Some(*y), None => None }) is None,
        },
{
    match v {
        Some(Json::Number(t)) => {
            let c = chars_of(t.as_str());
            let neg = c.len() > 0 && c[0] == '-';
            let start: usize = if neg { 1 } else { 0 };
            let ghost ds = if neg { c@.drop_first() } else { c@ };
            assert(ds =~= c@.skip(start as int));
            if start >= c.len() {
                return None;
            }
            let mut m: u64 = 0;
            let mut i: usize = start;
            while i < c.len()
                invariant
                    start < c.len(),
                    start <= i <= c.len(),
                    (match v { Some(y) => Some(*y), None => None::<Json> }) == Some(Json::Number(*t)),
                    c@ == t@,
                    ds == c@.skip(start as int),
                    ds == (if neg { c@.drop_first() } else { c@ }),
                    neg == (c@.len() > 0 && c@[0] == '-'),
                    start == (if neg { 1usize } else { 0usize }),
                    i > start ==> digits_nat(ds.take(i - start)) == Some(m as nat),
                    m <= 9223372036854775808u64,
                decreases c.len() - i,
            {
                let ch = c[i];
                let ghost tk = ds.take(i + 1 - start);
                assert(tk.last() == ch);
                assert(tk.drop_last() =~= ds.take(i - start));
                if !('0' <= ch && ch <= '9') {
                    proof { lemma_digits_prefix_none(ds, i + 1 - start); }
                    return None;
                }
                let d: u64 = ((ch as u32) - ('0' as u32)) as u64;
                if i > start {
                    if m > 922337203685477580u64 || (m == 922337203685477580u64 && d > 8) {
                        assert(digits_nat(tk) == Some((m * 10 + d) as nat));
                        proof { lemma_digits_grow(ds, i + 1 - start); }
                        return None;
                    }
                    m = m * 10 + d;
                } else {
                    m = d;
                }
                i += 1;
            }
            assert(ds.take(c.len() - start) =~= ds);
            if neg {
                if m == 9223372036854775808u64 {
                    Some(i64::MIN)
                } else {
                    Some(-(m as i64))
                }
            } else if m > 9223372036854775807u64 {
                None
            } else {
                Some(m as i64)
            }
        },
        _ => None,
    }
}

/// The newest active version of a GNOME Shell extension among results: the
/// highest `version` of those whose `status` is 3 (active), and 0 when
/// there is none above it.
pub open spec fn gnome_latest(results: Seq<Json>) -> int
    decreases results.len(),
{
    if results.len() == 0 {
        0
    } else {
        let before = gnome_latest(results.drop_last());
        let x = results.last();
        match json_i64(member(x, "status"@)) {
            Some(st) => match json_i64(member(x, "version"@)) {
                Some(v) => if st == 3 && v > before { v } else { before },
                None => before,
            },
            None => before,
        }
    }
}

/// What the GNOME Shell extension lookup gives for a reply: the newest
/// active version in `results`, in decimal, or the error of the lookup.
pub open spec fn gnome_pick(reply: Json) -> Result<Seq<char>, Seq<char>> {
    match member(reply, "results"@) {
        None => Err("No json[`results`]?"@),
        Some(Json::Array(a)) => {
            let l = gnome_latest(a@);
            if l == 0 {
                Err("No active extension version could be found!"@)
            } else {
                Ok(crate::text::decimal(l as nat))
            }
        },
        Some(_) => Err("json[`results`] is not array type?"@),
    }
}

/// The newest active version of a GNOME Shell extension in its reply.
pub fn gnome_extensions_version(reply: &Json) -> (r: Result<String, String>)
    ensures
        match (r, gnome_pick(*reply)) {
            (Ok(a), Ok(b)) => a@ == b,
            (Err(a), Err(b)) => a@ == b,
            _ => false,
        },
{
    match member_exec(reply, "results") {
        None => Err("No json[`results`]?".to_owned()),
        Some(Json::Array(a)) => {
            let mut latest: i64 = 0;
            let mut i: usize = 0;
            while i < a.len()
                invariant
                    i <= a.len(),
                    latest == gnome_latest(a@.take(i as int)),
                    latest >= 0,
                decreases a.len() - i,
            {
                assert(a@.take(i + 1).drop_last() =~= a@.take(i as int));
                assert(a@.take(i + 1).last() == a@[i as int]);
                match json_i64_exec(member_exec(&a[i], "status")) {
                    Some(st) => match json_i64_exec(member_exec(&a[i], "version")) {
                        Some(v) => {
                            if st == 3 && v > latest {
                                latest = v;
                            }
                        },
                        None => {},
                    },
                    None => {},
                }
                i += 1;
            }
            assert(a@.take(a.len() as int) =~= a@);
            if latest == 0 {
                return Err("No active extension version could be found!".to_owned());
            }
            Ok(string_of(&crate::text::format_decimal_u64(latest as u64)))
        },
        Some(_) => Err("json[`results`] is not array type?".to_owned()),
    }
}

/// A request of a script: the URL, extra headers, and how many redirects
/// to follow.
#[derive(Debug, Clone)]
pub struct Req {
    pub url: String,
    pub headers: Vec<(String, String)>,
    pub redirects: i64,
}

impl Req {
    /// A request of `url` with no extra headers and no redirects.
    pub fn new(url: String) -> (r: Req)
        ensures
            r.url == url,
            r.headers@.len() == 0,
            r.redirects == 0,
    {
        Req { url, headers: Vec::new(), redirects: 0 }
    }

    /// Adds the header `key: val`.
    pub fn head(&mut self, key: String, val: String)
        ensures
            final(self).headers@ == old(self).headers@.push((key, val)),
            final(self).url == old(self).url,
            final(self).redirects == old(self).redirects,
    {
        self.headers.push((key, val));
    }

    /// Sets how many redirects to follow.
    pub fn redirects(&mut self, i: i64)
        ensures
            final(self).redirects == i,
            final(self).url == old(self).url,
            final(self).headers == old(self).headers,
    {
        self.redirects = i;
    }

    /// How many redirects the request follows, which must be a `u32`.
    pub fn redirect_limit(&self) -> (r: Result<u32, String>)
        ensures
            0 <= self.redirects <= u32::MAX ==> r == Ok::<u32, String>(self.redirects as u32),
            !(0 <= self.redirects <= u32::MAX) ==> r is Err && r->Err_0@
                == "out of range integral type conversion attempted"@,
    {
        if self.redirects >= 0 && self.redirects <= 4294967295i64 {
            Ok(self.redirects as u32)
        } else {
            Err("out of range integral type conversion attempted".to_owned())
        }
    }
}

} // verus!
