//! Editing a spec file from an update script: its version, release, sources
//! and `%define`/`%global` macros. The lines to edit are found with regular
//! expressions (the `regex` crate); what a match yields is named by an
//! uninterpreted function of the text, with only the facts that the pattern
//! itself makes plain stated beside it.
use crate::text::{append_chars, chars_of, decimal, format_decimal_u64, string_of};
use vstd::prelude::*;

verus! {

/// Groups 1 and 2 of the first match of `Version:(\s+)([\.\d]+)\n`: the
/// space after the name and the version.
pub uninterp spec fn version_line(text: Seq<char>) -> Option<(Seq<char>, Seq<char>)>;

/// `Regex::captures` with `Version:(\s+)([\.\d]+)\n`, giving groups 1 and 2.
#[verifier::external_body]
fn version_captures(text: &str) -> (r: Option<(String, String)>)
    ensures
        match r {
            Some((a, b)) => version_line(text@) == Some((a@, b@)),
            None => version_line(text@) is None,
        },
{
    match regex::Regex::new(r"Version:(\s+)([\.\d]+)\n").unwrap().captures(text) {
        Some(c) => Some((c[1].to_string(), c[2].to_string())),
        None => None,
    }
}

/// The text with its first match of `Version:(\s+)([\.\d]+)\n` replaced by
/// `rep`, where `$` in `rep` refers to the match's groups.
pub uninterp spec fn version_replaced(text: Seq<char>, rep: Seq<char>) -> Seq<char>;

/// `Regex::replace` with `Version:(\s+)([\.\d]+)\n`.
#[verifier::external_body]
fn replace_version(text: &str, rep: &str) -> (r: String)
    ensures
        r@ == version_replaced(text@, rep@),
{
    regex::Regex::new(r"Version:(\s+)([\.\d]+)\n").unwrap().replace(text, rep).into_owned()
}

/// Groups 1 and 2 of the first match of `Release:(\s+)([\.\d]+)\n`: the
/// space after the name and the release.
pub uninterp spec fn release_line(text: Seq<char>) -> Option<(Seq<char>, Seq<char>)>;

/// `Regex::captures` with `Release:(\s+)([\.\d]+)\n`, giving groups 1 and 2.
#[verifier::external_body]
fn release_captures(text: &str) -> (r: Option<(String, String)>)
    ensures
        match r {
            Some((a, b)) => release_line(text@) == Some((a@, b@)),
            None => release_line(text@) is None,
        },
{
    match regex::Regex::new(r"Release:(\s+)([\.\d]+)\n").unwrap().captures(text) {
        Some(c) => Some((c[1].to_string(), c[2].to_string())),
        None => None,
    }
}

/// The text with its first match of `Release:(\s+)([\.\d]+)\n` replaced by
/// `rep`, where `$` in `rep` refers to the match's groups.
pub uninterp spec fn release_replaced(text: Seq<char>, rep: Seq<char>) -> Seq<char>;

/// `Regex::replace` with `Release:(\s+)([\.\d]+)\n`.
#[verifier::external_body]
fn replace_release(text: &str, rep: &str) -> (r: String)
    ensures
        r@ == release_replaced(text@, rep@),
{
    regex::Regex::new(r"Release:(\s+)([\.\d]+)\n").unwrap().replace(text, rep).into_owned()
}

/// A match of a macro definition: the whole match and its four groups.
pub type MacroMatch = (Seq<char>, Seq<char>, Seq<char>, Seq<char>, Seq<char>);

/// The view of the matches handed out by a wrapper.
pub open spec fn macro_matches_view(v: Vec<(String, String, String, String, String)>) -> Seq<MacroMatch> {
    v@.map_values(|m: (String, String, String, String, String)| (m.0@, m.1@, m.2@, m.3@, m.4@))
}

/// A macro match is the keyword followed by its groups.
pub open spec fn macro_match_shape(kw: Seq<char>, ms: Seq<MacroMatch>) -> bool {
    forall|i: int| 0 <= i < ms.len() ==> (#[trigger] ms[i]).0 == kw + ms[i].1 + ms[i].2 + ms[i].3 + ms[i].4
}

/// Every match of `(?m)%define(\s+)(\S+)(\s+)(\S+)$`, in order.
pub uninterp spec fn define_lines(text: Seq<char>) -> Seq<MacroMatch>;

/// `Regex::captures_iter` with `(?m)%define(\s+)(\S+)(\s+)(\S+)$`, giving
/// each match and its groups. A match is `%define` followed by its groups.
#[verifier::external_body]
fn define_captures(text: &str) -> (r: Vec<(String, String, String, String, String)>)
    ensures
        macro_matches_view(r) == define_lines(text@),
        macro_match_shape("%define"@, macro_matches_view(r)),
{
    regex::Regex::new(r"(?m)%define(\s+)(\S+)(\s+)(\S+)$").unwrap().captures_iter(text).map(
        |c| (c[0].to_string(), c[1].to_string(), c[2].to_string(), c[3].to_string(), c[4].to_string()),
    ).collect()
}

/// Every match of `(?m)%global(\s+)(\S+)(\s+)(\S+)$`, in order.
pub uninterp spec fn global_lines(text: Seq<char>) -> Seq<MacroMatch>;

/// `Regex::captures_iter` with `(?m)%global(\s+)(\S+)(\s+)(\S+)$`, giving
/// each match and its groups. A match is `%global` followed by its groups.
#[verifier::external_body]
fn global_captures(text: &str) -> (r: Vec<(String, String, String, String, String)>)
    ensures
        macro_matches_view(r) == global_lines(text@),
        macro_match_shape("%global"@, macro_matches_view(r)),
{
    regex::Regex::new(r"(?m)%global(\s+)(\S+)(\s+)(\S+)$").unwrap().captures_iter(text).map(
        |c| (c[0].to_string(), c[1].to_string(), c[2].to_string(), c[3].to_string(), c[4].to_string()),
    ).collect()
}

/// A match of a source line: the whole match and its three groups.
pub type SourceMatch = (Seq<char>, Seq<char>, Seq<char>, Seq<char>);

/// The view of the matches handed out by the wrapper.
pub open spec fn source_matches_view(v: Vec<(String, String, String, String)>) -> Seq<SourceMatch> {
    v@.map_values(|m: (String, String, String, String)| (m.0@, m.1@, m.2@, m.3@))
}

/// Every match of `Source(\d+):(\s+)([^\n]+)\n`, in order.
pub uninterp spec fn source_lines(text: Seq<char>) -> Seq<SourceMatch>;

/// `Regex::captures_iter` with `Source(\d+):(\s+)([^\n]+)\n`, giving each
/// match and its groups. A match is `Source`, group 1, a colon, groups 2 and
/// 3 and a newline.
#[verifier::external_body]
fn source_captures(text: &str) -> (r: Vec<(String, String, String, String)>)
    ensures
        source_matches_view(r) == source_lines(text@),
        forall|i: int|
            0 <= i < r@.len() ==> (#[trigger] source_matches_view(r)[i]).0 == "Source"@ + source_matches_view(r)[i].1
                + seq![':'] + source_matches_view(r)[i].2 + source_matches_view(r)[i].3 + seq!['\n'],
{
    regex::Regex::new(r"Source(\d+):(\s+)([^\n]+)\n").unwrap().captures_iter(text).map(
        |c| (c[0].to_string(), c[1].to_string(), c[2].to_string(), c[3].to_string()),
    ).collect()
}

/// `s` with every occurrence of `pat`, found from left to right without
/// overlap, replaced by `rep` (`str::replace`).
pub open spec fn replace_all(s: Seq<char>, pat: Seq<char>, rep: Seq<char>) -> Seq<char>
    decreases s.len(),
{
    if s.len() == 0 || pat.len() == 0 {
        s
    } else if pat.len() <= s.len() && s.take(pat.len() as int) == pat {
        rep + replace_all(s.skip(pat.len() as int), pat, rep)
    } else {
        seq![s[0]] + replace_all(s.skip(1), pat, rep)
    }
}

fn matches_at(s: &Vec<char>, pat: &Vec<char>, i: usize) -> (r: bool)
    requires
        i <= s.len(),
    ensures
        r == (pat@.len() <= s@.skip(i as int).len() && s@.skip(i as int).take(pat@.len() as int) == pat@),
{
    if pat.len() > s.len() - i {
        return false;
    }
    let mut j: usize = 0;
    while j < pat.len()
        invariant
            j <= pat.len(),
            i + pat.len() <= s.len(),
            forall|k: int| 0 <= k < j ==> s@[i + k] == pat@[k],
        decreases pat.len() - j,
    {
        if s[i + j] != pat[j] {
            assert(s@.skip(i as int).take(pat@.len() as int)[j as int] != pat@[j as int]);
            return false;
        }
        j += 1;
    }
    assert(s@.skip(i as int).take(pat@.len() as int) =~= pat@);
    true
}

/// `s` with every occurrence of `pat` replaced by `rep`.
pub fn replace_all_exec(s: &str, pat: &str, rep: &str) -> (r: String)
    requires
        pat@.len() > 0,
    ensures
        r@ == replace_all(s@, pat@, rep@),
{
    let sc = chars_of(s);
    let pc = chars_of(pat);
    let rc = chars_of(rep);
    let mut out: Vec<char> = Vec::new();
    let mut i: usize = 0;
    assert(sc@.skip(0) =~= sc@);
    assert(out@ + replace_all(sc@, pc@, rc@) =~= replace_all(sc@, pc@, rc@));
    while i < sc.len()
        invariant
            i <= sc.len(),
            pc@ == pat@,
            pc@.len() > 0,
            rc@ == rep@,
            out@ + replace_all(sc@.skip(i as int), pc@, rc@) == replace_all(sc@, pc@, rc@),
        decreases sc.len() - i,
    {
        let ghost rest = sc@.skip(i as int);
        if matches_at(&sc, &pc, i) {
            assert(rest.skip(pc@.len() as int) =~= sc@.skip(i + pc@.len()));
            append_chars(&mut out, &rc);
            assert(out@ + replace_all(sc@.skip(i + pc@.len()), pc@, rc@) =~= replace_all(sc@, pc@, rc@));
            i += pc.len();
        } else {
            assert(rest.skip(1) =~= sc@.skip(i + 1));
            assert(rest[0] == sc@[i as int]);
            out.push(sc[i]);
            assert(out@ + replace_all(sc@.skip(i + 1), pc@, rc@) =~= replace_all(sc@, pc@, rc@));
            i += 1;
        }
    }
    assert(sc@.skip(i as int) =~= Seq::<char>::empty());
    assert(out@ =~= replace_all(sc@, pc@, rc@));
    string_of(&out)
}

/// The index of the first macro match from `i` on that defines `name`.
pub open spec fn first_named(ms: Seq<MacroMatch>, name: Seq<char>, i: int) -> Option<int>
    decreases ms.len() - i,
{
    if i < 0 || i >= ms.len() {
        None
    } else if ms[i].2 == name {
        Some(i)
    } else {
        first_named(ms, name, i + 1)
    }
}

/// The text after the first definition of `name` among the matches is given
/// the value `val`: each occurrence of that definition's text becomes the
/// keyword, its spacing, `name`, its spacing and `val`. `None` when no match
/// defines `name`.
pub open spec fn macro_edit(f: Seq<char>, ms: Seq<MacroMatch>, kw: Seq<char>, name: Seq<char>, val: Seq<char>) -> Option<
    Seq<char>,
> {
    match first_named(ms, name, 0) {
        Some(i) => Some(replace_all(f, ms[i].0, kw + ms[i].1 + name + ms[i].3 + val)),
        None => None,
    }
}

/// Gives the macro `name` the value `val` in the text `f`, whose macro
/// definitions (with keyword `kw`) are `matches`.
pub fn edit_macro(
    f: &str,
    matches: &Vec<(String, String, String, String, String)>,
    kw: &str,
    name: &str,
    val: &str,
) -> (r: Option<String>)
    requires
        macro_match_shape(kw@, macro_matches_view(*matches)),
        kw@.len() > 0,
    ensures
        match r {
            Some(s) => macro_edit(f@, macro_matches_view(*matches), kw@, name@, val@) == Some(s@),
            None => macro_edit(f@, macro_matches_view(*matches), kw@, name@, val@) is None,
        },
{
    let ghost ms = macro_matches_view(*matches);
    let mut i: usize = 0;
    while i < matches.len()
        invariant
            i <= matches.len(),
            ms == macro_matches_view(*matches),
            macro_match_shape(kw@, ms),
            kw@.len() > 0,
            first_named(ms, name@, 0) == first_named(ms, name@, i as int),
        decreases matches.len() - i,
    {
        assert(ms[i as int] == (matches@[i as int].0@, matches@[i as int].1@, matches@[i as int].2@, matches@[i as int].3@, matches@[i as int].4@));
        if crate::text::chars_eq(&chars_of(matches[i].2.as_str()), &chars_of(name)) {
            let mut v = chars_of(kw);
            append_chars(&mut v, &chars_of(matches[i].1.as_str()));
            append_chars(&mut v, &chars_of(name));
            append_chars(&mut v, &chars_of(matches[i].3.as_str()));
            append_chars(&mut v, &chars_of(val));
            let rep = string_of(&v);
            assert(rep@ =~= kw@ + ms[i as int].1 + name@ + ms[i as int].3 + val@);
            assert(ms[i as int].0.len() > 0) by {
                assert(ms[i as int].0 == kw@ + ms[i as int].1 + ms[i as int].2 + ms[i as int].3 + ms[i as int].4);
            }
            return Some(replace_all_exec(f, matches[i].0.as_str(), rep.as_str()));
        }
        i += 1;
    }
    None
}

/// The index of the last source match before `n` numbered `num`.
pub open spec fn last_numbered(ms: Seq<SourceMatch>, num: Seq<char>, n: int) -> Option<int>
    decreases n,
{
    if n <= 0 || n > ms.len() {
        None
    } else if ms[n - 1].1 == num {
        Some(n - 1)
    } else {
        last_numbered(ms, num, n - 1)
    }
}

/// The text after the last source line numbered `num` is pointed at `p`:
/// each occurrence of that line becomes `Source<num>:`, its spacing, `p` and
/// a newline. `None` when no source line has that number.
pub open spec fn source_edit(f: Seq<char>, ms: Seq<SourceMatch>, num: Seq<char>, p: Seq<char>) -> Option<Seq<char>> {
    match last_numbered(ms, num, ms.len() as int) {
        Some(k) => Some(replace_all(f, ms[k].0, "Source"@ + num + seq![':'] + ms[k].2 + p + seq!['\n'])),
        None => None,
    }
}

/// What the search for a source number finds below `n`: nothing when no
/// match there carries that number, else a match that carries it with none
/// after it (below `n`) that does.
proof fn lemma_last_numbered(ms: Seq<SourceMatch>, num: Seq<char>, n: int)
    requires
        0 <= n <= ms.len(),
    ensures
        match last_numbered(ms, num, n) {
            None => forall|k: int| 0 <= k < n ==> (#[trigger] ms[k]).1 != num,
            Some(k) => 0 <= k < n && ms[k].1 == num && forall|j: int| k < j < n ==> (#[trigger] ms[j]).1 != num,
        },
    decreases n,
{
    if n > 0 {
        lemma_last_numbered(ms, num, n - 1);
    }
}

/// Editing source `num` touches exactly the source line whose number is
/// `num`, written the same way: there is none when no source line carries
/// that number, and otherwise the line rewritten is the last one that
/// carries it, every occurrence of it becoming `Source<num>:`, its spacing,
/// `p` and a newline. A line with another number, `Source10:` for source 1
/// among them, is never the one chosen.
pub proof fn law_source_edit_number(f: Seq<char>, ms: Seq<SourceMatch>, num: Seq<char>, p: Seq<char>)
    ensures
        source_edit(f, ms, num, p) is None <==> forall|k: int| 0 <= k < ms.len() ==> (#[trigger] ms[k]).1 != num,
        source_edit(f, ms, num, p) is Some ==> exists|k: int| {
            &&& 0 <= k < ms.len()
            &&& (#[trigger] ms[k]).1 == num
            &&& forall|j: int| k < j < ms.len() ==> (#[trigger] ms[j]).1 != num
            &&& source_edit(f, ms, num, p) == Some(replace_all(f, ms[k].0, "Source"@ + num + seq![':'] + ms[k].2 + p + seq!['\n']))
        },
{
    lemma_last_numbered(ms, num, ms.len() as int);
    match last_numbered(ms, num, ms.len() as int) {
        Some(k) => {
            assert(ms[k].1 == num);
        },
        None => {},
    }
}

/// Points the source numbered `num` (in decimal) at `p` in the text `f`,
/// whose source lines are `matches`.
pub fn edit_source(f: &str, matches: &Vec<(String, String, String, String)>, num: &str, p: &str) -> (r: Option<String>)
    requires
        forall|i: int|
            0 <= i < matches@.len() ==> (#[trigger] source_matches_view(*matches)[i]).0.len() > 0,
    ensures
        match r {
            Some(s) => source_edit(f@, source_matches_view(*matches), num@, p@) == Some(s@),
            None => source_edit(f@, source_matches_view(*matches), num@, p@) is None,
        },
{
    let ghost ms = source_matches_view(*matches);
    let mut n: usize = matches.len();
    while n > 0
        invariant
            n <= matches.len(),
            ms == source_matches_view(*matches),
            forall|j: int| 0 <= j < matches@.len() ==> (#[trigger] source_matches_view(*matches)[j]).0.len() > 0,
            last_numbered(ms, num@, ms.len() as int) == last_numbered(ms, num@, n as int),
        decreases n,
    {
        let k = n - 1;
        assert(ms[k as int] == (matches@[k as int].0@, matches@[k as int].1@, matches@[k as int].2@, matches@[k as int].3@));
        if crate::text::chars_eq(&chars_of(matches[k].1.as_str()), &chars_of(num)) {
            let mut v = chars_of("Source");
            append_chars(&mut v, &chars_of(num));
            v.push(':');
            append_chars(&mut v, &chars_of(matches[k].2.as_str()));
            append_chars(&mut v, &chars_of(p));
            v.push('\n');
            let rep = string_of(&v);
            assert(rep@ =~= "Source"@ + num@ + seq![':'] + ms[k as int].2 + p@ + seq!['\n']);
            assert(ms[k as int].0.len() > 0);
            return Some(replace_all_exec(f, matches[k].0.as_str(), rep.as_str()));
        }
        n = k;
    }
    None
}

/// A number in decimal, with a minus sign when negative (`to_string`).
pub open spec fn signed_decimal(i: int) -> Seq<char> {
    if i < 0 {
        seq!['-'] + decimal((-i) as nat)
    } else {
        decimal(i as nat)
    }
}

fn format_i64(i: i64) -> (r: String)
    ensures
        r@ == signed_decimal(i as int),
{
    if i < 0 {
        let m: u64 = (-(i as i128)) as u64;
        let mut v: Vec<char> = Vec::new();
        v.push('-');
        append_chars(&mut v, &format_decimal_u64(m));
        assert(v@ =~= signed_decimal(i as int));
        string_of(&v)
    } else {
        string_of(&format_decimal_u64(i as u64))
    }
}

/// The release line of `f` set to `rel` followed by `%{?dist}`, or `None`
/// when `f` has no release line.
pub open spec fn release_edit(f: Seq<char>, rel: Seq<char>) -> Option<Seq<char>> {
    match release_line(f) {
        Some((ws, _)) => Some(release_replaced(f, "Release:"@ + ws + rel + "%{?dist}"@)),
        None => None,
    }
}

/// A spec file being edited by an update script.
pub struct RPMSpec {
    /// The project's name
    pub name: String,
    /// The update script
    pub chkupdate: String,
    /// The spec file's path
    pub spec: String,
    /// The spec file's text
    pub f: String,
    /// Whether the text was changed
    pub changed: bool,
}

/// `No `%<kw> <name>` in spec`.
pub open spec fn no_macro_msg(kw: Seq<char>, name: Seq<char>) -> Seq<char> {
    "No `"@ + kw + seq![' '] + name + "` in spec"@
}

impl RPMSpec {
    /// A spec file of the project `name` with the text `f`, unchanged so far.
    pub fn new(name: String, chkupdate: String, spec: String, f: String) -> (s: RPMSpec)
        ensures
            s.name == name,
            s.chkupdate == chkupdate,
            s.spec == spec,
            s.f == f,
            !s.changed,
    {
        RPMSpec { name, chkupdate, spec, f, changed: false }
    }

    /// Sets the release to `1`.
    pub fn reset_release(&mut self) -> (r: Result<(), String>)
        ensures
            match release_edit(old(self).f@, "1"@) {
                Some(nf) => r is Ok && final(self).f@ == nf && final(self).changed,
                None => r is Err && r->Err_0@ == "No preamble in spec"@ && final(self).f == old(self).f
                    && final(self).changed == old(self).changed,
            },
            final(self).name == old(self).name,
            final(self).chkupdate == old(self).chkupdate,
            final(self).spec == old(self).spec,
    {
        self.release("1")
    }

    /// Sets the release to `rel` followed by `%{?dist}`.
    pub fn release(&mut self, rel: &str) -> (r: Result<(), String>)
        ensures
            match release_edit(old(self).f@, rel@) {
                Some(nf) => r is Ok && final(self).f@ == nf && final(self).changed,
                None => r is Err && r->Err_0@ == "No preamble in spec"@ && final(self).f == old(self).f
                    && final(self).changed == old(self).changed,
            },
            final(self).name == old(self).name,
            final(self).chkupdate == old(self).chkupdate,
            final(self).spec == old(self).spec,
    {
        match release_captures(self.f.as_str()) {
            Some((ws, _)) => {
                let mut v = chars_of("Release:");
                append_chars(&mut v, &chars_of(ws.as_str()));
                append_chars(&mut v, &chars_of(rel));
                append_chars(&mut v, &chars_of("%{?dist}"));
                let rep = string_of(&v);
                assert(rep@ =~= "Release:"@ + ws@ + rel@ + "%{?dist}"@);
                self.f = replace_release(self.f.as_str(), rep.as_str());
                self.changed = true;
                Ok(())
            },
            None => Err("No preamble in spec".to_owned()),
        }
    }

    /// Sets the version to `ver`; when it differs from the one in the file,
    /// the release is then reset to `1`.
    pub fn version(&mut self, ver: &str) -> (r: Result<(), String>)
        ensures
            match version_line(old(self).f@) {
                None => r is Err && r->Err_0@ == "No version preamble in spec"@ && final(self).f == old(self).f
                    && final(self).changed == old(self).changed,
                Some((ws, cur)) => if cur == ver@ {
                    r is Ok && final(self).f == old(self).f && final(self).changed == old(self).changed
                } else {
                    let f1 = version_replaced(old(self).f@, "Version:"@ + ws + ver@ + seq!['\n']);
                    match release_edit(f1, "1"@) {
                        Some(nf) => r is Ok && final(self).f@ == nf && final(self).changed,
                        None => r is Err && r->Err_0@ == "No preamble in spec"@ && final(self).f@ == f1
                            && final(self).changed == old(self).changed,
                    }
                },
            },
            final(self).name == old(self).name,
            final(self).chkupdate == old(self).chkupdate,
            final(self).spec == old(self).spec,
    {
        match version_captures(self.f.as_str()) {
            None => Err("No version preamble in spec".to_owned()),
            Some((ws, cur)) => {
                if !crate::text::chars_eq(&chars_of(ver), &chars_of(cur.as_str())) {
                    let mut v = chars_of("Version:");
                    append_chars(&mut v, &chars_of(ws.as_str()));
                    append_chars(&mut v, &chars_of(ver));
                    v.push('\n');
                    let rep = string_of(&v);
                    assert(rep@ =~= "Version:"@ + ws@ + ver@ + seq!['\n']);
                    self.f = replace_version(self.f.as_str(), rep.as_str());
                    self.reset_release()?;
                }
                Ok(())
            },
        }
    }

    /// Gives the `%define` of `name` the value `val`.
    pub fn define(&mut self, name: &str, val: &str) -> (r: Result<(), String>)
        ensures
            match macro_edit(old(self).f@, define_lines(old(self).f@), "%define"@, name@, val@) {
                Some(nf) => r is Ok && final(self).f@ == nf && final(self).changed,
                None => r is Err && r->Err_0@ == no_macro_msg("%define"@, name@) && final(self).f == old(self).f
                    && final(self).changed == old(self).changed,
            },
            final(self).name == old(self).name,
            final(self).chkupdate == old(self).chkupdate,
            final(self).spec == old(self).spec,
    {
        let ms = define_captures(self.f.as_str());
        proof {
            reveal_strlit("%define");
        }
        match edit_macro(self.f.as_str(), &ms, "%define", name, val) {
            Some(nf) => {
                self.f = nf;
                self.changed = true;
                Ok(())
            },
            None => Err(no_macro_message("%define", name)),
        }
    }

    /// Gives the `%global` of `name` the value `val`.
    pub fn global(&mut self, name: &str, val: &str) -> (r: Result<(), String>)
        ensures
            match macro_edit(old(self).f@, global_lines(old(self).f@), "%global"@, name@, val@) {
                Some(nf) => r is Ok && final(self).f@ == nf && final(self).changed,
                None => r is Err && r->Err_0@ == no_macro_msg("%global"@, name@) && final(self).f == old(self).f
                    && final(self).changed == old(self).changed,
            },
            final(self).name == old(self).name,
            final(self).chkupdate == old(self).chkupdate,
            final(self).spec == old(self).spec,
    {
        let ms = global_captures(self.f.as_str());
        proof {
            reveal_strlit("%global");
        }
        match edit_macro(self.f.as_str(), &ms, "%global", name, val) {
            Some(nf) => {
                self.f = nf;
                self.changed = true;
                Ok(())
            },
            None => Err(no_macro_message("%global", name)),
        }
    }

    /// Points the source numbered `i` at `p`; the last source line with that
    /// number is the one changed.
    pub fn source(&mut self, i: i64, p: &str) -> (r: Result<(), String>)
        ensures
            match source_edit(old(self).f@, source_lines(old(self).f@), signed_decimal(i as int), p@) {
                Some(nf) => r is Ok && final(self).f@ == nf && final(self).changed,
                None => r is Err && r->Err_0@ == "No source preamble in spec"@ && final(self).f == old(self).f
                    && final(self).changed == old(self).changed,
            },
            final(self).name == old(self).name,
            final(self).chkupdate == old(self).chkupdate,
            final(self).spec == old(self).spec,
    {
        let ms = source_captures(self.f.as_str());
        let num = format_i64(i);
        proof {
            reveal_strlit("Source");
            assert forall|k: int| 0 <= k < ms@.len() implies (#[trigger] source_matches_view(ms)[k]).0.len() > 0 by {
                assert(source_matches_view(ms)[k].0 == "Source"@ + source_matches_view(ms)[k].1 + seq![':']
                    + source_matches_view(ms)[k].2 + source_matches_view(ms)[k].3 + seq!['\n']);
            }
        }
        match edit_source(self.f.as_str(), &ms, num.as_str(), p) {
            Some(nf) => {
                self.f = nf;
                self.changed = true;
                Ok(())
            },
            None => Err("No source preamble in spec".to_owned()),
        }
    }

    /// The text of the spec file.
    pub fn get(&self) -> (r: String)
        ensures
            r@ == self.f@,
    {
        self.f.clone()
    }

    /// Replaces the text of the spec file.
    pub fn set(&mut self, ff: String)
        ensures
            final(self).f == ff,
            final(self).changed,
            final(self).name == old(self).name,
            final(self).chkupdate == old(self).chkupdate,
            final(self).spec == old(self).spec,
    {
        self.changed = true;
        self.f = ff;
    }
}

fn no_macro_message(kw: &str, name: &str) -> (r: String)
    ensures
        r@ == no_macro_msg(kw@, name@),
{
    let mut v = chars_of("No `");
    append_chars(&mut v, &chars_of(kw));
    v.push(' ');
    append_chars(&mut v, &chars_of(name));
    append_chars(&mut v, &chars_of("` in spec"));
    assert(v@ =~= no_macro_msg(kw@, name@));
    string_of(&v)
}

} // verus!
