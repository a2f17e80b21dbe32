//! The `%files` and `%changelog` sections, parsed once the whole spec file
//! has been read.
use crate::rpmspec::model::{ChangelogDate, Changelog, Changelogs, RPMFile, RPMFileAttr, RPMFiles};
use crate::rpmspec::package::{verify_mod_of, ConfigFileMod, VerifyFileMod};
use crate::rpmspec::patterns::{
    changelog_captures, changelog_caps, changelog_date, changelog_match_view, file_captures, file_caps, file_match_view,
    parse_changelog_date, FileCap, FileMatch, ChangelogCap,
};
use crate::rpmspec::words::{split_char_exec, words_view};
use crate::rpmspec::macrospec::split_char;
use crate::text::{chars_of, copy_chars, opt_view, slice_chars, string_of, trim, trim_chars, trim_end, trim_end_chars};
use vstd::prelude::*;

verus! {

/// `str::parse::<u16>`: an optional `+` and at least one ASCII digit,
/// within `u16`.
pub open spec fn parse_u16(s: Seq<char>) -> Option<u16> {
    match crate::rpmspec::query::parse_u32(s) {
        Some(v) => if v <= 65535 { Some(v as u16) } else { None },
        None => None,
    }
}

/// A file's attribute as the contracts see it.
pub enum AttrView {
    Artifact,
    GhostFile,
    Config(ConfigFileMod),
    Dir,
    Doc,
    License,
    Verify(Seq<VerifyFileMod>),
    Docdir,
    Normal,
}

pub open spec fn attr_view(a: RPMFileAttr) -> AttrView {
    match a {
        RPMFileAttr::Artifact => AttrView::Artifact,
        RPMFileAttr::GhostFile => AttrView::GhostFile,
        RPMFileAttr::Config(c) => AttrView::Config(c),
        RPMFileAttr::Dir => AttrView::Dir,
        RPMFileAttr::Doc => AttrView::Doc,
        RPMFileAttr::License => AttrView::License,
        RPMFileAttr::Verify(v) => AttrView::Verify(v@),
        RPMFileAttr::Docdir => AttrView::Docdir,
        RPMFileAttr::Normal => AttrView::Normal,
    }
}

/// What a file entry holds: attribute, path, mode, user, group and
/// directory mode.
pub type FileView = (AttrView, Seq<char>, u16, Seq<char>, Seq<char>, u16);

pub open spec fn file_view(f: RPMFile) -> FileView {
    (attr_view(f.attr), f.path@, f.mode, f.user@, f.group@, f.dmode)
}

pub open spec fn files_view(v: Vec<RPMFile>) -> Seq<FileView> {
    v@.map_values(|f: RPMFile| file_view(f))
}

/// The defaults that `%defattr` sets: mode, user, group, directory mode.
pub type Defaults = (u16, Seq<char>, Seq<char>, u16);

pub open spec fn no_defaults() -> Defaults {
    (0u16, seq![], seq![], 0u16)
}

/// Whether `s` begins with `p`.
pub open spec fn begins(s: Seq<char>, p: Seq<char>) -> bool {
    p.len() <= s.len() && s.take(p.len() as int) == p
}

/// A mode argument: `-` for `dflt`, else a number within `u16`.
pub open spec fn read_mode(s: Seq<char>, dflt: u16) -> Option<u16> {
    if s == "-"@ {
        Some(dflt)
    } else {
        parse_u16(s)
    }
}

/// A user or group argument: `-` for `dflt`.
pub open spec fn name_or(s: Seq<char>, dflt: Seq<char>) -> Seq<char> {
    if s == "-"@ {
        dflt
    } else {
        s
    }
}

/// The arguments in brackets, split at `sep` and trimmed.
pub open spec fn arg_list(x: Seq<char>, sep: char) -> Seq<Seq<char>> {
    split_char(x, sep).map_values(|w: Seq<char>| trim(w))
}

/// `%defattr(mode, user, group[, dirmode])`: the new defaults (`-` stands
/// for none), or `None` when the line does not read.
pub open spec fn read_defattr(whole: Seq<char>) -> Option<Defaults> {
    let t = trim_end(whole.skip(9));
    if t.len() > 0 && t.last() == ')' {
        let parts = arg_list(t.drop_last(), ',');
        if parts.len() == 3 || parts.len() == 4 {
            let dm = if parts.len() == 4 { parts[3] } else { "-"@ };
            match read_mode(parts[0], 0u16) {
                Some(m) => match read_mode(dm, 0u16) {
                    Some(dmode) => Some((m, name_or(parts[1], seq![]), name_or(parts[2], seq![]), dmode)),
                    None => None,
                },
                None => None,
            }
        } else {
            None
        }
    } else {
        None
    }
}

/// Every setting, in the order of [`VerifyFileMod::all`].
pub open spec fn all_mods() -> Seq<VerifyFileMod> {
    seq![VerifyFileMod::Owner, VerifyFileMod::Group, VerifyFileMod::Mode, VerifyFileMod::Md5,
        VerifyFileMod::Size, VerifyFileMod::Maj, VerifyFileMod::Min, VerifyFileMod::Symlink, VerifyFileMod::Mtime,
        VerifyFileMod::Rdev]
}

/// The settings of `s` that `named` does not hold, in order.
pub open spec fn not_named(s: Seq<VerifyFileMod>, named: Seq<VerifyFileMod>) -> Seq<VerifyFileMod>
    decreases s.len(),
{
    if s.len() == 0 {
        seq![]
    } else if named.contains(s.last()) {
        not_named(s.drop_last(), named)
    } else {
        not_named(s.drop_last(), named).push(s.last())
    }
}

/// The settings of `%verify(...)`, its arguments split at spaces; with
/// `not` among them, every setting that is not named. `None` when an
/// argument names no setting.
pub open spec fn verify_list(x: Seq<char>) -> Option<Seq<VerifyFileMod>> {
    let mods = split_char(x, ' ').map_values(|w: Seq<char>| verify_mod_of(w));
    if exists|i: int| 0 <= i < mods.len() && (#[trigger] mods[i]) is Invalid {
        None
    } else if mods.contains(VerifyFileMod::Not) {
        Some(not_named(all_mods(), mods))
    } else {
        Some(mods)
    }
}

/// A directive without arguments (`%doc`, `%dir`, ...), with the space
/// after it trimmed.
pub open spec fn plain_directive(n: Seq<char>) -> Option<AttrView> {
    if n == "%artifact"@ {
        Some(AttrView::Artifact)
    } else if n == "%ghost"@ {
        Some(AttrView::GhostFile)
    } else if n == "%config"@ {
        Some(AttrView::Config(ConfigFileMod::Plain))
    } else if n == "%dir"@ {
        Some(AttrView::Dir)
    } else if n == "%doc"@ || n == "%readme"@ {
        Some(AttrView::Doc)
    } else if n == "%license"@ {
        Some(AttrView::License)
    } else if n == "%docdir"@ {
        Some(AttrView::Docdir)
    } else {
        None
    }
}

/// A file with the attribute and the current defaults.
pub open spec fn with_defaults(attr: AttrView, path: Seq<char>, d: Defaults) -> FileView {
    (attr, path, d.0, d.1, d.2, d.3)
}

/// What a match of the `%files` pattern on one line gives under the
/// defaults `d`: a file (or, for `%defattr`, none) and the defaults after
/// it; `None` when the line does not read.
pub open spec fn simple_line(c: FileCap, d: Defaults) -> Option<(Option<FileView>, Defaults)> {
    let whole = c.0;
    let path = c.3;
    if begins(whole, "%defattr("@) {
        match read_defattr(whole) {
            Some(nd) => Some((None, nd)),
            None => None,
        }
    } else {
        match c.1 {
            None => Some((Some(with_defaults(AttrView::Normal, path, d)), d)),
            Some(dn) => match c.2 {
                None => match plain_directive(trim_end(dn)) {
                    Some(at) => Some((Some(with_defaults(at, path, d)), d)),
                    None => None,
                },
                Some(a) => {
                    let x = a.subrange(1, a.len() - 1);
                    if begins(dn, "%attr("@) {
                        let parts = arg_list(x, ',');
                        if parts.len() >= 3 {
                            match read_mode(parts[0], d.0) {
                                Some(m) => Some((Some((AttrView::Normal, path, m, name_or(parts[1], d.1), name_or(parts[2], d.2), d.3)), d)),
                                None => None,
                            }
                        } else {
                            None
                        }
                    } else if begins(dn, "%verify("@) {
                        match verify_list(x) {
                            Some(vs) => Some((Some(with_defaults(AttrView::Verify(vs), path, d)), d)),
                            None => None,
                        }
                    } else if begins(dn, "%config("@) {
                        if x == "missingok"@ {
                            Some((Some(with_defaults(AttrView::Config(ConfigFileMod::MissingOK), path, d)), d))
                        } else if x == "noreplace"@ {
                            Some((Some(with_defaults(AttrView::Config(ConfigFileMod::NoReplace), path, d)), d))
                        } else {
                            None
                        }
                    } else {
                        None
                    }
                },
            },
        }
    }
}

/// The files of matches of the `%files` pattern, each read with
/// [`simple_line`], from the defaults `d`.
pub open spec fn simple_fold(caps: Seq<FileCap>, d: Defaults) -> Option<(Seq<FileView>, Defaults)>
    decreases caps.len(),
{
    if caps.len() == 0 {
        Some((seq![], d))
    } else {
        match simple_fold(caps.drop_last(), d) {
            None => None,
            Some((fs, d1)) => match simple_line(caps.last(), d1) {
                None => None,
                Some((Some(f), nd)) => Some((fs.push(f), nd)),
                Some((None, nd)) => Some((fs, nd)),
            },
        }
    }
}

/// Whether a match is a `%defattr(...)` line that the pattern's `\s+` ran
/// on into the next line: group 1 holds the `%defattr(...)`, group 3 the
/// text of the line after it.
pub open spec fn spanned_defattr(c: FileCap) -> bool {
    begins(c.0, "%defattr("@) && (c.1 matches Some(dn) && begins(dn, "%defattr("@))
}

/// What a match of the `%files` pattern over the whole section gives under
/// the defaults `d`: the files and the defaults after it. A `%defattr(...)`
/// that ran on into the next line sets the defaults, and the text of that
/// line is matched again on its own and read under them.
pub open spec fn file_line(c: FileCap, d: Defaults) -> Option<(Seq<FileView>, Defaults)> {
    if spanned_defattr(c) {
        match read_defattr(c.1->Some_0) {
            None => None,
            Some(nd) => simple_fold(file_caps(c.3), nd),
        }
    } else {
        match simple_line(c, d) {
            None => None,
            Some((Some(f), nd)) => Some((seq![f], nd)),
            Some((None, nd)) => Some((seq![], nd)),
        }
    }
}

/// The files of the matches and the defaults after them; `None` when a
/// line does not read.
pub open spec fn files_from(caps: Seq<FileCap>) -> Option<(Seq<FileView>, Defaults)>
    decreases caps.len(),
{
    if caps.len() == 0 {
        Some((seq![], no_defaults()))
    } else {
        match files_from(caps.drop_last()) {
            None => None,
            Some((fs, d)) => match file_line(caps.last(), d) {
                None => None,
                Some((fs2, nd)) => Some((fs + fs2, nd)),
            },
        }
    }
}

/// The files that a `%files` section lists: the `%files` pattern matched
/// over the whole section, each match read in turn.
pub open spec fn listed_files(raw: Seq<char>) -> Option<Seq<FileView>> {
    match files_from(file_caps(raw)) {
        Some((fs, _)) => Some(fs),
        None => None,
    }
}

proof fn lemma_simple_prefix_none(caps: Seq<FileCap>, d: Defaults, n: int)
    requires
        0 <= n <= caps.len(),
        simple_fold(caps.take(n), d) is None,
    ensures
        simple_fold(caps, d) is None,
    decreases caps.len() - n,
{
    if n < caps.len() {
        assert(caps.drop_last().take(n) =~= caps.take(n));
        lemma_simple_prefix_none(caps.drop_last(), d, n);
    } else {
        assert(caps.take(n) =~= caps);
    }
}

proof fn lemma_files_prefix_none(caps: Seq<FileCap>, n: int)
    requires
        0 <= n <= caps.len(),
        files_from(caps.take(n)) is None,
    ensures
        files_from(caps) is None,
    decreases caps.len() - n,
{
    if n < caps.len() {
        assert(caps.drop_last().take(n) =~= caps.take(n));
        lemma_files_prefix_none(caps.drop_last(), n);
    } else {
        assert(caps.take(n) =~= caps);
    }
}

fn is_lit(s: &[char], lit: &str) -> (r: bool)
    ensures
        r == (s@ == lit@),
{
    crate::text::chars_eq(s, &chars_of(lit))
}

fn read_mode_exec(s: &Vec<char>, dflt: u16) -> (r: Option<u16>)
    ensures
        r == read_mode(s@, dflt),
{
    if is_lit(s, "-") {
        return Some(dflt);
    }
    match crate::rpmspec::query::parse_u32_exec(s) {
        Some(v) => if v <= 65535 { Some(v as u16) } else { None },
        None => None,
    }
}

fn name_or_exec(s: &Vec<char>, dflt: &String) -> (r: String)
    ensures
        r@ == name_or(s@, dflt@),
{
    if is_lit(s, "-") {
        dflt.clone()
    } else {
        string_of(s)
    }
}

fn arg_list_exec(x: &Vec<char>, sep: char) -> (r: Vec<Vec<char>>)
    ensures
        words_view(r) == arg_list(x@, sep),
{
    let parts = split_char_exec(x, sep);
    let ghost want = arg_list(x@, sep);
    let mut out: Vec<Vec<char>> = Vec::new();
    let mut i: usize = 0;
    while i < parts.len()
        invariant
            i <= parts.len(),
            words_view(parts) == split_char(x@, sep),
            want == split_char(x@, sep).map_values(|w: Seq<char>| trim(w)),
            words_view(out) == want.take(i as int),
        decreases parts.len() - i,
    {
        let ghost before = words_view(out);
        let t = trim_chars(&parts[i]);
        out.push(t);
        assert(words_view(out) =~= before.push(t@));
        assert(want.take(i + 1) =~= want.take(i as int).push(want[i as int]));
        i += 1;
    }
    assert(want.take(parts.len() as int) =~= want);
    out
}

type DefaultsExec = (u16, String, String, u16);

pub open spec fn defaults_view(d: DefaultsExec) -> Defaults {
    (d.0, d.1@, d.2@, d.3)
}

fn read_defattr_exec(whole: &Vec<char>) -> (r: Option<DefaultsExec>)
    requires
        begins(whole@, "%defattr("@),
    ensures
        match r {
            Some(d) => read_defattr(whole@) == Some(defaults_view(d)),
            None => read_defattr(whole@) is None,
        },
{
    proof { reveal_strlit("%defattr("); }
    let rest = slice_chars(whole, 9, whole.len());
    assert(rest@ =~= whole@.skip(9));
    let t = trim_end_chars(&rest);
    if !(t.len() > 0 && t[t.len() - 1] == ')') {
        return None;
    }
    let inner = slice_chars(&t, 0, t.len() - 1);
    assert(inner@ =~= t@.drop_last());
    let parts = arg_list_exec(&inner, ',');
    if parts.len() != 3 && parts.len() != 4 {
        return None;
    }
    let dm = if parts.len() == 4 { copy_chars(&parts[3]) } else { chars_of("-") };
    let m = match read_mode_exec(&parts[0], 0) {
        Some(m) => m,
        None => {
            return None;
        },
    };
    let dmode = match read_mode_exec(&dm, 0) {
        Some(v) => v,
        None => {
            return None;
        },
    };
    let empty = String::new();
    let user = name_or_exec(&parts[1], &empty);
    let group = name_or_exec(&parts[2], &empty);
    Some((m, user, group, dmode))
}

fn mod_at(k: usize) -> (r: VerifyFileMod)
    requires
        k < 10,
    ensures
        r == all_mods()[k as int],
{
    if k == 0 {
        VerifyFileMod::Owner
    } else if k == 1 {
        VerifyFileMod::Group
    } else if k == 2 {
        VerifyFileMod::Mode
    } else if k == 3 {
        VerifyFileMod::Md5
    } else if k == 4 {
        VerifyFileMod::Size
    } else if k == 5 {
        VerifyFileMod::Maj
    } else if k == 6 {
        VerifyFileMod::Min
    } else if k == 7 {
        VerifyFileMod::Symlink
    } else if k == 8 {
        VerifyFileMod::Mtime
    } else {
        VerifyFileMod::Rdev
    }
}

fn mod_eq(a: &VerifyFileMod, b: &VerifyFileMod) -> (r: bool)
    requires
        !(*a is Invalid),
    ensures
        r == (*a == *b),
{
    match (a, b) {
        (VerifyFileMod::Owner, VerifyFileMod::Owner) => true,
        (VerifyFileMod::Group, VerifyFileMod::Group) => true,
        (VerifyFileMod::Mode, VerifyFileMod::Mode) => true,
        (VerifyFileMod::Md5, VerifyFileMod::Md5) => true,
        (VerifyFileMod::Size, VerifyFileMod::Size) => true,
        (VerifyFileMod::Maj, VerifyFileMod::Maj) => true,
        (VerifyFileMod::Min, VerifyFileMod::Min) => true,
        (VerifyFileMod::Symlink, VerifyFileMod::Symlink) => true,
        (VerifyFileMod::Mtime, VerifyFileMod::Mtime) => true,
        (VerifyFileMod::Rdev, VerifyFileMod::Rdev) => true,
        (VerifyFileMod::Not, VerifyFileMod::Not) => true,
        _ => false,
    }
}

fn has_mod(v: &Vec<VerifyFileMod>, m: &VerifyFileMod) -> (r: bool)
    requires
        !(*m is Invalid),
    ensures
        r == v@.contains(*m),
{
    let mut i: usize = 0;
    while i < v.len()
        invariant
            i <= v.len(),
            !(*m is Invalid),
            forall|j: int| 0 <= j < i ==> v@[j] != *m,
        decreases v.len() - i,
    {
        if mod_eq(m, &v[i]) {
            assert(v@[i as int] == *m);
            return true;
        }
        i += 1;
    }
    false
}

fn verify_list_exec(x: &Vec<char>) -> (r: Option<Vec<VerifyFileMod>>)
    ensures
        match r {
            Some(v) => verify_list(x@) == Some(v@),
            None => verify_list(x@) is None,
        },
{
    let words = split_char_exec(x, ' ');
    let ghost mods = split_char(x@, ' ').map_values(|w: Seq<char>| verify_mod_of(w));
    let mut vs: Vec<VerifyFileMod> = Vec::new();
    let mut i: usize = 0;
    while i < words.len()
        invariant
            i <= words.len(),
            words_view(words) == split_char(x@, ' '),
            mods == split_char(x@, ' ').map_values(|w: Seq<char>| verify_mod_of(w)),
            vs@ == mods.take(i as int),
            forall|j: int| 0 <= j < vs@.len() ==> !(#[trigger] vs@[j] is Invalid),
        decreases words.len() - i,
    {
        let m = VerifyFileMod::from_arg(string_of(&words[i]).as_str());
        assert(mods[i as int] == verify_mod_of(words@[i as int]@));
        if let VerifyFileMod::Invalid(_) = m {
            assert(mods[i as int] is Invalid);
            return None;
        }
        vs.push(m);
        assert(vs@ =~= mods.take(i + 1));
        i += 1;
    }
    assert(mods.take(words.len() as int) =~= mods);
    assert(vs@ == mods);
    assert(!exists|j: int| 0 <= j < mods.len() && (#[trigger] mods[j]) is Invalid);
    if !has_mod(&vs, &VerifyFileMod::Not) {
        return Some(vs);
    }
    let mut out: Vec<VerifyFileMod> = Vec::new();
    let mut k: usize = 0;
    while k < 10
        invariant
            k <= 10,
            vs@ == mods,
            out@ == not_named(all_mods().take(k as int), mods),
        decreases 10 - k,
    {
        let m = mod_at(k);
        assert(all_mods().take(k + 1).drop_last() =~= all_mods().take(k as int));
        if !has_mod(&vs, &m) {
            out.push(m);
        }
        k += 1;
    }
    assert(all_mods().take(10) =~= all_mods());
    Some(out)
}

fn plain_directive_exec(n: &Vec<char>) -> (r: Option<RPMFileAttr>)
    ensures
        match r {
            Some(a) => plain_directive(n@) == Some(attr_view(a)),
            None => plain_directive(n@) is None,
        },
{
    if is_lit(n, "%artifact") {
        Some(RPMFileAttr::Artifact)
    } else if is_lit(n, "%ghost") {
        Some(RPMFileAttr::GhostFile)
    } else if is_lit(n, "%config") {
        Some(RPMFileAttr::Config(ConfigFileMod::Plain))
    } else if is_lit(n, "%dir") {
        Some(RPMFileAttr::Dir)
    } else if is_lit(n, "%doc") || is_lit(n, "%readme") {
        Some(RPMFileAttr::Doc)
    } else if is_lit(n, "%license") {
        Some(RPMFileAttr::License)
    } else if is_lit(n, "%docdir") {
        Some(RPMFileAttr::Docdir)
    } else {
        None
    }
}

fn file_with(attr: RPMFileAttr, path: &String, d: &DefaultsExec) -> (f: RPMFile)
    ensures
        file_view(f) == with_defaults(attr_view(attr), path@, defaults_view(*d)),
{
    RPMFile { attr, path: path.clone(), mode: d.0, user: d.1.clone(), group: d.2.clone(), dmode: d.3 }
}

fn simple_line_exec(c: &FileMatch, d: &DefaultsExec) -> (r: Option<(Option<RPMFile>, DefaultsExec)>)
    requires
        c.args matches Some(a) ==> (c.directive is Some && a@.len() >= 3 && a@[0] == '(' && a@.last() == ')'),
    ensures
        match r {
            Some((f, nd)) => simple_line(file_match_view(*c), defaults_view(*d)) == Some((
                match f { Some(x) => Some(file_view(x)), None => None::<FileView> },
                defaults_view(nd),
            )),
            None => simple_line(file_match_view(*c), defaults_view(*d)) is None,
        },
{
    let keep = (d.0, d.1.clone(), d.2.clone(), d.3);
    assert(defaults_view(keep) == defaults_view(*d));
    let whole = chars_of(c.whole.as_str());
    if crate::text::starts_with(&whole, &chars_of("%defattr(")) {
        return match read_defattr_exec(&whole) {
            Some(nd) => Some((None, nd)),
            None => None,
        };
    }
    match &c.directive {
        None => Some((Some(file_with(RPMFileAttr::Normal, &c.path, d)), keep)),
        Some(dn) => {
            let dc = chars_of(dn.as_str());
            match &c.args {
                None => match plain_directive_exec(&trim_end_chars(&dc)) {
                    Some(at) => Some((Some(file_with(at, &c.path, d)), keep)),
                    None => None,
                },
                Some(a) => {
                    let ac = chars_of(a.as_str());
                    let x = slice_chars(&ac, 1, ac.len() - 1);
                    assert(x@ =~= a@.subrange(1, a@.len() - 1));
                    if crate::text::starts_with(&dc, &chars_of("%attr(")) {
                        let parts = arg_list_exec(&x, ',');
                        if parts.len() < 3 {
                            return None;
                        }
                        let m = match read_mode_exec(&parts[0], d.0) {
                            Some(m) => m,
                            None => {
                                return None;
                            },
                        };
                        let user = name_or_exec(&parts[1], &d.1);
                        let group = name_or_exec(&parts[2], &d.2);
                        let f = RPMFile { attr: RPMFileAttr::Normal, path: c.path.clone(), mode: m, user, group, dmode: d.3 };
                        Some((Some(f), keep))
                    } else if crate::text::starts_with(&dc, &chars_of("%verify(")) {
                        match verify_list_exec(&x) {
                            Some(vs) => Some((Some(file_with(RPMFileAttr::Verify(vs), &c.path, d)), keep)),
                            None => None,
                        }
                    } else if crate::text::starts_with(&dc, &chars_of("%config(")) {
                        if is_lit(&x, "missingok") {
                            Some((Some(file_with(RPMFileAttr::Config(ConfigFileMod::MissingOK), &c.path, d)), keep))
                        } else if is_lit(&x, "noreplace") {
                            Some((Some(file_with(RPMFileAttr::Config(ConfigFileMod::NoReplace), &c.path, d)), keep))
                        } else {
                            None
                        }
                    } else {
                        None
                    }
                },
            }
        },
    }
}

/// The args of every match hold `(`, something and `)`, under a directive.
pub open spec fn args_ok(caps: Seq<FileMatch>) -> bool {
    forall|j: int| 0 <= j < caps.len() ==> ((#[trigger] caps[j]).args matches Some(a) ==> (caps[j].directive is Some
        && a@.len() >= 3 && a@[0] == '(' && a@.last() == ')'))
}

fn simple_fold_exec(caps: &Vec<FileMatch>, d: DefaultsExec) -> (r: Option<(Vec<RPMFile>, DefaultsExec)>)
    requires
        args_ok(caps@),
    ensures
        match r {
            Some((fs, nd)) => simple_fold(caps@.map_values(|m: FileMatch| file_match_view(m)), defaults_view(d))
                == Some((files_view(fs), defaults_view(nd))),
            None => simple_fold(caps@.map_values(|m: FileMatch| file_match_view(m)), defaults_view(d)) is None,
        },
{
    let ghost cv = caps@.map_values(|m: FileMatch| file_match_view(m));
    let ghost d0 = defaults_view(d);
    let mut files: Vec<RPMFile> = Vec::new();
    let mut cur = d;
    let mut i: usize = 0;
    assert(cv.take(0) =~= Seq::<FileCap>::empty());
    assert(files_view(files) =~= Seq::<FileView>::empty());
    while i < caps.len()
        invariant
            i <= caps.len(),
            cv == caps@.map_values(|m: FileMatch| file_match_view(m)),
            args_ok(caps@),
            d0 == defaults_view(d),
            simple_fold(cv.take(i as int), d0) == Some((files_view(files), defaults_view(cur))),
        decreases caps.len() - i,
    {
        assert(cv.take(i + 1).drop_last() =~= cv.take(i as int));
        assert(cv.take(i + 1).last() == file_match_view(caps@[i as int]));
        match simple_line_exec(&caps[i], &cur) {
            None => {
                proof { lemma_simple_prefix_none(cv, d0, i + 1); }
                return None;
            },
            Some((f, nd)) => {
                match f {
                    Some(x) => {
                        let ghost before = files_view(files);
                        let ghost xv = file_view(x);
                        files.push(x);
                        assert(files_view(files) =~= before.push(xv));
                    },
                    None => {},
                }
                cur = nd;
            },
        }
        i += 1;
    }
    assert(cv.take(caps.len() as int) =~= cv);
    Some((files, cur))
}

fn file_line_exec(c: &FileMatch, d: &DefaultsExec) -> (r: Option<(Vec<RPMFile>, DefaultsExec)>)
    requires
        c.args matches Some(a) ==> (c.directive is Some && a@.len() >= 3 && a@[0] == '(' && a@.last() == ')'),
    ensures
        match r {
            Some((fs, nd)) => file_line(file_match_view(*c), defaults_view(*d)) == Some((files_view(fs), defaults_view(nd))),
            None => file_line(file_match_view(*c), defaults_view(*d)) is None,
        },
{
    let whole = chars_of(c.whole.as_str());
    let prefix = chars_of("%defattr(");
    if crate::text::starts_with(&whole, &prefix) {
        match &c.directive {
            Some(dn) => {
                let dc = chars_of(dn.as_str());
                if crate::text::starts_with(&dc, &prefix) {
                    return match read_defattr_exec(&dc) {
                        None => None,
                        Some(nd) => {
                            let next = file_captures(c.path.as_str());
                            simple_fold_exec(&next, nd)
                        },
                    };
                }
            },
            None => {},
        }
    }
    match simple_line_exec(c, d) {
        None => None,
        Some((f, nd)) => {
            let mut fs: Vec<RPMFile> = Vec::new();
            match f {
                Some(x) => {
                    let ghost xv = file_view(x);
                    fs.push(x);
                    assert(files_view(fs) =~= seq![xv]);
                },
                None => {
                    assert(files_view(fs) =~= Seq::<FileView>::empty());
                },
            }
            Some((fs, nd))
        },
    }
}

impl RPMFiles {
    /// Reads the lines of the `%files` sections in `raw`: one entry for
    /// each listed file, with its attribute (`%doc`, `%license`, `%dir`,
    /// `%ghost`, `%artifact`, `%docdir`, `%config[(...)]`, `%verify(...)`,
    /// `%attr(...)`) and the defaults of the `%defattr(...)` lines above
    /// it. Fails, leaving the entries as they were, on a line that does not
    /// read: an unknown directive or bad arguments.
    pub fn parse(&mut self) -> (r: Result<(), String>)
        ensures
            final(self).incl == old(self).incl,
            final(self).raw == old(self).raw,
            match listed_files(old(self).raw@) {
                Some(fs) => r is Ok && files_view(final(self).files) == fs,
                None => r is Err && final(self).files == old(self).files,
            },
    {
        let caps = file_captures(self.raw.as_str());
        let ghost cv = caps@.map_values(|m: FileMatch| file_match_view(m));
        let mut files: Vec<RPMFile> = Vec::new();
        let mut d: DefaultsExec = (0, String::new(), String::new(), 0);
        let mut i: usize = 0;
        assert(cv.take(0) =~= Seq::<FileCap>::empty());
        assert(files_view(files) =~= Seq::<FileView>::empty());
        assert(defaults_view(d) =~= no_defaults());
        while i < caps.len()
            invariant
                i <= caps.len(),
                cv == caps@.map_values(|m: FileMatch| file_match_view(m)),
                cv == file_caps(old(self).raw@),
                *self == *old(self),
                args_ok(caps@),
                files_from(cv.take(i as int)) == Some((files_view(files), defaults_view(d))),
            decreases caps.len() - i,
        {
            assert(cv.take(i + 1).drop_last() =~= cv.take(i as int));
            assert(cv.take(i + 1).last() == file_match_view(caps@[i as int]));
            match file_line_exec(&caps[i], &d) {
                None => {
                    proof { lemma_files_prefix_none(cv, i + 1); }
                    return Err("Cannot read a line of %files".to_owned());
                },
                Some((fs2, nd)) => {
                    let ghost before = files_view(files);
                    let ghost add = files_view(fs2);
                    let mut fs2 = fs2;
                    files.append(&mut fs2);
                    assert(files_view(files) =~= before + add);
                    d = nd;
                },
            }
            i += 1;
        }
        assert(cv.take(caps.len() as int) =~= cv);
        self.files = files;
        Ok(())
    }
}

/// What a changelog entry holds.
pub type ChangelogView = (ChangelogDate, Option<Seq<char>>, Seq<char>, Option<Seq<char>>, Seq<char>);

pub open spec fn changelog_view(c: Changelog) -> ChangelogView {
    (c.date, opt_view(c.version), c.maintainer@, opt_view(c.email), c.message@)
}

/// The entries of the matched changelog lines, if every date reads.
pub open spec fn changelog_entries(caps: Seq<ChangelogCap>) -> Option<Seq<ChangelogView>>
    decreases caps.len(),
{
    if caps.len() == 0 {
        Some(seq![])
    } else {
        match changelog_entries(caps.drop_last()) {
            None => None,
            Some(before) => {
                let c = caps.last();
                match changelog_date(c.0) {
                    None => None,
                    Some(d) => Some(before.push((d, c.3, c.1, c.2, trim(c.4)))),
                }
            },
        }
    }
}

proof fn lemma_entries_prefix_none(caps: Seq<ChangelogCap>, n: int)
    requires
        0 <= n <= caps.len(),
        changelog_entries(caps.take(n)) is None,
    ensures
        changelog_entries(caps) is None,
    decreases caps.len() - n,
{
    if n < caps.len() {
        assert(caps.drop_last().take(n) =~= caps.take(n));
        lemma_entries_prefix_none(caps.drop_last(), n);
    } else {
        assert(caps.take(n) =~= caps);
    }
}

impl Changelogs {
    /// Parses a `%changelog` section: one entry per `* date maintainer
    /// [<email>] [- version]` line with the lines below it as its message.
    /// Fails, leaving the entries as they were, when a date does not read.
    pub fn parse(&mut self) -> (r: Result<(), String>)
        ensures
            final(self).raw == old(self).raw,
            match changelog_entries(changelog_caps(old(self).raw@)) {
                Some(es) => r is Ok && final(self).changelogs@.map_values(|c: Changelog| changelog_view(c)) == es,
                None => r is Err && final(self).changelogs == old(self).changelogs,
            },
    {
        let caps = changelog_captures(self.raw.as_str());
        let ghost cv = caps@.map_values(|m: crate::rpmspec::patterns::ChangelogMatch| changelog_match_view(m));
        let mut out: Vec<Changelog> = Vec::new();
        let mut i: usize = 0;
        while i < caps.len()
            invariant
                i <= caps.len(),
                cv == caps@.map_values(|m: crate::rpmspec::patterns::ChangelogMatch| changelog_match_view(m)),
                cv == changelog_caps(old(self).raw@),
                *self == *old(self),
                changelog_entries(cv.take(i as int)) == Some(out@.map_values(|c: Changelog| changelog_view(c))),
            decreases caps.len() - i,
        {
            let c = &caps[i];
            assert(cv.take(i + 1).drop_last() =~= cv.take(i as int));
            assert(cv.take(i + 1).last() == changelog_match_view(caps@[i as int]));
            match parse_changelog_date(c.date.as_str()) {
                None => {
                    proof { lemma_entries_prefix_none(cv, i + 1); }
                    return Err("Cannot parse date in %changelog".to_owned());
                },
                Some(d) => {
                    let ghost before = out@.map_values(|c: Changelog| changelog_view(c));
                    let entry = Changelog {
                        date: d,
                        version: c.version.clone(),
                        maintainer: c.maintainer.clone(),
                        email: c.email.clone(),
                        message: string_of(&trim_chars(&chars_of(c.message.as_str()))),
                    };
                    let ghost ev = changelog_view(entry);
                    out.push(entry);
                    assert(out@.map_values(|c: Changelog| changelog_view(c)) =~= before.push(ev));
                },
            }
            i += 1;
        }
        assert(cv.take(caps.len() as int) =~= cv);
        self.changelogs = out;
        Ok(())
    }
}

} // verus!
