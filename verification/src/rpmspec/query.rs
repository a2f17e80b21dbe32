//! Dependency queries: the package lists of `Requires:`, `Provides:`,
//! `Recommends:` and the like.
use crate::rpmspec::model::{pkg_view, pkgs_view, Package, PkgView};
use crate::rpmspec::package::{cond_symbol, lemma_cond_symbol_injective, PkgQCond};
use crate::rpmspec::patterns::{pkgq_captures, pkgq_parts};
use crate::text::{chars_of, is_alphanumeric, slice_chars, string_of, trim, trim_chars, unicode_alnum};
use vstd::prelude::*;

verus! {

/// A character allowed in a package name: alphanumeric, `_` or `-`.
pub open spec fn pkg_name_char(c: char) -> bool {
    unicode_alnum(c) || c == '_' || c == '-'
}

fn pkg_name_char_exec(c: char) -> (r: bool)
    ensures
        r == pkg_name_char(c),
{
    is_alphanumeric(c) || c == '_' || c == '-'
}

/// A package with only a name.
pub open spec fn bare_pkg(name: Seq<char>) -> PkgView {
    (name, None, None, None, PkgQCond::Eq)
}

/// Reading a simple query from `i`, with the names found so far and the
/// name being read: the names found and whether every character was valid.
pub open spec fn simple_query_from(q: Seq<char>, i: int, names: Seq<Seq<char>>, last: Seq<char>) -> (Seq<Seq<char>>, bool)
    decreases q.len() - i,
{
    if i < 0 || i >= q.len() {
        (if last.len() > 0 { names.push(last) } else { names }, true)
    } else {
        let ch = q[i];
        if ch == ' ' || ch == ',' {
            if last.len() > 0 {
                simple_query_from(q, i + 1, names.push(last), seq![])
            } else {
                simple_query_from(q, i + 1, names, last)
            }
        } else if !pkg_name_char(ch) {
            (names, false)
        } else {
            simple_query_from(q, i + 1, names, last.push(ch))
        }
    }
}

/// The names of a simple query (names separated by spaces or commas) and
/// whether it is valid; on an invalid character the names before it are
/// still found.
pub open spec fn simple_query(q: Seq<char>) -> (Seq<Seq<char>>, bool) {
    simple_query_from(trim(q), 0, seq![], seq![])
}

/// The value of an unsigned decimal number (`str::parse::<u32>`): an
/// optional `+` and at least one ASCII digit, within `u32`.
pub open spec fn digits_value(s: Seq<char>) -> Option<nat>
    decreases s.len(),
{
    if s.len() == 0 {
        None
    } else if !('0' <= s.last() && s.last() <= '9') {
        None
    } else {
        let d = (s.last() as int - '0' as int) as nat;
        if s.len() == 1 {
            Some(d)
        } else {
            match digits_value(s.drop_last()) {
                Some(v) => if v * 10 + d <= u32::MAX { Some(v * 10 + d) } else { None },
                None => None,
            }
        }
    }
}

pub open spec fn parse_u32(s: Seq<char>) -> Option<u32> {
    let d = if s.len() > 0 && s[0] == '+' { s.drop_first() } else { s };
    match digits_value(d) {
        Some(v) => Some(v as u32),
        None => None,
    }
}

proof fn lemma_digits_prefix_bad(s: Seq<char>, n: int)
    requires
        0 < n <= s.len(),
        digits_value(s.take(n)) is None,
    ensures
        digits_value(s) is None,
    decreases s.len() - n,
{
    if n < s.len() {
        assert(s.drop_last().take(n) =~= s.take(n));
        lemma_digits_prefix_bad(s.drop_last(), n);
    } else {
        assert(s.take(n) =~= s);
    }
}

/// `str::parse::<u32>`.
pub fn parse_u32_exec(s: &[char]) -> (r: Option<u32>)
    ensures
        r == parse_u32(s@),
{
    let start: usize = if s.len() > 0 && s[0] == '+' { 1 } else { 0 };
    let ghost d = if s@.len() > 0 && s@[0] == '+' { s@.drop_first() } else { s@ };
    assert(d =~= s@.skip(start as int));
    if start >= s.len() {
        return None;
    }
    let mut v: u32 = 0;
    let mut i = start;
    while i < s.len()
        invariant
            start < s.len(),
            start <= i <= s.len(),
            d == s@.skip(start as int),
            d == (if s@.len() > 0 && s@[0] == '+' { s@.drop_first() } else { s@ }),
            i > start ==> digits_value(d.take(i - start)) == Some(v as nat),
        decreases s.len() - i,
    {
        let c = s[i];
        let ghost t = d.take(i + 1 - start);
        assert(t.last() == c);
        assert(t.drop_last() =~= d.take(i - start));
        if !('0' <= c && c <= '9') {
            proof { lemma_digits_prefix_bad(d, i + 1 - start); }
            return None;
        }
        let dig: u32 = (c as u32) - ('0' as u32);
        if i > start {
            if v > 429496729 || (v == 429496729 && dig > 5) {
                proof { lemma_digits_prefix_bad(d, i + 1 - start); }
                return None;
            }
            v = v * 10 + dig;
        } else {
            v = dig;
        }
        i += 1;
    }
    assert(d.take(s.len() - start) =~= d);
    Some(v)
}

/// The condition that follows a name directly: a match of the condition
/// pattern that starts where the name ends.
pub open spec fn cond_at_start(rest: Seq<char>) -> Option<(Seq<char>, Option<Seq<char>>, Seq<char>, Seq<char>, Seq<char>)> {
    match pkgq_parts(rest) {
        Some((at, c, e, v, rel, more)) => if at == 0 { Some((c, e, v, rel, more)) } else { None },
        None => None,
    }
}

/// What `Package::add_query` finds in a query: the dependencies read and
/// whether the query is valid. Each name is read up to the first character
/// that cannot be in a name; that character must be a space or a comma
/// (else the query is invalid). A condition (` >= [epoch:]version-release`)
/// right after the name belongs to it; an epoch that does not fit in a
/// `u32` makes the query invalid. The dependencies before the point where
/// the query turns invalid are read all the same.
pub open spec fn query_pkgs(q: Seq<char>) -> (Seq<PkgView>, bool)
    decreases q.len(),
{
    let t = trim(q);
    if t.len() == 0 {
        (seq![], true)
    } else {
        match first_non_name(t, 0) {
            None => (seq![bare_pkg(t)], true),
            Some(i) => if t[i] != ' ' && t[i] != ',' {
                (seq![], false)
            } else {
                let name = t.take(i);
                let rest = t.skip(i);
                match cond_at_start(rest) {
                    None => {
                        let named = if name.len() > 0 { seq![bare_pkg(name)] } else { seq![] };
                        let next = trim_start_sep(rest);
                        if next.len() < q.len() {
                            let (tail, ok) = query_pkgs(next);
                            (named + tail, ok)
                        } else {
                            (named, true)
                        }
                    },
                    Some((c, e, v, rel, more)) => {
                        let epoch = match e {
                            None => Some(None::<u32>),
                            Some(ep) => match parse_u32(ep.drop_last()) {
                                Some(n) => Some(Some(n)),
                                None => None,
                            },
                        };
                        match epoch {
                            None => (seq![], false),
                            Some(ep) => {
                                let p = (name, Some(v), Some(rel), ep, cond_of(c));
                                let next = trim_start_sep(more);
                                if next.len() < q.len() {
                                    let (tail, ok) = query_pkgs(next);
                                    (seq![p] + tail, ok)
                                } else {
                                    (seq![p], true)
                                }
                            },
                        }
                    },
                }
            },
        }
    }
}

/// The condition written as `c`.
pub open spec fn cond_of(c: Seq<char>) -> PkgQCond {
    choose|k: PkgQCond| cond_symbol(k) == c
}

/// The index of the first character from `i` that cannot be in a package
/// name.
pub open spec fn first_non_name(s: Seq<char>, i: int) -> Option<int>
    decreases s.len() - i,
{
    if i < 0 || i >= s.len() {
        None
    } else if !pkg_name_char(s[i]) {
        Some(i)
    } else {
        first_non_name(s, i + 1)
    }
}

/// `s` without leading spaces and commas.
pub open spec fn trim_start_sep(s: Seq<char>) -> Seq<char>
    decreases s.len(),
{
    if s.len() > 0 && (s[0] == ' ' || s[0] == ',') { trim_start_sep(s.drop_first()) } else { s }
}

proof fn lemma_trim_start_sep_len(s: Seq<char>)
    ensures
        trim_start_sep(s).len() <= s.len(),
    decreases s.len(),
{
    if s.len() > 0 && (s[0] == ' ' || s[0] == ',') {
        lemma_trim_start_sep_len(s.drop_first());
    }
}

fn trim_start_sep_exec(s: &[char]) -> (r: Vec<char>)
    ensures
        r@ == trim_start_sep(s@),
        r@.len() <= s@.len(),
{
    let mut i: usize = 0;
    assert(s@.skip(0) =~= s@);
    while i < s.len() && (s[i] == ' ' || s[i] == ',')
        invariant
            i <= s.len(),
            trim_start_sep(s@) == trim_start_sep(s@.skip(i as int)),
        decreases s.len() - i,
    {
        assert(s@.skip(i as int).drop_first() =~= s@.skip(i + 1));
        i += 1;
    }
    let r = slice_chars(s, i, s.len());
    assert(r@ =~= s@.skip(i as int));
    r
}

fn first_non_name_exec(s: &[char]) -> (r: Option<usize>)
    ensures
        match r {
            Some(i) => first_non_name(s@, 0) == Some(i as int) && i < s@.len(),
            None => first_non_name(s@, 0) is None,
        },
{
    let mut i: usize = 0;
    while i < s.len()
        invariant
            i <= s.len(),
            first_non_name(s@, 0) == first_non_name(s@, i as int),
        decreases s.len() - i,
    {
        if !pkg_name_char_exec(s[i]) {
            return Some(i);
        }
        i += 1;
    }
    None
}

fn push_pkg(pkgs: &mut Vec<Package>, p: Package)
    ensures
        pkgs_view(*final(pkgs)) == pkgs_view(*old(pkgs)).push(pkg_view(p)),
{
    let ghost before = pkgs_view(*pkgs);
    let ghost pv = pkg_view(p);
    pkgs.push(p);
    assert(pkgs_view(*pkgs) =~= before.push(pv));
}

/// The dependencies that a list of names adds.
pub open spec fn bare_pkgs(names: Seq<Seq<char>>) -> Seq<PkgView> {
    names.map_values(|n: Seq<char>| bare_pkg(n))
}

impl Package {
    /// Parses a simple query, i.e. packages specified without conditionals
    /// and versions, separated by spaces or commas (as in `Recommends:`).
    ///
    /// An error is returned if and only if there is a character that is not
    /// alphanumeric, a space, a comma, a dash or an underscore; the names
    /// before it are added all the same.
    pub fn add_simple_query(pkgs: &mut Vec<Package>, query: &str) -> (r: Result<(), String>)
        ensures
            pkgs_view(*final(pkgs)) == pkgs_view(*old(pkgs)) + bare_pkgs(simple_query(query@).0),
            r is Ok <==> simple_query(query@).1,
    {
        let q = trim_chars(&chars_of(query));
        let ghost goal = simple_query(query@);
        let ghost base = pkgs_view(*pkgs);
        let mut last: Vec<char> = Vec::new();
        let ghost mut names: Seq<Seq<char>> = seq![];
        let mut i: usize = 0;
        assert(bare_pkgs(names) =~= Seq::<PkgView>::empty());
        while i < q.len()
            invariant
                i <= q.len(),
                q@ == trim(query@),
                goal == simple_query(query@),
                goal == simple_query_from(q@, i as int, names, last@),
                base == pkgs_view(*old(pkgs)),
                pkgs_view(*pkgs) == base + bare_pkgs(names),
            decreases q.len() - i,
        {
            let ch = q[i];
            if ch == ' ' || ch == ',' {
                if last.len() > 0 {
                    let ghost l = last@;
                    let name = string_of(&last);
                    push_pkg(pkgs, Package::new(name));
                    proof {
                        names = names.push(l);
                        assert(bare_pkgs(names) =~= bare_pkgs(names.drop_last()).push(bare_pkg(l)));
                    }
                    last = Vec::new();
                }
            } else if !pkg_name_char_exec(ch) {
                return Err("Invalid character found in package query.".to_owned());
            } else {
                last.push(ch);
            }
            i += 1;
        }
        if last.len() > 0 {
            let ghost l = last@;
            let name = string_of(&last);
            push_pkg(pkgs, Package::new(name));
            proof {
                names = names.push(l);
                assert(bare_pkgs(names) =~= bare_pkgs(names.drop_last()).push(bare_pkg(l)));
            }
        }
        Ok(())
    }

    /// Parses a query: packages, each with an optional condition and
    /// version (`name >= [epoch:]version-release`, with spaces around the
    /// operator), separated by spaces or commas.
    ///
    /// An error is returned if and only if a name is followed by a
    /// character that is not alphanumeric, a space, a comma, a dash or an
    /// underscore, or an epoch does not fit in a `u32`; the packages before
    /// it are added all the same.
    pub fn add_query(pkgs: &mut Vec<Package>, query: &str) -> (r: Result<(), String>)
        ensures
            pkgs_view(*final(pkgs)) == pkgs_view(*old(pkgs)) + query_pkgs(query@).0,
            r is Ok <==> query_pkgs(query@).1,
        decreases query@.len(),
    {
        let t = trim_chars(&chars_of(query));
        if t.len() == 0 {
            assert(pkgs_view(*pkgs) =~= pkgs_view(*pkgs) + Seq::<PkgView>::empty());
            return Ok(());
        }
        match first_non_name_exec(&t) {
            None => {
                push_pkg(pkgs, Package::new(string_of(&t)));
                assert(seq![bare_pkg(t@)] =~= query_pkgs(query@).0);
                Ok(())
            },
            Some(i) => {
                if t[i] != ' ' && t[i] != ',' {
                    assert(pkgs_view(*pkgs) =~= pkgs_view(*pkgs) + Seq::<PkgView>::empty());
                    return Err("Invalid package name in dependency query.".to_owned());
                }
                let tl = t.len();
                let name = slice_chars(&t, 0, i);
                let rest = slice_chars(&t, i, tl);
                assert(name@ =~= t@.take(i as int));
                assert(rest@ =~= t@.skip(i as int));
                let rest_s = string_of(&rest);
                let caps = match pkgq_captures(rest_s.as_str()) {
                    Some(x) => if x.0 == 0 { Some(x) } else { None },
                    None => None,
                };
                match caps {
                    None => {
                        let ghost before = pkgs_view(*pkgs);
                        if name.len() > 0 {
                            push_pkg(pkgs, Package::new(string_of(&name)));
                        }
                        let ghost named = if name@.len() > 0 { seq![bare_pkg(name@)] } else { Seq::<PkgView>::empty() };
                        assert(pkgs_view(*pkgs) =~= before + named);
                        let next = trim_start_sep_exec(&rest);
                        assert(rest@.drop_first() =~= t@.skip(i + 1));
                        assert(trim_start_sep(rest@) == trim_start_sep(rest@.drop_first()));
                        proof { lemma_trim_start_sep_len(rest@.drop_first()); }
                        assert(next@.len() < query@.len());
                        let r = Package::add_query(pkgs, string_of(&next).as_str());
                        assert(pkgs_view(*pkgs) =~= before + (named + query_pkgs(next@).0));
                        r
                    },
                    Some((_at, c, e, v, rel, more)) => {
                        let epoch: Option<u32> = match e {
                            None => None,
                            Some(ep) => {
                                let epc = chars_of(ep.as_str());
                                let digits = slice_chars(&epc, 0, epc.len() - 1);
                                assert(digits@ =~= ep@.drop_last());
                                match parse_u32_exec(&digits) {
                                    Some(n) => Some(n),
                                    None => {
                                        assert(pkgs_view(*pkgs) =~= pkgs_view(*pkgs) + Seq::<PkgView>::empty());
                                        return Err("Cannot parse epoch to u32".to_owned());
                                    },
                                }
                            },
                        };
                        let cond = PkgQCond::from_symbol(c.as_str());
                        let ghost cv = cond_of(c@);
                        assert(cond_symbol(cv) == c@);
                        proof { lemma_cond_symbol_injective(cond, cv); }
                        let p = Package { name: string_of(&name), version: Some(v), release: Some(rel), epoch, condition: cond };
                        let ghost before = pkgs_view(*pkgs);
                        push_pkg(pkgs, p);
                        let next = trim_start_sep_exec(&chars_of(more.as_str()));
                        let r = Package::add_query(pkgs, string_of(&next).as_str());
                        r
                    },
                }
            },
        }
    }
}


/// Every character of the query is a separator or can be in a name.
pub open spec fn query_chars_ok(q: Seq<char>) -> bool {
    forall|i: int| 0 <= i < q.len() ==> q[i] == ' ' || q[i] == ',' || pkg_name_char(#[trigger] q[i])
}

proof fn lemma_simple_query_from_ok(q: Seq<char>, i: int, names: Seq<Seq<char>>, last: Seq<char>)
    requires
        0 <= i <= q.len(),
    ensures
        simple_query_from(q, i, names, last).1 <==> (forall|j: int| i <= j < q.len() ==> q[j] == ' ' || q[j] == ','
            || pkg_name_char(#[trigger] q[j])),
    decreases q.len() - i,
{
    if i < q.len() {
        let ch = q[i];
        if ch == ' ' || ch == ',' {
            if last.len() > 0 {
                lemma_simple_query_from_ok(q, i + 1, names.push(last), seq![]);
            } else {
                lemma_simple_query_from_ok(q, i + 1, names, last);
            }
        } else if pkg_name_char(ch) {
            lemma_simple_query_from_ok(q, i + 1, names, last.push(ch));
        }
    }
}

/// A simple query is valid exactly when every character (after trimming)
/// is alphanumeric, a space, a comma, a dash or an underscore.
pub proof fn lemma_simple_query_valid(q: Seq<char>)
    ensures
        simple_query(q).1 <==> query_chars_ok(trim(q)),
{
    lemma_simple_query_from_ok(trim(q), 0, seq![], seq![]);
}

} // verus!
