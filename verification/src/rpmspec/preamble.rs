//! Preambles (`Name:`, `Requires:`, `Source0:`, ...) of a spec file.
use crate::rpmspec::macrospec::split_char;
use crate::rpmspec::model::{copy_pkgs, pkg_names, pkgs_view, NumMap, Package, PkgView, RPMRequires, RPMSpec, RPMSpecPkg};
use crate::rpmspec::parser::{error_view, errors_view, ErrorView, ParserError, RPMSection, SpecFailure, SpecParser};
use crate::rpmspec::patterns::{requires_captures, requires_parts};
use crate::rpmspec::words::{split_char_exec, words_view};
use crate::rpmspec::query::{bare_pkgs, query_pkgs, simple_query};
use crate::text::{chars_eq, chars_of, copy_chars, extend_strings, is_whitespace, is_ws, slice_chars, string_of, strings_view, trim, trim_chars};
use vstd::prelude::*;

verus! {

pub(crate) fn is_lit(s: &[char], lit: &str) -> (r: bool)
    ensures
        r == (s@ == lit@),
{
    chars_eq(s, &chars_of(lit))
}

/// The words of `s`, split at whitespace (`str::split_whitespace`).
pub open spec fn split_ws_from(s: Seq<char>, i: int, words: Seq<Seq<char>>, cur: Seq<char>) -> Seq<Seq<char>>
    decreases s.len() - i,
{
    if i < 0 || i >= s.len() {
        if cur.len() > 0 { words.push(cur) } else { words }
    } else if is_ws(s[i]) {
        if cur.len() > 0 { split_ws_from(s, i + 1, words.push(cur), seq![]) } else { split_ws_from(s, i + 1, words, cur) }
    } else {
        split_ws_from(s, i + 1, words, cur.push(s[i]))
    }
}

pub open spec fn split_ws(s: Seq<char>) -> Seq<Seq<char>> {
    split_ws_from(s, 0, seq![], seq![])
}

fn split_ws_exec(s: &str) -> (r: Vec<String>)
    ensures
        strings_view(r) == split_ws(s@),
{
    let c = chars_of(s);
    let ghost goal = split_ws(s@);
    let mut words: Vec<String> = Vec::new();
    let mut cur: Vec<char> = Vec::new();
    let mut i: usize = 0;
    assert(strings_view(words) =~= Seq::<Seq<char>>::empty());
    while i < c.len()
        invariant
            i <= c.len(),
            c@ == s@,
            goal == split_ws(s@),
            goal == split_ws_from(c@, i as int, strings_view(words), cur@),
        decreases c.len() - i,
    {
        if is_whitespace(c[i]) {
            if cur.len() > 0 {
                let ghost before = strings_view(words);
                let ghost cv = cur@;
                words.push(string_of(&cur));
                assert(strings_view(words) =~= before.push(cv));
                cur = Vec::new();
            }
        } else {
            cur.push(c[i]);
        }
        i += 1;
    }
    if cur.len() > 0 {
        let ghost before = strings_view(words);
        let ghost cv = cur@;
        words.push(string_of(&cur));
        assert(strings_view(words) =~= before.push(cv));
    }
    words
}

/// `str::parse::<bool>`: `true` or `false`.
pub open spec fn parse_bool(s: Seq<char>) -> Option<bool> {
    if s == "true"@ { Some(true) } else if s == "false"@ { Some(false) } else { None }
}

/// The value of a signed decimal number that fits in an `i32`
/// (`str::parse::<i32>`): an optional sign and at least one ASCII digit.
pub open spec fn parse_i32(s: Seq<char>) -> Option<i32> {
    let neg = s.len() > 0 && s[0] == '-';
    let d = if s.len() > 0 && (s[0] == '+' || s[0] == '-') { s.drop_first() } else { s };
    match crate::rpmspec::query::digits_value(d) {
        Some(v) => if neg { if v <= 2147483648 { Some((-(v as int)) as i32) } else { None } }
                   else { if v <= 2147483647 { Some(v as i32) } else { None } },
        None => None,
    }
}

/// A preamble whose value is kept as text (the last one given wins).
pub open spec fn is_opt_preamble(name: Seq<char>) -> bool {
    name == "Name"@ || name == "Version"@ || name == "Release"@ || name == "License"@ || name == "SourceLicense"@ || name == "URL"@ || name == "BugURL"@ || name == "ModularityLabel"@ || name == "DistTag"@ || name == "VCS"@ || name == "Distribution"@ || name == "Vendor"@ || name == "Packager"@ || name == "Group"@ || name == "Summary"@
}

/// The current value of a text preamble.
pub open spec fn opt_of(rpm: RPMSpec, name: Seq<char>) -> Option<String> {
    if name == "Name"@ {
        rpm.name
    } else if name == "Version"@ {
        rpm.version
    } else if name == "Release"@ {
        rpm.release
    } else if name == "License"@ {
        rpm.license
    } else if name == "SourceLicense"@ {
        rpm.sourcelicense
    } else if name == "URL"@ {
        rpm.url
    } else if name == "BugURL"@ {
        rpm.bugurl
    } else if name == "ModularityLabel"@ {
        rpm.modularitylabel
    } else if name == "DistTag"@ {
        rpm.disttag
    } else if name == "VCS"@ {
        rpm.vcs
    } else if name == "Distribution"@ {
        rpm.distribution
    } else if name == "Vendor"@ {
        rpm.vendor
    } else if name == "Packager"@ {
        rpm.packager
    } else if name == "Group"@ {
        rpm.group
    } else if name == "Summary"@ {
        rpm.summary
    } else {
        None
    }
}

/// The spec with a text preamble set.
pub open spec fn with_opt(rpm: RPMSpec, name: Seq<char>, v: String) -> RPMSpec {
    if name == "Name"@ {
        RPMSpec { name: Some(v), ..rpm }
    } else if name == "Version"@ {
        RPMSpec { version: Some(v), ..rpm }
    } else if name == "Release"@ {
        RPMSpec { release: Some(v), ..rpm }
    } else if name == "License"@ {
        RPMSpec { license: Some(v), ..rpm }
    } else if name == "SourceLicense"@ {
        RPMSpec { sourcelicense: Some(v), ..rpm }
    } else if name == "URL"@ {
        RPMSpec { url: Some(v), ..rpm }
    } else if name == "BugURL"@ {
        RPMSpec { bugurl: Some(v), ..rpm }
    } else if name == "ModularityLabel"@ {
        RPMSpec { modularitylabel: Some(v), ..rpm }
    } else if name == "DistTag"@ {
        RPMSpec { disttag: Some(v), ..rpm }
    } else if name == "VCS"@ {
        RPMSpec { vcs: Some(v), ..rpm }
    } else if name == "Distribution"@ {
        RPMSpec { distribution: Some(v), ..rpm }
    } else if name == "Vendor"@ {
        RPMSpec { vendor: Some(v), ..rpm }
    } else if name == "Packager"@ {
        RPMSpec { packager: Some(v), ..rpm }
    } else if name == "Group"@ {
        RPMSpec { group: Some(v), ..rpm }
    } else if name == "Summary"@ {
        RPMSpec { summary: Some(v), ..rpm }
    } else {
        rpm
    }
}

/// A preamble whose value is `true` or `false`.
pub open spec fn is_bool_preamble(name: Seq<char>) -> bool {
    name == "AutoReqProv"@ || name == "AutoReq"@ || name == "AutoProv"@
}

/// The spec with a boolean preamble set.
pub open spec fn with_bool(rpm: RPMSpec, name: Seq<char>, v: bool) -> RPMSpec {
    if name == "AutoReqProv"@ {
        RPMSpec { autoreqprov: v, ..rpm }
    } else if name == "AutoReq"@ {
        RPMSpec { autoreq: v, ..rpm }
    } else if name == "AutoProv"@ {
        RPMSpec { autoprov: v, ..rpm }
    } else {
        rpm
    }
}

/// A preamble whose value is a list of words.
pub open spec fn is_list_preamble(name: Seq<char>) -> bool {
    name == "ExcludeArch"@ || name == "ExclusiveArch"@ || name == "ExcludeOS"@ || name == "ExclusiveOS"@ || name == "BuildArch"@ || name == "BuildArchitectures"@
}

/// The words of a list preamble so far.
pub open spec fn list_of(rpm: RPMSpec, name: Seq<char>) -> Seq<Seq<char>> {
    if name == "ExcludeArch"@ {
        strings_view(rpm.excludearch)
    } else if name == "ExclusiveArch"@ {
        strings_view(rpm.exclusivearch)
    } else if name == "ExcludeOS"@ {
        strings_view(rpm.excludeos)
    } else if name == "ExclusiveOS"@ {
        strings_view(rpm.exclusiveos)
    } else if name == "BuildArch"@ {
        strings_view(rpm.buildarch)
    } else if name == "BuildArchitectures"@ {
        strings_view(rpm.buildarch)
    } else {
        seq![]
    }
}

/// Whether only the words of a list preamble changed.
pub open spec fn same_but_list(a: RPMSpec, b: RPMSpec, name: Seq<char>) -> bool {
    if name == "ExcludeArch"@ {
        b == (RPMSpec { excludearch: b.excludearch, ..a })
    } else if name == "ExclusiveArch"@ {
        b == (RPMSpec { exclusivearch: b.exclusivearch, ..a })
    } else if name == "ExcludeOS"@ {
        b == (RPMSpec { excludeos: b.excludeos, ..a })
    } else if name == "ExclusiveOS"@ {
        b == (RPMSpec { exclusiveos: b.exclusiveos, ..a })
    } else if name == "BuildArch"@ {
        b == (RPMSpec { buildarch: b.buildarch, ..a })
    } else if name == "BuildArchitectures"@ {
        b == (RPMSpec { buildarch: b.buildarch, ..a })
    } else {
        b == a
    }
}

/// For a query preamble, whether its query may carry versions
/// (`add_query`) rather than names only (`add_simple_query`).
pub open spec fn query_kind(name: Seq<char>) -> Option<bool> {
    if name == "Provides"@ {
        Some(true)
    } else if name == "Conflicts"@ {
        Some(true)
    } else if name == "Obsoletes"@ {
        Some(true)
    } else if name == "Recommends"@ {
        Some(false)
    } else if name == "Suggests"@ {
        Some(false)
    } else if name == "Supplements"@ {
        Some(false)
    } else if name == "Enhances"@ {
        Some(false)
    } else if name == "BuildRequires"@ {
        Some(true)
    } else {
        None
    }
}

/// A preamble whose value is a dependency query.
pub open spec fn is_query_preamble(name: Seq<char>) -> bool {
    query_kind(name) is Some
}

pub open spec fn is_versioned_query(name: Seq<char>) -> bool {
    query_kind(name) == Some(true)
}

/// The dependencies of a query preamble so far.
pub open spec fn pkgs_of(rpm: RPMSpec, name: Seq<char>) -> Seq<PkgView> {
    if name == "Provides"@ {
        pkgs_view(rpm.provides)
    } else if name == "Conflicts"@ {
        pkgs_view(rpm.conflicts)
    } else if name == "Obsoletes"@ {
        pkgs_view(rpm.obsoletes)
    } else if name == "Recommends"@ {
        pkgs_view(rpm.recommends)
    } else if name == "Suggests"@ {
        pkgs_view(rpm.suggests)
    } else if name == "Supplements"@ {
        pkgs_view(rpm.supplements)
    } else if name == "Enhances"@ {
        pkgs_view(rpm.enhances)
    } else if name == "BuildRequires"@ {
        pkgs_view(rpm.buildrequires)
    } else {
        seq![]
    }
}

/// Whether only the dependencies of a query preamble changed.
pub open spec fn same_but_pkgs(a: RPMSpec, b: RPMSpec, name: Seq<char>) -> bool {
    if name == "Provides"@ {
        b == (RPMSpec { provides: b.provides, ..a })
    } else if name == "Conflicts"@ {
        b == (RPMSpec { conflicts: b.conflicts, ..a })
    } else if name == "Obsoletes"@ {
        b == (RPMSpec { obsoletes: b.obsoletes, ..a })
    } else if name == "Recommends"@ {
        b == (RPMSpec { recommends: b.recommends, ..a })
    } else if name == "Suggests"@ {
        b == (RPMSpec { suggests: b.suggests, ..a })
    } else if name == "Supplements"@ {
        b == (RPMSpec { supplements: b.supplements, ..a })
    } else if name == "Enhances"@ {
        b == (RPMSpec { enhances: b.enhances, ..a })
    } else if name == "BuildRequires"@ {
        b == (RPMSpec { buildrequires: b.buildrequires, ..a })
    } else {
        b == a
    }
}

/// Preambles that are not implemented.
pub open spec fn is_unimplemented_preamble(name: Seq<char>) -> bool {
    name == "OrderWithRequires"@ || name == "BuildConflicts"@ || name == "Prefixes"@ || name == "Prefix"@ || name == "DocDir"@ || name == "RemovePathPostfixes"@
}

fn set_opt(rpm: &mut RPMSpec, nm: &Vec<char>, v: String) -> (was: bool)
    requires
        is_opt_preamble(nm@),
    ensures
        *final(rpm) == with_opt(*old(rpm), nm@, v),
        was == (opt_of(*old(rpm), nm@) is Some),
{
        if is_lit(&nm, "Name") {
            let was = rpm.name.is_some();
            rpm.name = Some(v);
            was
        } else if is_lit(&nm, "Version") {
            let was = rpm.version.is_some();
            rpm.version = Some(v);
            was
        } else if is_lit(&nm, "Release") {
            let was = rpm.release.is_some();
            rpm.release = Some(v);
            was
        } else if is_lit(&nm, "License") {
            let was = rpm.license.is_some();
            rpm.license = Some(v);
            was
        } else if is_lit(&nm, "SourceLicense") {
            let was = rpm.sourcelicense.is_some();
            rpm.sourcelicense = Some(v);
            was
        } else if is_lit(&nm, "URL") {
            let was = rpm.url.is_some();
            rpm.url = Some(v);
            was
        } else if is_lit(&nm, "BugURL") {
            let was = rpm.bugurl.is_some();
            rpm.bugurl = Some(v);
            was
        } else if is_lit(&nm, "ModularityLabel") {
            let was = rpm.modularitylabel.is_some();
            rpm.modularitylabel = Some(v);
            was
        } else if is_lit(&nm, "DistTag") {
            let was = rpm.disttag.is_some();
            rpm.disttag = Some(v);
            was
        } else if is_lit(&nm, "VCS") {
            let was = rpm.vcs.is_some();
            rpm.vcs = Some(v);
            was
        } else if is_lit(&nm, "Distribution") {
            let was = rpm.distribution.is_some();
            rpm.distribution = Some(v);
            was
        } else if is_lit(&nm, "Vendor") {
            let was = rpm.vendor.is_some();
            rpm.vendor = Some(v);
            was
        } else if is_lit(&nm, "Packager") {
            let was = rpm.packager.is_some();
            rpm.packager = Some(v);
            was
        } else if is_lit(&nm, "Group") {
            let was = rpm.group.is_some();
            rpm.group = Some(v);
            was
        } else if is_lit(&nm, "Summary") {
            let was = rpm.summary.is_some();
            rpm.summary = Some(v);
            was
        } else {
            proof { assert(false); }
            false
        }
}

fn set_bool(rpm: &mut RPMSpec, nm: &Vec<char>, v: bool)
    requires
        is_bool_preamble(nm@),
    ensures
        *final(rpm) == with_bool(*old(rpm), nm@, v),
{
        if is_lit(&nm, "AutoReqProv") {
            rpm.autoreqprov = v;
        } else if is_lit(&nm, "AutoReq") {
            rpm.autoreq = v;
        } else if is_lit(&nm, "AutoProv") {
            rpm.autoprov = v;
        } else {
            proof { assert(false); }
        }
}

fn add_words(rpm: &mut RPMSpec, nm: &Vec<char>, words: &Vec<String>)
    requires
        is_list_preamble(nm@),
    ensures
        same_but_list(*old(rpm), *final(rpm), nm@),
        list_of(*final(rpm), nm@) == list_of(*old(rpm), nm@) + strings_view(*words),
{
        if is_lit(&nm, "ExcludeArch") {
            extend_strings(&mut rpm.excludearch, words);
        } else if is_lit(&nm, "ExclusiveArch") {
            extend_strings(&mut rpm.exclusivearch, words);
        } else if is_lit(&nm, "ExcludeOS") {
            extend_strings(&mut rpm.excludeos, words);
        } else if is_lit(&nm, "ExclusiveOS") {
            extend_strings(&mut rpm.exclusiveos, words);
        } else if is_lit(&nm, "BuildArch") {
            extend_strings(&mut rpm.buildarch, words);
        } else if is_lit(&nm, "BuildArchitectures") {
            extend_strings(&mut rpm.buildarch, words);
        } else {
            proof { assert(false); }
        }
}

fn add_pkgs(rpm: &mut RPMSpec, nm: &Vec<char>, value: &str) -> (r: Result<(), String>)
    requires
        is_query_preamble(nm@),
    ensures
        same_but_pkgs(*old(rpm), *final(rpm), nm@),
        is_versioned_query(nm@) ==> pkgs_of(*final(rpm), nm@) == pkgs_of(*old(rpm), nm@) + query_pkgs(value@).0
            && (r is Ok <==> query_pkgs(value@).1),
        !is_versioned_query(nm@) ==> pkgs_of(*final(rpm), nm@) == pkgs_of(*old(rpm), nm@) + bare_pkgs(simple_query(value@).0)
            && (r is Ok <==> simple_query(value@).1),
{
        if is_lit(&nm, "Provides") {
            Package::add_query(&mut rpm.provides, value)
        } else if is_lit(&nm, "Conflicts") {
            Package::add_query(&mut rpm.conflicts, value)
        } else if is_lit(&nm, "Obsoletes") {
            Package::add_query(&mut rpm.obsoletes, value)
        } else if is_lit(&nm, "Recommends") {
            Package::add_simple_query(&mut rpm.recommends, value)
        } else if is_lit(&nm, "Suggests") {
            Package::add_simple_query(&mut rpm.suggests, value)
        } else if is_lit(&nm, "Supplements") {
            Package::add_simple_query(&mut rpm.supplements, value)
        } else if is_lit(&nm, "Enhances") {
            Package::add_simple_query(&mut rpm.enhances, value)
        } else if is_lit(&nm, "BuildRequires") {
            Package::add_query(&mut rpm.buildrequires, value)
        } else {
            proof { assert(false); }
            Ok(())
        }
}

/// How a subpackage takes a preamble for itself: `Group:` (0), `Summary:`
/// (1), a versioned query (2) or a simple query (3).
pub open spec fn sub_kind(name: Seq<char>) -> Option<u8> {
    if name == "Group"@ {
        Some(0u8)
    } else if name == "Summary"@ {
        Some(1u8)
    } else if name == "Provides"@ {
        Some(2u8)
    } else if name == "Obsoletes"@ {
        Some(2u8)
    } else if name == "Conflicts"@ {
        Some(2u8)
    } else if name == "Suggests"@ {
        Some(3u8)
    } else if name == "Recommends"@ {
        Some(3u8)
    } else if name == "Enhances"@ {
        Some(3u8)
    } else if name == "Supplements"@ {
        Some(3u8)
    } else {
        None
    }
}

/// The dependencies of a subpackage's query preamble so far.
pub open spec fn sub_pkgs_of(p: RPMSpecPkg, name: Seq<char>) -> Seq<PkgView> {
    if name == "Provides"@ {
        pkgs_view(p.provides)
    } else if name == "Obsoletes"@ {
        pkgs_view(p.obsoletes)
    } else if name == "Conflicts"@ {
        pkgs_view(p.conflicts)
    } else if name == "Suggests"@ {
        pkgs_view(p.suggests)
    } else if name == "Recommends"@ {
        pkgs_view(p.recommends)
    } else if name == "Enhances"@ {
        pkgs_view(p.enhances)
    } else if name == "Supplements"@ {
        pkgs_view(p.supplements)
    } else {
        seq![]
    }
}

/// Whether only the dependencies of a subpackage's query preamble changed.
pub open spec fn sub_same_but_pkgs(a: RPMSpecPkg, b: RPMSpecPkg, name: Seq<char>) -> bool {
    if name == "Provides"@ {
        b == (RPMSpecPkg { provides: b.provides, ..a })
    } else if name == "Obsoletes"@ {
        b == (RPMSpecPkg { obsoletes: b.obsoletes, ..a })
    } else if name == "Conflicts"@ {
        b == (RPMSpecPkg { conflicts: b.conflicts, ..a })
    } else if name == "Suggests"@ {
        b == (RPMSpecPkg { suggests: b.suggests, ..a })
    } else if name == "Recommends"@ {
        b == (RPMSpecPkg { recommends: b.recommends, ..a })
    } else if name == "Enhances"@ {
        b == (RPMSpecPkg { enhances: b.enhances, ..a })
    } else if name == "Supplements"@ {
        b == (RPMSpecPkg { supplements: b.supplements, ..a })
    } else {
        b == a
    }
}

fn add_sub_pkgs(p: &mut RPMSpecPkg, nm: &Vec<char>, value: &str) -> (r: Result<(), String>)
    requires
        sub_kind(nm@) == Some(2u8) || sub_kind(nm@) == Some(3u8),
    ensures
        sub_same_but_pkgs(*old(p), *final(p), nm@),
        sub_kind(nm@) == Some(2u8) ==> sub_pkgs_of(*final(p), nm@) == sub_pkgs_of(*old(p), nm@) + query_pkgs(value@).0
            && (r is Ok <==> query_pkgs(value@).1),
        sub_kind(nm@) == Some(3u8) ==> sub_pkgs_of(*final(p), nm@) == sub_pkgs_of(*old(p), nm@) + bare_pkgs(simple_query(value@).0)
            && (r is Ok <==> simple_query(value@).1),
{
    if is_lit(nm, "Provides") {
        Package::add_query(&mut p.provides, value)
    } else if is_lit(nm, "Obsoletes") {
        Package::add_query(&mut p.obsoletes, value)
    } else if is_lit(nm, "Conflicts") {
        Package::add_query(&mut p.conflicts, value)
    } else if is_lit(nm, "Suggests") {
        Package::add_simple_query(&mut p.suggests, value)
    } else if is_lit(nm, "Recommends") {
        Package::add_simple_query(&mut p.recommends, value)
    } else if is_lit(nm, "Enhances") {
        Package::add_simple_query(&mut p.enhances, value)
    } else if is_lit(nm, "Supplements") {
        Package::add_simple_query(&mut p.supplements, value)
    } else {
        proof { assert(false); }
        Ok(())
    }
}

fn sub_kind_exec(nm: &Vec<char>) -> (r: Option<u8>)
    ensures
        r == sub_kind(nm@),
{
    if is_lit(nm, "Group") {
        Some(0u8)
    } else if is_lit(nm, "Summary") {
        Some(1u8)
    } else if is_lit(nm, "Provides") {
        Some(2u8)
    } else if is_lit(nm, "Obsoletes") {
        Some(2u8)
    } else if is_lit(nm, "Conflicts") {
        Some(2u8)
    } else if is_lit(nm, "Suggests") {
        Some(3u8)
    } else if is_lit(nm, "Recommends") {
        Some(3u8)
    } else if is_lit(nm, "Enhances") {
        Some(3u8)
    } else if is_lit(nm, "Supplements") {
        Some(3u8)
    } else {
        None
    }
}

fn is_opt_exec(nm: &Vec<char>) -> (r: bool)
    ensures
        r == is_opt_preamble(nm@),
{
    is_lit(nm, "Name") || is_lit(nm, "Version") || is_lit(nm, "Release") || is_lit(nm, "License") || is_lit(nm, "SourceLicense") || is_lit(nm, "URL") || is_lit(nm, "BugURL") || is_lit(nm, "ModularityLabel") || is_lit(nm, "DistTag") || is_lit(nm, "VCS") || is_lit(nm, "Distribution") || is_lit(nm, "Vendor") || is_lit(nm, "Packager") || is_lit(nm, "Group") || is_lit(nm, "Summary")
}

fn is_bool_exec(nm: &Vec<char>) -> (r: bool)
    ensures
        r == is_bool_preamble(nm@),
{
    is_lit(nm, "AutoReqProv") || is_lit(nm, "AutoReq") || is_lit(nm, "AutoProv")
}

fn is_list_exec(nm: &Vec<char>) -> (r: bool)
    ensures
        r == is_list_preamble(nm@),
{
    is_lit(nm, "ExcludeArch") || is_lit(nm, "ExclusiveArch") || is_lit(nm, "ExcludeOS") || is_lit(nm, "ExclusiveOS") || is_lit(nm, "BuildArch") || is_lit(nm, "BuildArchitectures")
}

fn query_kind_exec(nm: &Vec<char>) -> (r: Option<bool>)
    ensures
        r == query_kind(nm@),
{
    if is_lit(nm, "Provides") {
        Some(true)
    } else if is_lit(nm, "Conflicts") {
        Some(true)
    } else if is_lit(nm, "Obsoletes") {
        Some(true)
    } else if is_lit(nm, "Recommends") {
        Some(false)
    } else if is_lit(nm, "Suggests") {
        Some(false)
    } else if is_lit(nm, "Supplements") {
        Some(false)
    } else if is_lit(nm, "Enhances") {
        Some(false)
    } else if is_lit(nm, "BuildRequires") {
        Some(true)
    } else {
        None
    }
}

fn parse_bool_exec(s: &Vec<char>) -> (r: Option<bool>)
    ensures
        r == parse_bool(s@),
{
    if is_lit(s, "true") {
        Some(true)
    } else if is_lit(s, "false") {
        Some(false)
    } else {
        None
    }
}

pub(crate) fn parse_i32_exec(s: &Vec<char>) -> (r: Option<i32>)
    ensures
        r == parse_i32(s@),
{
    let neg = s.len() > 0 && s[0] == '-';
    let start: usize = if s.len() > 0 && (s[0] == '+' || s[0] == '-') { 1 } else { 0 };
    let d = slice_chars(s, start, s.len());
    assert(d@ =~= (if s@.len() > 0 && (s@[0] == '+' || s@[0] == '-') { s@.drop_first() } else { s@ }));
    match crate::rpmspec::query::parse_u32_exec(&d) {
        None => {
            proof {
                if d@.len() > 0 && d@[0] == '+' {
                } else {
                    assert(crate::rpmspec::query::digits_value(d@) is None);
                }
            }
            if d.len() > 0 && d[0] == '+' {
                proof { lemma_digits_plus(d@); }
            }
            None
        },
        Some(v) => {
            if d.len() > 0 && d[0] == '+' {
                proof { lemma_digits_plus(d@); }
                return None;
            }
            if neg {
                if v <= 2147483648 {
                    if v == 2147483648 {
                        Some(-2147483647i32 - 1)
                    } else {
                        Some(-(v as i32))
                    }
                } else {
                    None
                }
            } else if v <= 2147483647 {
                Some(v as i32)
            } else {
                None
            }
        },
    }
}

proof fn lemma_digits_plus(d: Seq<char>)
    requires
        d.len() > 0,
        d[0] == '+',
    ensures
        crate::rpmspec::query::digits_value(d) is None,
    decreases d.len(),
{
    if d.len() > 1 {
        assert(d.drop_last()[0] == '+');
        lemma_digits_plus(d.drop_last());
    }
}

/// The index of the subpackage named `p`, from `i` on.
pub open spec fn find_pkg(names: Seq<Seq<char>>, p: Seq<char>, i: int) -> Option<int>
    decreases names.len() - i,
{
    if i < 0 || i >= names.len() {
        None
    } else if names[i] == p {
        Some(i)
    } else {
        find_pkg(names, p, i + 1)
    }
}

proof fn lemma_find_pkg(names: Seq<Seq<char>>, p: Seq<char>, i: int)
    requires
        0 <= i <= names.len(),
        exists|j: int| i <= j < names.len() && names[j] == p,
    ensures
        find_pkg(names, p, i) matches Some(k) && i <= k < names.len() && names[k] == p,
    decreases names.len() - i,
{
    if names[i] != p {
        lemma_find_pkg(names, p, i + 1);
    }
}

pub(crate) fn find_pkg_exec(pkgs: &Vec<(String, RPMSpecPkg)>, p: &String) -> (r: Option<usize>)
    ensures
        match r {
            Some(k) => find_pkg(pkg_names(*pkgs), p@, 0) == Some(k as int) && k < pkgs@.len(),
            None => find_pkg(pkg_names(*pkgs), p@, 0) is None,
        },
{
    let pc = chars_of(p.as_str());
    let mut i: usize = 0;
    while i < pkgs.len()
        invariant
            i <= pkgs.len(),
            pc@ == p@,
            find_pkg(pkg_names(*pkgs), p@, 0) == find_pkg(pkg_names(*pkgs), p@, i as int),
        decreases pkgs.len() - i,
    {
        assert(pkg_names(*pkgs)[i as int] == pkgs@[i as int].0@);
        if chars_eq(&chars_of(pkgs[i].0.as_str()), &pc) {
            return Some(i);
        }
        i += 1;
    }
    None
}

/// Everything but the spec and the errors is as before.
pub open spec fn keeps_frame(o: SpecParser, n: SpecParser) -> bool {
    &&& n.macros == o.macros
    &&& n.shell == o.shell
    &&& n.files == o.files
    &&& n.count_line == o.count_line
    &&& n.state.arch == o.state.arch
    &&& n.state.section == o.state.section
    &&& n.state.cond == o.state.cond
}

/// The errors after a preamble that may be a duplicate.
pub open spec fn dup_errors(o: SpecParser, n: SpecParser, name: Seq<char>, dup: bool) -> bool {
    errors_view(n.state.errors) == if dup {
        errors_view(o.state.errors).push(ErrorView::Duplicate(o.count_line, name))
    } else {
        errors_view(o.state.errors)
    }
}

/// What a subpackage's preamble does to it.
pub open spec fn sub_rel(op: RPMSpecPkg, np: RPMSpecPkg, name: Seq<char>, value: String, r: Result<(), SpecFailure>) -> bool {
    match sub_kind(name) {
        Some(0u8) => np == (RPMSpecPkg { group: Some(value), ..op }) && r is Ok,
        Some(1u8) => np == (RPMSpecPkg { summary: value, ..op }) && r is Ok,
        Some(2u8) => sub_same_but_pkgs(op, np, name) && sub_pkgs_of(np, name) == sub_pkgs_of(op, name) + query_pkgs(value@).0
            && (r is Ok <==> query_pkgs(value@).1),
        _ => sub_same_but_pkgs(op, np, name) && sub_pkgs_of(np, name) == sub_pkgs_of(op, name) + bare_pkgs(simple_query(value@).0)
            && (r is Ok <==> simple_query(value@).1),
    }
}

/// What a preamble does to the spec and the errors. In a subpackage's
/// section, `Group:`, `Summary:` and the dependency preambles apply to the
/// subpackage; everything else applies to the main package. A preamble
/// that is set again is recorded as a duplicate and takes the new value.
pub open spec fn preamble_rel(o: SpecParser, n: SpecParser, name: Seq<char>, value: String, r: Result<(), SpecFailure>) -> bool {
    &&& keeps_frame(o, n)
    &&& if o.state.section is Package && sub_kind(name) is Some {
        let p = o.state.section->Package_0;
        let k = find_pkg(pkg_names(o.rpm.packages), p@, 0)->Some_0;
        let op = o.rpm.packages@[k].1;
        let np = n.rpm.packages@[k].1;
        &&& n.rpm == (RPMSpec { packages: n.rpm.packages, ..o.rpm })
        &&& n.rpm.packages@.len() == o.rpm.packages@.len()
        &&& forall|j: int| 0 <= j < o.rpm.packages@.len() && j != k ==> n.rpm.packages@[j] == o.rpm.packages@[j]
        &&& n.rpm.packages@[k].0 == o.rpm.packages@[k].0
        &&& sub_rel(op, np, name, value, r)
        &&& dup_errors(o, n, name, (name == "Group"@ && op.group is Some) || (name == "Summary"@ && op.summary@.len() > 0))
    } else if is_opt_preamble(name) {
        n.rpm == with_opt(o.rpm, name, value) && r is Ok && dup_errors(o, n, name, opt_of(o.rpm, name) is Some)
    } else if is_bool_preamble(name) {
        n.state.errors == o.state.errors && match parse_bool(value@) {
            Some(b) => n.rpm == with_bool(o.rpm, name, b) && r is Ok,
            None => n.rpm == o.rpm && r is Err,
        }
    } else if is_list_preamble(name) {
        &&& n.state.errors == o.state.errors
        &&& same_but_list(o.rpm, n.rpm, name)
        &&& list_of(n.rpm, name) == list_of(o.rpm, name) + split_ws(value@)
        &&& r is Ok
    } else if name == "Epoch"@ {
        n.state.errors == o.state.errors && n.rpm == (RPMSpec { epoch: parse_i32(value@), ..o.rpm }) && r is Ok
    } else if is_query_preamble(name) {
        &&& n.state.errors == o.state.errors
        &&& same_but_pkgs(o.rpm, n.rpm, name)
        &&& is_versioned_query(name) ==> pkgs_of(n.rpm, name) == pkgs_of(o.rpm, name) + query_pkgs(value@).0
            && (r is Ok <==> query_pkgs(value@).1)
        &&& !is_versioned_query(name) ==> pkgs_of(n.rpm, name) == pkgs_of(o.rpm, name) + bare_pkgs(simple_query(value@).0)
            && (r is Ok <==> simple_query(value@).1)
    } else {
        &&& n.rpm == o.rpm
        &&& r is Ok
        &&& errors_view(n.state.errors) == errors_view(o.state.errors).push(ErrorView::UnknownPreamble(o.count_line, name))
    }
}

/// The preamble names, spelt out.
proof fn lemma_preamble_names()
    ensures
        "Name"@ == seq!['N', 'a', 'm', 'e'],
        "Version"@ == seq!['V', 'e', 'r', 's', 'i', 'o', 'n'],
        "Release"@ == seq!['R', 'e', 'l', 'e', 'a', 's', 'e'],
        "License"@ == seq!['L', 'i', 'c', 'e', 'n', 's', 'e'],
        "SourceLicense"@ == seq!['S', 'o', 'u', 'r', 'c', 'e', 'L', 'i', 'c', 'e', 'n', 's', 'e'],
        "URL"@ == seq!['U', 'R', 'L'],
        "BugURL"@ == seq!['B', 'u', 'g', 'U', 'R', 'L'],
        "ModularityLabel"@ == seq!['M', 'o', 'd', 'u', 'l', 'a', 'r', 'i', 't', 'y', 'L', 'a', 'b', 'e', 'l'],
        "DistTag"@ == seq!['D', 'i', 's', 't', 'T', 'a', 'g'],
        "VCS"@ == seq!['V', 'C', 'S'],
        "Distribution"@ == seq!['D', 'i', 's', 't', 'r', 'i', 'b', 'u', 't', 'i', 'o', 'n'],
        "Vendor"@ == seq!['V', 'e', 'n', 'd', 'o', 'r'],
        "Packager"@ == seq!['P', 'a', 'c', 'k', 'a', 'g', 'e', 'r'],
        "Group"@ == seq!['G', 'r', 'o', 'u', 'p'],
        "Summary"@ == seq!['S', 'u', 'm', 'm', 'a', 'r', 'y'],
        "AutoReqProv"@ == seq!['A', 'u', 't', 'o', 'R', 'e', 'q', 'P', 'r', 'o', 'v'],
        "AutoReq"@ == seq!['A', 'u', 't', 'o', 'R', 'e', 'q'],
        "AutoProv"@ == seq!['A', 'u', 't', 'o', 'P', 'r', 'o', 'v'],
        "ExcludeArch"@ == seq!['E', 'x', 'c', 'l', 'u', 'd', 'e', 'A', 'r', 'c', 'h'],
        "ExclusiveArch"@ == seq!['E', 'x', 'c', 'l', 'u', 's', 'i', 'v', 'e', 'A', 'r', 'c', 'h'],
        "ExcludeOS"@ == seq!['E', 'x', 'c', 'l', 'u', 'd', 'e', 'O', 'S'],
        "ExclusiveOS"@ == seq!['E', 'x', 'c', 'l', 'u', 's', 'i', 'v', 'e', 'O', 'S'],
        "BuildArch"@ == seq!['B', 'u', 'i', 'l', 'd', 'A', 'r', 'c', 'h'],
        "Provides"@ == seq!['P', 'r', 'o', 'v', 'i', 'd', 'e', 's'],
        "Obsoletes"@ == seq!['O', 'b', 's', 'o', 'l', 'e', 't', 'e', 's'],
        "Conflicts"@ == seq!['C', 'o', 'n', 'f', 'l', 'i', 'c', 't', 's'],
        "Suggests"@ == seq!['S', 'u', 'g', 'g', 'e', 's', 't', 's'],
        "Recommends"@ == seq!['R', 'e', 'c', 'o', 'm', 'm', 'e', 'n', 'd', 's'],
        "Enhances"@ == seq!['E', 'n', 'h', 'a', 'n', 'c', 'e', 's'],
        "Supplements"@ == seq!['S', 'u', 'p', 'p', 'l', 'e', 'm', 'e', 'n', 't', 's'],
        "BuildArchitectures"@ == seq!['B', 'u', 'i', 'l', 'd', 'A', 'r', 'c', 'h', 'i', 't', 'e', 'c', 't', 'u', 'r', 'e', 's'],
{
    reveal_strlit("Name");
    assert("Name"@ =~= seq!['N', 'a', 'm', 'e']);
    reveal_strlit("Version");
    assert("Version"@ =~= seq!['V', 'e', 'r', 's', 'i', 'o', 'n']);
    reveal_strlit("Release");
    assert("Release"@ =~= seq!['R', 'e', 'l', 'e', 'a', 's', 'e']);
    reveal_strlit("License");
    assert("License"@ =~= seq!['L', 'i', 'c', 'e', 'n', 's', 'e']);
    reveal_strlit("SourceLicense");
    assert("SourceLicense"@ =~= seq!['S', 'o', 'u', 'r', 'c', 'e', 'L', 'i', 'c', 'e', 'n', 's', 'e']);
    reveal_strlit("URL");
    assert("URL"@ =~= seq!['U', 'R', 'L']);
    reveal_strlit("BugURL");
    assert("BugURL"@ =~= seq!['B', 'u', 'g', 'U', 'R', 'L']);
    reveal_strlit("ModularityLabel");
    assert("ModularityLabel"@ =~= seq!['M', 'o', 'd', 'u', 'l', 'a', 'r', 'i', 't', 'y', 'L', 'a', 'b', 'e', 'l']);
    reveal_strlit("DistTag");
    assert("DistTag"@ =~= seq!['D', 'i', 's', 't', 'T', 'a', 'g']);
    reveal_strlit("VCS");
    assert("VCS"@ =~= seq!['V', 'C', 'S']);
    reveal_strlit("Distribution");
    assert("Distribution"@ =~= seq!['D', 'i', 's', 't', 'r', 'i', 'b', 'u', 't', 'i', 'o', 'n']);
    reveal_strlit("Vendor");
    assert("Vendor"@ =~= seq!['V', 'e', 'n', 'd', 'o', 'r']);
    reveal_strlit("Packager");
    assert("Packager"@ =~= seq!['P', 'a', 'c', 'k', 'a', 'g', 'e', 'r']);
    reveal_strlit("Group");
    assert("Group"@ =~= seq!['G', 'r', 'o', 'u', 'p']);
    reveal_strlit("Summary");
    assert("Summary"@ =~= seq!['S', 'u', 'm', 'm', 'a', 'r', 'y']);
    reveal_strlit("AutoReqProv");
    assert("AutoReqProv"@ =~= seq!['A', 'u', 't', 'o', 'R', 'e', 'q', 'P', 'r', 'o', 'v']);
    reveal_strlit("AutoReq");
    assert("AutoReq"@ =~= seq!['A', 'u', 't', 'o', 'R', 'e', 'q']);
    reveal_strlit("AutoProv");
    assert("AutoProv"@ =~= seq!['A', 'u', 't', 'o', 'P', 'r', 'o', 'v']);
    reveal_strlit("ExcludeArch");
    assert("ExcludeArch"@ =~= seq!['E', 'x', 'c', 'l', 'u', 'd', 'e', 'A', 'r', 'c', 'h']);
    reveal_strlit("ExclusiveArch");
    assert("ExclusiveArch"@ =~= seq!['E', 'x', 'c', 'l', 'u', 's', 'i', 'v', 'e', 'A', 'r', 'c', 'h']);
    reveal_strlit("ExcludeOS");
    assert("ExcludeOS"@ =~= seq!['E', 'x', 'c', 'l', 'u', 'd', 'e', 'O', 'S']);
    reveal_strlit("ExclusiveOS");
    assert("ExclusiveOS"@ =~= seq!['E', 'x', 'c', 'l', 'u', 's', 'i', 'v', 'e', 'O', 'S']);
    reveal_strlit("BuildArch");
    assert("BuildArch"@ =~= seq!['B', 'u', 'i', 'l', 'd', 'A', 'r', 'c', 'h']);
    reveal_strlit("Provides");
    assert("Provides"@ =~= seq!['P', 'r', 'o', 'v', 'i', 'd', 'e', 's']);
    reveal_strlit("Obsoletes");
    assert("Obsoletes"@ =~= seq!['O', 'b', 's', 'o', 'l', 'e', 't', 'e', 's']);
    reveal_strlit("Conflicts");
    assert("Conflicts"@ =~= seq!['C', 'o', 'n', 'f', 'l', 'i', 'c', 't', 's']);
    reveal_strlit("Suggests");
    assert("Suggests"@ =~= seq!['S', 'u', 'g', 'g', 'e', 's', 't', 's']);
    reveal_strlit("Recommends");
    assert("Recommends"@ =~= seq!['R', 'e', 'c', 'o', 'm', 'm', 'e', 'n', 'd', 's']);
    reveal_strlit("Enhances");
    assert("Enhances"@ =~= seq!['E', 'n', 'h', 'a', 'n', 'c', 'e', 's']);
    reveal_strlit("Supplements");
    assert("Supplements"@ =~= seq!['S', 'u', 'p', 'p', 'l', 'e', 'm', 'e', 'n', 't', 's']);
    reveal_strlit("BuildArchitectures");
    assert("BuildArchitectures"@ =~= seq!['B', 'u', 'i', 'l', 'd', 'A', 'r', 'c', 'h', 'i', 't', 'e', 'c', 't', 'u', 'r', 'e', 's']);
}

/// What a text, boolean or list preamble does outside a subpackage's own
/// preambles: `Name:`, `URL:`, `BugURL:` and the other text preambles set
/// their own field to the value (recording a duplicate when it was set
/// before), and `ExcludeArch:`, `ExcludeOS:` and the like add the
/// value's words to their own list; no other field changes.
pub proof fn law_main_preambles(o: SpecParser, n: SpecParser, name: Seq<char>, v: String, r: Result<(), SpecFailure>)
    requires
        preamble_rel(o, n, name, v, r),
        !(o.state.section is Package && sub_kind(name) is Some),
    ensures
        name == "Name"@ ==> r is Ok && n.rpm == (RPMSpec { name: Some(v), ..o.rpm })
            && errors_view(n.state.errors) == (if o.rpm.name is Some {
                errors_view(o.state.errors).push(ErrorView::Duplicate(o.count_line, name))
            } else {
                errors_view(o.state.errors)
            }),
        name == "Version"@ ==> r is Ok && n.rpm == (RPMSpec { version: Some(v), ..o.rpm })
            && errors_view(n.state.errors) == (if o.rpm.version is Some {
                errors_view(o.state.errors).push(ErrorView::Duplicate(o.count_line, name))
            } else {
                errors_view(o.state.errors)
            }),
        name == "Release"@ ==> r is Ok && n.rpm == (RPMSpec { release: Some(v), ..o.rpm })
            && errors_view(n.state.errors) == (if o.rpm.release is Some {
                errors_view(o.state.errors).push(ErrorView::Duplicate(o.count_line, name))
            } else {
                errors_view(o.state.errors)
            }),
        name == "License"@ ==> r is Ok && n.rpm == (RPMSpec { license: Some(v), ..o.rpm })
            && errors_view(n.state.errors) == (if o.rpm.license is Some {
                errors_view(o.state.errors).push(ErrorView::Duplicate(o.count_line, name))
            } else {
                errors_view(o.state.errors)
            }),
        name == "SourceLicense"@ ==> r is Ok && n.rpm == (RPMSpec { sourcelicense: Some(v), ..o.rpm })
            && errors_view(n.state.errors) == (if o.rpm.sourcelicense is Some {
                errors_view(o.state.errors).push(ErrorView::Duplicate(o.count_line, name))
            } else {
                errors_view(o.state.errors)
            }),
        name == "URL"@ ==> r is Ok && n.rpm == (RPMSpec { url: Some(v), ..o.rpm })
            && errors_view(n.state.errors) == (if o.rpm.url is Some {
                errors_view(o.state.errors).push(ErrorView::Duplicate(o.count_line, name))
            } else {
                errors_view(o.state.errors)
            }),
        name == "BugURL"@ ==> r is Ok && n.rpm == (RPMSpec { bugurl: Some(v), ..o.rpm })
            && errors_view(n.state.errors) == (if o.rpm.bugurl is Some {
                errors_view(o.state.errors).push(ErrorView::Duplicate(o.count_line, name))
            } else {
                errors_view(o.state.errors)
            }),
        name == "ModularityLabel"@ ==> r is Ok && n.rpm == (RPMSpec { modularitylabel: Some(v), ..o.rpm })
            && errors_view(n.state.errors) == (if o.rpm.modularitylabel is Some {
                errors_view(o.state.errors).push(ErrorView::Duplicate(o.count_line, name))
            } else {
                errors_view(o.state.errors)
            }),
        name == "DistTag"@ ==> r is Ok && n.rpm == (RPMSpec { disttag: Some(v), ..o.rpm })
            && errors_view(n.state.errors) == (if o.rpm.disttag is Some {
                errors_view(o.state.errors).push(ErrorView::Duplicate(o.count_line, name))
            } else {
                errors_view(o.state.errors)
            }),
        name == "VCS"@ ==> r is Ok && n.rpm == (RPMSpec { vcs: Some(v), ..o.rpm })
            && errors_view(n.state.errors) == (if o.rpm.vcs is Some {
                errors_view(o.state.errors).push(ErrorView::Duplicate(o.count_line, name))
            } else {
                errors_view(o.state.errors)
            }),
        name == "Distribution"@ ==> r is Ok && n.rpm == (RPMSpec { distribution: Some(v), ..o.rpm })
            && errors_view(n.state.errors) == (if o.rpm.distribution is Some {
                errors_view(o.state.errors).push(ErrorView::Duplicate(o.count_line, name))
            } else {
                errors_view(o.state.errors)
            }),
        name == "Vendor"@ ==> r is Ok && n.rpm == (RPMSpec { vendor: Some(v), ..o.rpm })
            && errors_view(n.state.errors) == (if o.rpm.vendor is Some {
                errors_view(o.state.errors).push(ErrorView::Duplicate(o.count_line, name))
            } else {
                errors_view(o.state.errors)
            }),
        name == "Packager"@ ==> r is Ok && n.rpm == (RPMSpec { packager: Some(v), ..o.rpm })
            && errors_view(n.state.errors) == (if o.rpm.packager is Some {
                errors_view(o.state.errors).push(ErrorView::Duplicate(o.count_line, name))
            } else {
                errors_view(o.state.errors)
            }),
        name == "Group"@ ==> r is Ok && n.rpm == (RPMSpec { group: Some(v), ..o.rpm })
            && errors_view(n.state.errors) == (if o.rpm.group is Some {
                errors_view(o.state.errors).push(ErrorView::Duplicate(o.count_line, name))
            } else {
                errors_view(o.state.errors)
            }),
        name == "Summary"@ ==> r is Ok && n.rpm == (RPMSpec { summary: Some(v), ..o.rpm })
            && errors_view(n.state.errors) == (if o.rpm.summary is Some {
                errors_view(o.state.errors).push(ErrorView::Duplicate(o.count_line, name))
            } else {
                errors_view(o.state.errors)
            }),
        name == "ExcludeArch"@ ==> r is Ok && n.state.errors == o.state.errors && n.rpm == (RPMSpec { excludearch: n.rpm.excludearch, ..o.rpm })
            && strings_view(n.rpm.excludearch) == strings_view(o.rpm.excludearch) + split_ws(v@),
        name == "ExclusiveArch"@ ==> r is Ok && n.state.errors == o.state.errors && n.rpm == (RPMSpec { exclusivearch: n.rpm.exclusivearch, ..o.rpm })
            && strings_view(n.rpm.exclusivearch) == strings_view(o.rpm.exclusivearch) + split_ws(v@),
        name == "ExcludeOS"@ ==> r is Ok && n.state.errors == o.state.errors && n.rpm == (RPMSpec { excludeos: n.rpm.excludeos, ..o.rpm })
            && strings_view(n.rpm.excludeos) == strings_view(o.rpm.excludeos) + split_ws(v@),
        name == "ExclusiveOS"@ ==> r is Ok && n.state.errors == o.state.errors && n.rpm == (RPMSpec { exclusiveos: n.rpm.exclusiveos, ..o.rpm })
            && strings_view(n.rpm.exclusiveos) == strings_view(o.rpm.exclusiveos) + split_ws(v@),
        name == "BuildArch"@ ==> r is Ok && n.state.errors == o.state.errors && n.rpm == (RPMSpec { buildarch: n.rpm.buildarch, ..o.rpm })
            && strings_view(n.rpm.buildarch) == strings_view(o.rpm.buildarch) + split_ws(v@),
        name == "BuildArchitectures"@ ==> r is Ok && n.state.errors == o.state.errors && n.rpm == (RPMSpec { buildarch: n.rpm.buildarch, ..o.rpm })
            && strings_view(n.rpm.buildarch) == strings_view(o.rpm.buildarch) + split_ws(v@),
{
    lemma_preamble_names();
    reveal_strlit("Name");
    reveal_strlit("Version");
    reveal_strlit("Release");
    reveal_strlit("License");
    reveal_strlit("SourceLicense");
    reveal_strlit("URL");
    reveal_strlit("BugURL");
    reveal_strlit("ModularityLabel");
    reveal_strlit("DistTag");
    reveal_strlit("VCS");
    reveal_strlit("Distribution");
    reveal_strlit("Vendor");
    reveal_strlit("Packager");
    reveal_strlit("Group");
    reveal_strlit("Summary");
    reveal_strlit("ExcludeArch");
    reveal_strlit("ExclusiveArch");
    reveal_strlit("ExcludeOS");
    reveal_strlit("ExclusiveOS");
    reveal_strlit("BuildArch");
    reveal_strlit("BuildArchitectures");
    if name == "Name"@ {
        assert(is_opt_preamble(name));
        assert(opt_of(o.rpm, name) == o.rpm.name);
        assert(with_opt(o.rpm, name, v) == (RPMSpec { name: Some(v), ..o.rpm }));
    } else if name == "Version"@ {
        assert(is_opt_preamble(name));
        assert(opt_of(o.rpm, name) == o.rpm.version);
        assert(with_opt(o.rpm, name, v) == (RPMSpec { version: Some(v), ..o.rpm }));
    } else if name == "Release"@ {
        assert(is_opt_preamble(name));
        assert(opt_of(o.rpm, name) == o.rpm.release);
        assert(with_opt(o.rpm, name, v) == (RPMSpec { release: Some(v), ..o.rpm }));
    } else if name == "License"@ {
        assert(is_opt_preamble(name));
        assert(opt_of(o.rpm, name) == o.rpm.license);
        assert(with_opt(o.rpm, name, v) == (RPMSpec { license: Some(v), ..o.rpm }));
    } else if name == "SourceLicense"@ {
        assert(is_opt_preamble(name));
        assert(opt_of(o.rpm, name) == o.rpm.sourcelicense);
        assert(with_opt(o.rpm, name, v) == (RPMSpec { sourcelicense: Some(v), ..o.rpm }));
    } else if name == "URL"@ {
        assert(is_opt_preamble(name));
        assert(opt_of(o.rpm, name) == o.rpm.url);
        assert(with_opt(o.rpm, name, v) == (RPMSpec { url: Some(v), ..o.rpm }));
    } else if name == "BugURL"@ {
        assert(is_opt_preamble(name));
        assert(opt_of(o.rpm, name) == o.rpm.bugurl);
        assert(with_opt(o.rpm, name, v) == (RPMSpec { bugurl: Some(v), ..o.rpm }));
    } else if name == "ModularityLabel"@ {
        assert(is_opt_preamble(name));
        assert(opt_of(o.rpm, name) == o.rpm.modularitylabel);
        assert(with_opt(o.rpm, name, v) == (RPMSpec { modularitylabel: Some(v), ..o.rpm }));
    } else if name == "DistTag"@ {
        assert(is_opt_preamble(name));
        assert(opt_of(o.rpm, name) == o.rpm.disttag);
        assert(with_opt(o.rpm, name, v) == (RPMSpec { disttag: Some(v), ..o.rpm }));
    } else if name == "VCS"@ {
        assert(is_opt_preamble(name));
        assert(opt_of(o.rpm, name) == o.rpm.vcs);
        assert(with_opt(o.rpm, name, v) == (RPMSpec { vcs: Some(v), ..o.rpm }));
    } else if name == "Distribution"@ {
        assert(is_opt_preamble(name));
        assert(opt_of(o.rpm, name) == o.rpm.distribution);
        assert(with_opt(o.rpm, name, v) == (RPMSpec { distribution: Some(v), ..o.rpm }));
    } else if name == "Vendor"@ {
        assert(is_opt_preamble(name));
        assert(opt_of(o.rpm, name) == o.rpm.vendor);
        assert(with_opt(o.rpm, name, v) == (RPMSpec { vendor: Some(v), ..o.rpm }));
    } else if name == "Packager"@ {
        assert(is_opt_preamble(name));
        assert(opt_of(o.rpm, name) == o.rpm.packager);
        assert(with_opt(o.rpm, name, v) == (RPMSpec { packager: Some(v), ..o.rpm }));
    } else if name == "Group"@ {
        assert(is_opt_preamble(name));
        assert(opt_of(o.rpm, name) == o.rpm.group);
        assert(with_opt(o.rpm, name, v) == (RPMSpec { group: Some(v), ..o.rpm }));
    } else if name == "Summary"@ {
        assert(is_opt_preamble(name));
        assert(opt_of(o.rpm, name) == o.rpm.summary);
        assert(with_opt(o.rpm, name, v) == (RPMSpec { summary: Some(v), ..o.rpm }));
    } else if name == "ExcludeArch"@ {
        assert(!is_opt_preamble(name));
    } else if name == "ExclusiveArch"@ {
        assert(!is_opt_preamble(name));
    } else if name == "ExcludeOS"@ {
        assert(!is_opt_preamble(name));
    } else if name == "ExclusiveOS"@ {
        assert(!is_opt_preamble(name));
    } else if name == "BuildArch"@ {
        assert(!is_opt_preamble(name));
    } else if name == "BuildArchitectures"@ {
        assert(!is_opt_preamble(name));
    }
}

/// What `AutoReqProv:`, `AutoReq:` and `AutoProv:` do: each sets its own
/// switch to the value when it reads `true` or `false`, and is refused
/// otherwise, leaving the spec as it was; no error line is recorded.
pub proof fn law_switch_preambles(o: SpecParser, n: SpecParser, name: Seq<char>, v: String, r: Result<(), SpecFailure>)
    requires
        preamble_rel(o, n, name, v, r),
        !(o.state.section is Package && sub_kind(name) is Some),
    ensures
        name == "AutoReqProv"@ ==> n.state.errors == o.state.errors && match parse_bool(v@) {
            Some(b) => r is Ok && n.rpm == (RPMSpec { autoreqprov: b, ..o.rpm }),
            None => r is Err && n.rpm == o.rpm,
        },
        name == "AutoReq"@ ==> n.state.errors == o.state.errors && match parse_bool(v@) {
            Some(b) => r is Ok && n.rpm == (RPMSpec { autoreq: b, ..o.rpm }),
            None => r is Err && n.rpm == o.rpm,
        },
        name == "AutoProv"@ ==> n.state.errors == o.state.errors && match parse_bool(v@) {
            Some(b) => r is Ok && n.rpm == (RPMSpec { autoprov: b, ..o.rpm }),
            None => r is Err && n.rpm == o.rpm,
        },
{
    lemma_preamble_names();
    if name == "AutoReqProv"@ {
        assert(!is_opt_preamble(name));
        assert(forall|b: bool| with_bool(o.rpm, name, b) == (RPMSpec { autoreqprov: b, ..o.rpm }));
        assert(name.len() == 11 && "AutoReq"@.len() == 7 && "AutoProv"@.len() == 8);
    } else if name == "AutoReq"@ {
        assert(name[0] == 'A' && "Release"@[0] == 'R' && "License"@[0] == 'L' && "Version"@[0] == 'V');
        assert(name[0] == 'A' && "DistTag"@[0] == 'D' && "Summary"@[0] == 'S');
        assert(!is_opt_preamble(name));
        assert(forall|b: bool| with_bool(o.rpm, name, b) == (RPMSpec { autoreq: b, ..o.rpm }));
        assert(name.len() == 7 && "AutoReqProv"@.len() == 11 && "AutoProv"@.len() == 8);
    } else if name == "AutoProv"@ {
        assert(!is_opt_preamble(name));
        assert(forall|b: bool| with_bool(o.rpm, name, b) == (RPMSpec { autoprov: b, ..o.rpm }));
        assert(name.len() == 8 && "AutoReq"@.len() == 7 && "AutoReqProv"@.len() == 11);
    }
}

/// What `Group:`, `Summary:` and `Provides:` do in a subpackage's section:
/// they set the subpackage's group and summary or add to its provides, and
/// leave its name, the other subpackages and the main package alone.
pub proof fn law_subpackage_preambles(o: SpecParser, n: SpecParser, name: Seq<char>, v: String, r: Result<(), SpecFailure>)
    requires
        preamble_rel(o, n, name, v, r),
        o.state.section is Package,
        o.wf(),
    ensures
        name == "Group"@ || name == "Summary"@ || name == "Provides"@ ==> {
            let k = find_pkg(pkg_names(o.rpm.packages), o.state.section->Package_0@, 0)->Some_0;
            let op = o.rpm.packages@[k].1;
            let np = n.rpm.packages@[k].1;
            &&& n.rpm == (RPMSpec { packages: n.rpm.packages, ..o.rpm })
            &&& forall|j: int| 0 <= j < o.rpm.packages@.len() && j != k ==> n.rpm.packages@[j] == o.rpm.packages@[j]
            &&& np.name == op.name
            &&& name == "Group"@ ==> r is Ok && np == (RPMSpecPkg { group: Some(v), ..op })
            &&& name == "Summary"@ ==> r is Ok && np == (RPMSpecPkg { summary: v, ..op })
            &&& name == "Provides"@ ==> pkgs_view(np.provides) == pkgs_view(op.provides) + query_pkgs(v@).0
                && np == (RPMSpecPkg { provides: np.provides, ..op })
        },
{
    lemma_preamble_names();
    if name == "Group"@ {
        assert(sub_kind(name) == Some(0u8));
    } else if name == "Summary"@ {
        assert(sub_kind(name) == Some(1u8));
    } else if name == "Provides"@ {
        assert(sub_kind(name) == Some(2u8));
    }
}

fn invalid(e: Result<(), String>) -> (r: Result<(), SpecFailure>)
    ensures
        r is Ok <==> e is Ok,
{
    match e {
        Ok(()) => Ok(()),
        Err(m) => Err(SpecFailure::Invalid(m)),
    }
}

impl SpecParser {
    /// Process and add preambles into `self.rpm` or the current
    /// subpackage. Numbered preambles (`Source0:`) are handled by
    /// [`SpecParser::add_list_preamble`].
    pub fn add_preamble(&mut self, name: &str, value: String) -> (r: Result<(), SpecFailure>)
        requires
            old(self).wf(),
            !is_unimplemented_preamble(name@),
            name@ == "Epoch"@ ==> parse_i32(value@) is Some,
        ensures
            preamble_rel(*old(self), *final(self), name@, value, r),
            final(self).wf(),
    {
        let nm = chars_of(name);
        let sub = sub_kind_exec(&nm);
        let pkg_name = match &self.state.section {
            RPMSection::Package(p) => Some(p.clone()),
            _ => None,
        };
        match (pkg_name, sub) {
            (Some(p), Some(kind)) => {
                proof {
                    lemma_find_pkg(pkg_names(self.rpm.packages), p@, 0);
                }
                let k = match find_pkg_exec(&self.rpm.packages, &p) {
                    Some(k) => k,
                    None => {
                        proof { assert(false); }
                        return Ok(());
                    },
                };
                let mut slot = (String::new(), RPMSpecPkg::new());
                self.rpm.packages.set_and_swap(k, &mut slot);
                let ghost op = slot.1;
                let r: Result<(), SpecFailure>;
                let mut dup = false;
                if kind == 0 {
                    dup = slot.1.group.is_some();
                    slot.1.group = Some(value);
                    r = Ok(());
                } else if kind == 1 {
                    dup = chars_of(slot.1.summary.as_str()).len() > 0;
                    slot.1.summary = value;
                    r = Ok(());
                } else {
                    r = invalid(add_sub_pkgs(&mut slot.1, &nm, value.as_str()));
                }
                let ghost np = slot.1;
                proof {
                    reveal_strlit("Group");
                    reveal_strlit("Summary");
                    assert("Group"@.len() == 5);
                    assert("Summary"@.len() == 7);
                }
                assert(dup == ((name@ == "Group"@ && op.group is Some) || (name@ == "Summary"@ && op.summary@.len() > 0)));
                self.rpm.packages.set_and_swap(k, &mut slot);
                if dup {
                    self.push_error(ParserError::Duplicate(self.count_line, name.to_owned()));
                }
                proof {
                    assert(pkg_names(self.rpm.packages) =~= pkg_names(old(self).rpm.packages));
                }
                return r;
            },
            _ => {},
        }
        if is_opt_exec(&nm) {
            let dup = set_opt(&mut self.rpm, &nm, value);
            if dup {
                self.push_error(ParserError::Duplicate(self.count_line, name.to_owned()));
            }
            return Ok(());
        }
        if is_bool_exec(&nm) {
            match parse_bool_exec(&chars_of(value.as_str())) {
                Some(b) => {
                    set_bool(&mut self.rpm, &nm, b);
                    return Ok(());
                },
                None => {
                    return Err(SpecFailure::Invalid("Cannot parse the value as a boolean".to_owned()));
                },
            }
        }
        if is_list_exec(&nm) {
            let words = split_ws_exec(value.as_str());
            add_words(&mut self.rpm, &nm, &words);
            return Ok(());
        }
        if is_lit(&nm, "Epoch") {
            self.rpm.epoch = parse_i32_exec(&chars_of(value.as_str()));
            return Ok(());
        }
        if query_kind_exec(&nm).is_some() {
            return invalid(add_pkgs(&mut self.rpm, &nm, value.as_str()));
        }
        self.push_error(ParserError::UnknownPreamble(self.count_line, name.to_owned()));
        Ok(())
    }
}


/// The modifiers of a `Requires(...):` line, split at commas and trimmed;
/// a plain `Requires:` line has the one modifier `none`.
pub open spec fn req_mods(g: Option<Seq<char>>) -> Seq<Seq<char>> {
    match g {
        Some(m) => split_char(m, ',').map_values(|x: Seq<char>| trim(x)),
        None => seq!["none"@],
    }
}

/// The modifiers that name a list of requirements.
pub open spec fn is_req_mod(m: Seq<char>) -> bool {
    m == "none"@ || m == "pre"@ || m == "post"@ || m == "preun"@ || m == "postun"@ || m == "pretrans"@
        || m == "posttrans"@ || m == "verify"@ || m == "interp"@ || m == "meta"@
}

/// A list of requirements after the modifiers in turn: the dependencies
/// are added once for each modifier that names the list.
pub open spec fn req_added(l: Seq<PkgView>, mods: Seq<Seq<char>>, which: Seq<char>, pkgs: Seq<PkgView>) -> Seq<PkgView>
    decreases mods.len(),
{
    if mods.len() == 0 {
        l
    } else {
        req_added(l, mods.drop_last(), which, pkgs) + if mods.last() == which {
            pkgs
        } else {
            seq![]
        }
    }
}

/// The modifiers that name no list, in order.
pub open spec fn unknown_mods(mods: Seq<Seq<char>>) -> Seq<Seq<char>>
    decreases mods.len(),
{
    if mods.len() == 0 {
        seq![]
    } else if is_req_mod(mods.last()) {
        unknown_mods(mods.drop_last())
    } else {
        unknown_mods(mods.drop_last()).push(mods.last())
    }
}

/// Every list of `n` is that of `o` after the modifiers.
pub open spec fn reqs_after(o: RPMRequires, n: RPMRequires, mods: Seq<Seq<char>>, pkgs: Seq<PkgView>) -> bool {
    &&& pkgs_view(n.none) == req_added(pkgs_view(o.none), mods, "none"@, pkgs)
    &&& pkgs_view(n.pre) == req_added(pkgs_view(o.pre), mods, "pre"@, pkgs)
    &&& pkgs_view(n.post) == req_added(pkgs_view(o.post), mods, "post"@, pkgs)
    &&& pkgs_view(n.preun) == req_added(pkgs_view(o.preun), mods, "preun"@, pkgs)
    &&& pkgs_view(n.postun) == req_added(pkgs_view(o.postun), mods, "postun"@, pkgs)
    &&& pkgs_view(n.pretrans) == req_added(pkgs_view(o.pretrans), mods, "pretrans"@, pkgs)
    &&& pkgs_view(n.posttrans) == req_added(pkgs_view(o.posttrans), mods, "posttrans"@, pkgs)
    &&& pkgs_view(n.verify) == req_added(pkgs_view(o.verify), mods, "verify"@, pkgs)
    &&& pkgs_view(n.interp) == req_added(pkgs_view(o.interp), mods, "interp"@, pkgs)
    &&& pkgs_view(n.meta) == req_added(pkgs_view(o.meta), mods, "meta"@, pkgs)
}

/// The requirements that a `Requires:` line adds to: the current
/// subpackage's in its section, the main package's otherwise.
pub open spec fn requires_of(rpm: RPMSpec, section: RPMSection) -> RPMRequires {
    if section is Package {
        let k = find_pkg(pkg_names(rpm.packages), section->Package_0@, 0)->Some_0;
        rpm.packages@[k].1.requires
    } else {
        rpm.requires
    }
}

/// Only the requirements that a `Requires:` line adds to changed.
pub open spec fn same_but_requires(a: RPMSpec, b: RPMSpec, section: RPMSection) -> bool {
    if section is Package {
        let k = find_pkg(pkg_names(a.packages), section->Package_0@, 0)->Some_0;
        &&& b == (RPMSpec { packages: b.packages, ..a })
        &&& b.packages@.len() == a.packages@.len()
        &&& forall|j: int| 0 <= j < a.packages@.len() && j != k ==> b.packages@[j] == a.packages@[j]
        &&& b.packages@[k].0 == a.packages@[k].0
        &&& b.packages@[k].1 == (RPMSpecPkg { requires: b.packages@[k].1.requires, ..a.packages@[k].1 })
    } else {
        b == (RPMSpec { requires: b.requires, ..a })
    }
}

/// What a `Requires:` line does: its dependencies are added to the lists
/// its modifiers name (`Requires(pre,post):` to `pre` and `post`, a plain
/// `Requires:` to `none`), of the current subpackage or of the main
/// package; each modifier that names no list is recorded as an error.
pub open spec fn requires_rel(o: SpecParser, n: SpecParser, line: Seq<char>, r: Result<bool, SpecFailure>) -> bool {
    &&& keeps_frame(o, n)
    &&& match requires_parts(line) {
        None => r == Ok::<bool, SpecFailure>(false) && n.rpm == o.rpm && n.state.errors == o.state.errors,
        Some((g, v)) => if query_pkgs(trim(v)).1 {
            let mods = req_mods(g);
            &&& r == Ok::<bool, SpecFailure>(true)
            &&& same_but_requires(o.rpm, n.rpm, o.state.section)
            &&& reqs_after(requires_of(o.rpm, o.state.section), requires_of(n.rpm, o.state.section), mods, query_pkgs(trim(v)).0)
            &&& errors_view(n.state.errors) == errors_view(o.state.errors) + unknown_mods(mods).map_values(
                |m: Seq<char>| ErrorView::UnknownModifier(o.count_line, m))
        } else {
            r is Err && n.rpm == o.rpm && n.state.errors == o.state.errors
        },
    }
}

fn mods_exec(g: &Option<String>) -> (r: Vec<Vec<char>>)
    ensures
        words_view(r) == req_mods(crate::text::opt_view(*g)),
{
    match g {
        Some(m) => {
            let parts = split_char_exec(chars_of(m.as_str()).as_slice(), ',');
            let ghost want = req_mods(Some(m@));
            let mut out: Vec<Vec<char>> = Vec::new();
            let mut i: usize = 0;
            while i < parts.len()
                invariant
                    i <= parts.len(),
                    words_view(parts) == split_char(m@, ','),
                    want == split_char(m@, ',').map_values(|x: Seq<char>| trim(x)),
                    words_view(out) == want.take(i as int),
                decreases parts.len() - i,
            {
                let ghost before = words_view(out);
                let t = trim_chars(parts[i].as_slice());
                out.push(t);
                assert(words_view(out) =~= before.push(t@));
                assert(want.take(i + 1) =~= want.take(i as int).push(want[i as int]));
                i += 1;
            }
            assert(want.take(parts.len() as int) =~= want);
            out
        },
        None => {
            let mut out: Vec<Vec<char>> = Vec::new();
            out.push(chars_of("none"));
            assert(words_view(out) =~= seq!["none"@]);
            out
        },
    }
}

/// What one modifier does to the lists.
pub open spec fn mod_step(o: RPMRequires, n: RPMRequires, m: Seq<char>, pkgs: Seq<PkgView>) -> bool {
    &&& pkgs_view(n.none) == pkgs_view(o.none) + if m == "none"@ { pkgs } else { seq![] }
    &&& pkgs_view(n.pre) == pkgs_view(o.pre) + if m == "pre"@ { pkgs } else { seq![] }
    &&& pkgs_view(n.post) == pkgs_view(o.post) + if m == "post"@ { pkgs } else { seq![] }
    &&& pkgs_view(n.preun) == pkgs_view(o.preun) + if m == "preun"@ { pkgs } else { seq![] }
    &&& pkgs_view(n.postun) == pkgs_view(o.postun) + if m == "postun"@ { pkgs } else { seq![] }
    &&& pkgs_view(n.pretrans) == pkgs_view(o.pretrans) + if m == "pretrans"@ { pkgs } else { seq![] }
    &&& pkgs_view(n.posttrans) == pkgs_view(o.posttrans) + if m == "posttrans"@ { pkgs } else { seq![] }
    &&& pkgs_view(n.verify) == pkgs_view(o.verify) + if m == "verify"@ { pkgs } else { seq![] }
    &&& pkgs_view(n.interp) == pkgs_view(o.interp) + if m == "interp"@ { pkgs } else { seq![] }
    &&& pkgs_view(n.meta) == pkgs_view(o.meta) + if m == "meta"@ { pkgs } else { seq![] }
}

fn add_if(list: &mut Vec<Package>, pkgs: &Vec<Package>, yes: bool)
    ensures
        pkgs_view(*final(list)) == pkgs_view(*old(list)) + if yes { pkgs_view(*pkgs) } else { seq![] },
{
    if yes {
        append_pkgs(list, copy_pkgs(pkgs));
    } else {
        assert(pkgs_view(*list) =~= pkgs_view(*list) + Seq::<PkgView>::empty());
    }
}

fn add_for_mod(req: &mut RPMRequires, m: &Vec<char>, pkgs: &Vec<Package>) -> (known: bool)
    ensures
        known == is_req_mod(m@),
        mod_step(*old(req), *final(req), m@, pkgs_view(*pkgs)),
{
    let is_none = is_lit(m, "none");
    let is_pre = is_lit(m, "pre");
    let is_post = is_lit(m, "post");
    let is_preun = is_lit(m, "preun");
    let is_postun = is_lit(m, "postun");
    let is_pretrans = is_lit(m, "pretrans");
    let is_posttrans = is_lit(m, "posttrans");
    let is_verify = is_lit(m, "verify");
    let is_interp = is_lit(m, "interp");
    let is_meta = is_lit(m, "meta");
    add_if(&mut req.none, pkgs, is_none);
    add_if(&mut req.pre, pkgs, is_pre);
    add_if(&mut req.post, pkgs, is_post);
    add_if(&mut req.preun, pkgs, is_preun);
    add_if(&mut req.postun, pkgs, is_postun);
    add_if(&mut req.pretrans, pkgs, is_pretrans);
    add_if(&mut req.posttrans, pkgs, is_posttrans);
    add_if(&mut req.verify, pkgs, is_verify);
    add_if(&mut req.interp, pkgs, is_interp);
    add_if(&mut req.meta, pkgs, is_meta);
    is_none || is_pre || is_post || is_preun || is_postun || is_pretrans || is_posttrans || is_verify || is_interp || is_meta
}

/// Adds the dependencies to the lists the modifiers name; gives the
/// modifiers that name none.
fn apply_mods(req: &mut RPMRequires, mods: &Vec<Vec<char>>, pkgs: &Vec<Package>) -> (unknown: Vec<Vec<char>>)
    ensures
        reqs_after(*old(req), *final(req), words_view(*mods), pkgs_view(*pkgs)),
        words_view(unknown) == unknown_mods(words_view(*mods)),
{
    let ghost ms = words_view(*mods);
    let ghost p = pkgs_view(*pkgs);
    let mut unknown: Vec<Vec<char>> = Vec::new();
    let mut i: usize = 0;
    assert(ms.take(0) =~= Seq::<Seq<char>>::empty());
    while i < mods.len()
        invariant
            i <= mods.len(),
            ms == words_view(*mods),
            p == pkgs_view(*pkgs),
            reqs_after(*old(req), *req, ms.take(i as int), p),
            words_view(unknown) == unknown_mods(ms.take(i as int)),
        decreases mods.len() - i,
    {
        let ghost prev = *req;
        assert(ms.take(i + 1).drop_last() =~= ms.take(i as int));
        assert(ms.take(i + 1).last() == mods@[i as int]@);
        let known = add_for_mod(req, &mods[i], pkgs);
        if !known {
            let ghost before = words_view(unknown);
            unknown.push(copy_chars(mods[i].as_slice()));
            assert(words_view(unknown) =~= before.push(mods@[i as int]@));
        }
        i += 1;
    }
    assert(ms.take(mods.len() as int) =~= ms);
    unknown
}

impl SpecParser {
    /// Process and add `Source0:` and `Patch0:` preambles into `self.rpm`.
    pub fn add_list_preamble(&mut self, name: &str, digit: u32, value: &str) -> (r: Result<(), SpecFailure>)
        ensures
            keeps_frame(*old(self), *final(self)),
            final(self).state.errors == old(self).state.errors,
            name@ == "Source"@ ==> r is Ok && final(self).rpm == (RPMSpec { sources: final(self).rpm.sources, ..old(self).rpm })
                && final(self).rpm.sources.view() == old(self).rpm.sources.view().insert(digit, value@),
            name@ != "Source"@ && name@ == "Patch"@ ==> r is Ok && final(self).rpm == (RPMSpec { patches: final(self).rpm.patches, ..old(self).rpm })
                && final(self).rpm.patches.view() == old(self).rpm.patches.view().insert(digit, value@),
            name@ != "Source"@ && name@ != "Patch"@ ==> r is Err && final(self).rpm == old(self).rpm,
    {
        let nm = chars_of(name);
        if is_lit(&nm, "Source") {
            self.rpm.sources.insert(digit, value.to_owned());
            Ok(())
        } else if is_lit(&nm, "Patch") {
            self.rpm.patches.insert(digit, value.to_owned());
            Ok(())
        } else {
            Err(SpecFailure::Invalid("Failed to match preamble".to_owned()))
        }
    }

    /// Parses a `Requires:` or `Requires(...):` line; `Ok(false)` when the
    /// line is not one.
    pub fn parse_requires(&mut self, sline: &str) -> (r: Result<bool, SpecFailure>)
        requires
            old(self).wf(),
        ensures
            final(self).wf(),
            requires_rel(*old(self), *final(self), sline@, r),
    {
        let (g, v) = match requires_captures(sline) {
            Some(x) => x,
            None => {
                return Ok(false);
            },
        };
        let q = string_of(&trim_chars(&chars_of(v.as_str())));
        let mut pkgs: Vec<Package> = Vec::new();
        match Package::add_query(&mut pkgs, q.as_str()) {
            Ok(()) => {},
            Err(m) => {
                return Err(SpecFailure::Invalid(m));
            },
        }
        assert(pkgs_view(pkgs) =~= query_pkgs(trim(v@)).0);
        let mods = mods_exec(&g);
        let pkg_name = match &self.state.section {
            RPMSection::Package(p) => Some(p.clone()),
            _ => None,
        };
        let unknown = match pkg_name {
            Some(p) => {
                proof {
                    lemma_find_pkg(pkg_names(self.rpm.packages), p@, 0);
                }
                let k = match find_pkg_exec(&self.rpm.packages, &p) {
                    Some(k) => k,
                    None => {
                        proof { assert(false); }
                        return Ok(true);
                    },
                };
                let mut slot = (String::new(), RPMSpecPkg::new());
                self.rpm.packages.set_and_swap(k, &mut slot);
                let u = apply_mods(&mut slot.1.requires, &mods, &pkgs);
                self.rpm.packages.set_and_swap(k, &mut slot);
                proof {
                    assert(pkg_names(self.rpm.packages) =~= pkg_names(old(self).rpm.packages));
                }
                u
            },
            None => apply_mods(&mut self.rpm.requires, &mods, &pkgs),
        };
        let ghost mid = *self;
        let ghost want = unknown_mods(words_view(mods)).map_values(
            |m: Seq<char>| ErrorView::UnknownModifier(old(self).count_line, m));
        let mut i: usize = 0;
        while i < unknown.len()
            invariant
                i <= unknown.len(),
                words_view(unknown) == unknown_mods(words_view(mods)),
                want == unknown_mods(words_view(mods)).map_values(
                    |m: Seq<char>| ErrorView::UnknownModifier(old(self).count_line, m)),
                self.rpm == mid.rpm,
                keeps_frame(mid, *self),
                mid.count_line == old(self).count_line,
                errors_view(self.state.errors) == errors_view(mid.state.errors) + want.take(i as int),
            decreases unknown.len() - i,
        {
            let ghost before = errors_view(self.state.errors);
            self.push_error(ParserError::UnknownModifier(self.count_line, string_of(unknown[i].as_slice())));
            assert(want.take(i + 1) =~= want.take(i as int).push(want[i as int]));
            assert(errors_view(self.state.errors) =~= errors_view(mid.state.errors) + want.take(i + 1));
            i += 1;
        }
        assert(want.take(unknown.len() as int) =~= want);
        Ok(true)
    }
}

fn append_pkgs(dst: &mut Vec<Package>, src: Vec<Package>)
    ensures
        pkgs_view(*final(dst)) == pkgs_view(*old(dst)) + pkgs_view(src),
{
    let mut src = src;
    let ghost s = pkgs_view(src);
    let ghost d0 = pkgs_view(*dst);
    dst.append(&mut src);
    assert(pkgs_view(*dst) =~= d0 + s);
}

pub(crate) fn is_unimplemented_exec(nm: &Vec<char>) -> (r: bool)
    ensures
        r == is_unimplemented_preamble(nm@),
{
    is_lit(nm, "OrderWithRequires") || is_lit(nm, "BuildConflicts") || is_lit(nm, "Prefixes") || is_lit(nm, "Prefix") || is_lit(nm, "DocDir") || is_lit(nm, "RemovePathPostfixes")
}

} // verus!
