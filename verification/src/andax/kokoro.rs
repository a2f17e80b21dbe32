//! Regular expressions given by update scripts: taking a group of the first
//! match, and replacing every match. The patterns are compiled and matched by
//! the `regex` crate; what it yields is named by uninterpreted functions of
//! the pattern and the text.
use crate::text::{append_chars, chars_of, string_of};
use vstd::prelude::*;

verus! {

/// The message of the error that compiling the pattern gives, or `None`
/// when it compiles.
pub uninterp spec fn regex_error(pattern: Seq<char>) -> Option<Seq<char>>;

/// `Regex::new`: the message of its error, if any.
#[verifier::external_body]
fn pattern_error(pattern: &str) -> (r: Option<String>)
    ensures
        match r {
            Some(e) => regex_error(pattern@) == Some(e@),
            None => regex_error(pattern@) is None,
        },
{
    match regex::Regex::new(pattern) {
        Ok(_) => None,
        Err(e) => Some(e.to_string()),
    }
}

/// The groups of the first match of the pattern in the text, group 0 being
/// the whole match; a group that took no part in the match is `None`.
pub uninterp spec fn regex_groups(pattern: Seq<char>, text: Seq<char>) -> Option<Seq<Option<Seq<char>>>>;

/// The view of the groups handed out by the wrapper.
pub open spec fn groups_view(v: Vec<Option<String>>) -> Seq<Option<Seq<char>>> {
    v@.map_values(|g: Option<String>| crate::text::opt_view(g))
}

/// `Regex::captures` with a pattern that compiles, giving every group. A
/// match always has group 0, the whole match.
#[verifier::external_body]
fn captures_groups(pattern: &str, text: &str) -> (r: Option<Vec<Option<String>>>)
    requires
        regex_error(pattern@) is None,
    ensures
        match r {
            Some(g) => regex_groups(pattern@, text@) == Some(groups_view(g)) && g@.len() > 0 && g@[0] is Some,
            None => regex_groups(pattern@, text@) is None,
        },
{
    match regex::Regex::new(pattern).unwrap().captures(text) {
        Some(c) => Some(c.iter().map(|m| m.map(|m| m.as_str().to_string())).collect()),
        None => None,
    }
}

/// The text with every match of the pattern replaced by `rep`, where `$` in
/// `rep` refers to the match's groups.
pub uninterp spec fn regex_replaced_all(pattern: Seq<char>, text: Seq<char>, rep: Seq<char>) -> Seq<char>;

/// `Regex::replace_all` with a pattern that compiles.
#[verifier::external_body]
fn replace_all_matches(pattern: &str, rep: &str, text: &str) -> (r: String)
    requires
        regex_error(pattern@) is None,
    ensures
        r@ == regex_replaced_all(pattern@, text@, rep@),
{
    regex::Regex::new(pattern).unwrap().replace_all(text, rep).into_owned()
}

/// `<what>: <pattern>` and, on the next line, `Text: <text>`.
pub open spec fn regex_failure_msg(what: Seq<char>, r: Seq<char>, text: Seq<char>) -> Seq<char> {
    what + ": "@ + r + "\nText: "@ + text
}

fn regex_failure(what: &str, r: &str, text: &str) -> (m: String)
    ensures
        m@ == regex_failure_msg(what@, r@, text@),
{
    let mut v = chars_of(what);
    append_chars(&mut v, &chars_of(": "));
    append_chars(&mut v, &chars_of(r));
    append_chars(&mut v, &chars_of("\nText: "));
    append_chars(&mut v, &chars_of(text));
    assert(v@ =~= regex_failure_msg(what@, r@, text@));
    string_of(&v)
}

/// What `find` gives for the groups of a match (or none) and a group
/// number: the group's text, or the message of what went wrong.
pub open spec fn find_result(
    groups: Option<Seq<Option<Seq<char>>>>,
    r: Seq<char>,
    text: Seq<char>,
    group: int,
) -> Result<Seq<char>, Seq<char>> {
    match groups {
        None => Err(regex_failure_msg("Can't match regex"@, r, text)),
        Some(g) => if group < 0 {
            Err("out of range integral type conversion attempted"@)
        } else if group < g.len() && g[group] is Some {
            Ok(g[group]->Some_0)
        } else {
            Err(regex_failure_msg("Can't get group"@, r, text))
        },
    }
}

/// Group `group` of the match whose groups are `groups` (none when the
/// pattern `r` did not match `text`).
pub fn pick_group(groups: Option<Vec<Option<String>>>, r: &str, text: &str, group: i64) -> (res: Result<String, String>)
    ensures
        match (res, find_result(
            match groups {
                Some(g) => Some(groups_view(g)),
                None => None,
            },
            r@,
            text@,
            group as int,
        )) {
            (Ok(a), Ok(b)) => a@ == b,
            (Err(a), Err(b)) => a@ == b,
            _ => false,
        },
{
    match groups {
        None => Err(regex_failure("Can't match regex", r, text)),
        Some(g) => {
            if group < 0 {
                return Err("out of range integral type conversion attempted".to_owned());
            }
            if (group as u64) < (g.len() as u64) {
                let k = group as usize;
                match &g[k] {
                    Some(s) => {
                        return Ok(s.clone());
                    },
                    None => {},
                }
            }
            Err(regex_failure("Can't get group", r, text))
        },
    }
}

/// Group `group` of the first match of the pattern `r` in `text`: an error
/// when the pattern does not compile (its message), when it does not match,
/// when the group number is negative, or when the match has no such group.
pub fn find(r: &str, text: &str, group: i64) -> (res: Result<String, String>)
    ensures
        match regex_error(r@) {
            Some(e) => res is Err && res->Err_0@ == e,
            None => match (res, find_result(regex_groups(r@, text@), r@, text@, group as int)) {
                (Ok(a), Ok(b)) => a@ == b,
                (Err(a), Err(b)) => a@ == b,
                _ => false,
            },
        },
{
    match pattern_error(r) {
        Some(e) => Err(e),
        None => pick_group(captures_groups(r, text), r, text, group),
    }
}

/// `text` with every match of the pattern `r` replaced by `rep`; an error
/// (its message) when the pattern does not compile.
pub fn sub(r: &str, rep: &str, text: &str) -> (res: Result<String, String>)
    ensures
        match regex_error(r@) {
            Some(e) => res is Err && res->Err_0@ == e,
            None => res is Ok && res->Ok_0@ == regex_replaced_all(r@, text@, rep@),
        },
{
    match pattern_error(r) {
        Some(e) => Err(e),
        None => Ok(replace_all_matches(r, rep, text)),
    }
}

} // verus!
