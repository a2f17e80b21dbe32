//! The regular expressions of the spec parser (matched with the `regex`
//! crate) and the date parsing of changelogs (done by `chrono`).
//!
//! What a match yields is named by an uninterpreted function of the text
//! matched; the few facts stated beside a name are those the pattern itself
//! makes plain.
use chrono::Datelike;
use crate::rpmspec::model::ChangelogDate;
use crate::rpmspec::package::is_cond_symbol;
use vstd::prelude::*;

verus! {

/// Whether the character is in the class `\w` of the `regex` crate (the
/// Unicode word characters).
pub uninterp spec fn regex_word_char(c: char) -> bool;

/// `Regex::is_match` with `^\w$` on the character alone: whether it is a
/// word character.
#[verifier::external_body]
pub(crate) fn is_regex_word_char(c: char) -> (r: bool)
    ensures
        r == regex_word_char(c),
{
    let mut b = [0u8; 4];
    regex::Regex::new(r"^\w$").unwrap().is_match(c.encode_utf8(&mut b))
}

/// Whether `^%dnl\b` matches the line: it begins with `%dnl`, and the
/// line ends there or goes on with a character that is not a word
/// character (the word boundary).
pub open spec fn dnl_line(line: Seq<char>) -> bool {
    &&& line.len() >= 4 && line.take(4) == "%dnl"@
    &&& line.len() == 4 || !regex_word_char(line[4])
}

/// `Regex::is_match` with `^%dnl\b`: whether the line is a `%dnl` comment.
#[verifier::external_body]
pub(crate) fn is_dnl(line: &str) -> (r: bool)
    ensures
        r == dnl_line(line@),
{
    regex::Regex::new(r"^%dnl\b").unwrap().is_match(line)
}

/// Groups 1 and 2 of each match of `(?m)^%([\w()]+)[\t ]+((\\\n|[^\n])+)$`
/// in a macro file, in order: a macro's name and its body.
pub uninterp spec fn macro_file_caps(text: Seq<char>) -> Seq<(Seq<char>, Seq<char>)>;

/// `Regex::captures_iter` with the macro-file pattern, giving groups 1
/// and 2 of each match.
#[verifier::external_body]
pub(crate) fn macro_file_captures(text: &str) -> (r: Vec<(String, String)>)
    ensures
        r@.map_values(|c: (String, String)| (c.0@, c.1@)) == macro_file_caps(text@),
{
    regex::Regex::new(r"(?m)^%([\w()]+)[\t ]+((\\\n|[^\n])+)$").unwrap()
        .captures_iter(text)
        .map(|c| (c[1].to_string(), c[2].to_string()))
        .collect()
}

/// The groups of the first match of `(\w+):\s*(.+)`: the preamble's name
/// and its value.
pub uninterp spec fn preamble_parts(line: Seq<char>) -> Option<(Seq<char>, Seq<char>)>;

/// `Regex::captures` with `(\w+):\s*(.+)`, giving groups 1 and 2.
#[verifier::external_body]
pub(crate) fn preamble_captures(line: &str) -> (r: Option<(String, String)>)
    ensures
        match r {
            Some((n, v)) => preamble_parts(line@) == Some((n@, v@)),
            None => preamble_parts(line@) is None,
        },
{
    match regex::Regex::new(r"(\w+):\s*(.+)").unwrap().captures(line) {
        Some(c) => Some((c[1].to_string(), c[2].to_string())),
        None => None,
    }
}

/// The match of `\d+$`: the digits at the end of a preamble's name.
pub uninterp spec fn digit_suffix(name: Seq<char>) -> Option<Seq<char>>;

/// `Regex::captures` with `\d+$`, giving the whole match. A match of a
/// pattern ending in `$` ends where the text ends.
#[verifier::external_body]
pub(crate) fn digit_suffix_match(name: &str) -> (r: Option<String>)
    ensures
        match r {
            Some(d) => digit_suffix(name@) == Some(d@) && 0 < d@.len() <= name@.len()
                && name@.skip(name@.len() - d@.len()) == d@,
            None => digit_suffix(name@) is None,
        },
{
    match regex::Regex::new(r"\d+$").unwrap().captures(name) {
        Some(c) => Some(c[0].to_string()),
        None => None,
    }
}

/// Groups 1 and 2 of the first match of
/// `(?m)^Requires(?:\(([\w,\s]+)\))?:\s*(.+)$`: the modifiers in the
/// brackets, where there are any, and the dependencies of a `Requires:`
/// line.
pub uninterp spec fn requires_parts(line: Seq<char>) -> Option<(Option<Seq<char>>, Seq<char>)>;

/// `Regex::captures` with the `Requires:` pattern, giving groups 1 and 2.
#[verifier::external_body]
pub(crate) fn requires_captures(line: &str) -> (r: Option<(Option<String>, String)>)
    ensures
        match r {
            Some((m, v)) => requires_parts(line@) == Some((crate::text::opt_view(m), v@)),
            None => requires_parts(line@) is None,
        },
{
    match regex::Regex::new(r"(?m)^Requires(?:\(([\w,\s]+)\))?:\s*(.+)$").unwrap().captures(line) {
        Some(c) => Some((c.get(1).map(|m| m.as_str().to_string()), c[2].to_string())),
        None => None,
    }
}

/// The first match of
/// `\s+(>=?|<=?|=)\s+(\d+:)?([\w\d.^~]+)-([\w\d.^~]+)(.*)`: where it
/// starts, then the groups: condition, epoch with its colon, version,
/// release and what follows.
pub uninterp spec fn pkgq_parts(s: Seq<char>) -> Option<(int, Seq<char>, Option<Seq<char>>, Seq<char>, Seq<char>, Seq<char>)>;

/// `Regex::captures` with the dependency condition pattern, with the byte
/// offset where the match starts. Group 1 is one of the five operators,
/// group 2 ends with `:`, and group 5 lies inside the text after at least
/// the operator, so it is shorter than the text.
#[verifier::external_body]
pub(crate) fn pkgq_captures(s: &str) -> (r: Option<(usize, String, Option<String>, String, String, String)>)
    ensures
        match r {
            Some((at, c, e, v, rel, rest)) => pkgq_parts(s@) == Some((at as int, c@, crate::text::opt_view(e), v@, rel@, rest@))
                && is_cond_symbol(c@)
                && rest@.len() < s@.len()
                && (e matches Some(ep) ==> ep@.len() >= 2 && ep@.last() == ':'),
            None => pkgq_parts(s@) is None,
        },
{
    let re = regex::Regex::new(r"\s+(>=?|<=?|=)\s+(\d+:)?([\w\d.^~]+)-([\w\d.^~]+)(.*)").unwrap();
    match re.captures(s) {
        Some(c) => Some((c.get(0).unwrap().start(), c[1].to_string(), c.get(2).map(|m| m.as_str().to_string()),
            c[3].to_string(), c[4].to_string(), c[5].to_string())),
        None => None,
    }
}

/// One match of `(?m)^(%\w+(\(.+\))?\s+)?(.+)$` in a `%files` section:
/// the whole match, groups 1 and 2 (the directive and its parenthesised
/// arguments) and group 3 (the path).
pub type FileCap = (Seq<char>, Option<Seq<char>>, Option<Seq<char>>, Seq<char>);

/// The matches of the `%files` pattern in `raw`, in order.
pub uninterp spec fn file_caps(raw: Seq<char>) -> Seq<FileCap>;

/// One match of the `%files` pattern, as strings.
pub struct FileMatch {
    pub whole: String,
    pub directive: Option<String>,
    pub args: Option<String>,
    pub path: String,
}

pub open spec fn file_match_view(m: FileMatch) -> FileCap {
    (m.whole@, crate::text::opt_view(m.directive), crate::text::opt_view(m.args), m.path@)
}

/// `Regex::captures_iter` with the `%files` pattern. Group 2 lies inside
/// group 1 and is `(`, at least one character and `)`.
#[verifier::external_body]
pub(crate) fn file_captures(raw: &str) -> (r: Vec<FileMatch>)
    ensures
        r@.map_values(|m: FileMatch| file_match_view(m)) == file_caps(raw@),
        forall|i: int| 0 <= i < r@.len() ==> ((#[trigger] r@[i]).args matches Some(a) ==> (r@[i].directive is Some
            && a@.len() >= 3 && a@[0] == '(' && a@.last() == ')')),
{
    let re = regex::Regex::new(r"(?m)^(%\w+(\(.+\))?\s+)?(.+)$").unwrap();
    re.captures_iter(raw).map(|c| FileMatch {
        whole: c[0].to_string(),
        directive: c.get(1).map(|m| m.as_str().to_string()),
        args: c.get(2).map(|m| m.as_str().to_string()),
        path: c[3].to_string(),
    }).collect()
}

/// One match of the `%changelog` pattern: the date, the maintainer, the
/// email, the version and the message (groups 1, 6, 8, 10 and 11).
pub type ChangelogCap = (Seq<char>, Seq<char>, Option<Seq<char>>, Option<Seq<char>>, Seq<char>);

/// The matches of the `%changelog` pattern in `raw`, in order.
pub uninterp spec fn changelog_caps(raw: Seq<char>) -> Seq<ChangelogCap>;

/// One match of the `%changelog` pattern, as strings.
pub struct ChangelogMatch {
    pub date: String,
    pub maintainer: String,
    pub email: Option<String>,
    pub version: Option<String>,
    pub message: String,
}

pub open spec fn changelog_match_view(m: ChangelogMatch) -> ChangelogCap {
    (m.date@, m.maintainer@, crate::text::opt_view(m.email), crate::text::opt_view(m.version), m.message@)
}

/// `Regex::captures_iter` with the `%changelog` pattern: an entry's line
/// `* date maintainer [<email>] [- version]`, then its message, every line
/// below it up to the next one that starts with `*` (a `*` inside a line,
/// as in `- *markdown* here`, stays in the message). A version is made of
/// digits, word characters and `.`, `-`, `^`, `~`, `_` (as in `1.11.0-6`).
#[verifier::external_body]
pub(crate) fn changelog_captures(raw: &str) -> (r: Vec<ChangelogMatch>)
    ensures
        r@.map_values(|m: ChangelogMatch| changelog_match_view(m)) == changelog_caps(raw@),
{
    let re = regex::Regex::new(r"(?m)^\*[ \t]*((\w{3})[ \t]+(\w{3})[ \t]+(\d+)[ \t]+(\d+))[ \t]+(\S+)([ \t]+<([\w@.+]+)>)?([ \t]+-[ \t]+([\d.\-^~_\w]+))?$((\n^(?:[^*\n][^\n]*)?)+)").unwrap();
    re.captures_iter(raw).map(|c| ChangelogMatch {
        date: c[1].to_string(),
        maintainer: c[6].to_string(),
        email: c.get(8).map(|m| m.as_str().to_string()),
        version: c.get(10).map(|m| m.as_str().to_string()),
        message: c[11].to_string(),
    }).collect()
}

/// The date that `NaiveDate::parse_from_str(s, "%a %b %d %Y")` gives, as
/// year, month and day.
pub uninterp spec fn changelog_date(s: Seq<char>) -> Option<ChangelogDate>;

/// `chrono::NaiveDate::parse_from_str` with `%a %b %d %Y`.
#[verifier::external_body]
pub(crate) fn parse_changelog_date(s: &str) -> (r: Option<ChangelogDate>)
    ensures
        r == changelog_date(s@),
{
    match chrono::NaiveDate::parse_from_str(s, "%a %b %d %Y") {
        Ok(d) => Some(ChangelogDate { year: d.year(), month: d.month(), day: d.day() }),
        Err(_) => None,
    }
}

} // verus!
