//! The traceback shown when an update script fails: the failing line with
//! the failing word marked, what was being invoked, the error, and a hint for
//! a few well-known mistakes.
use crate::rpmspec::macrospec::split_char;
use crate::rpmspec::words::{split_char_exec, words_view};
use crate::text::{
    append_chars, chars_eq, chars_of, decimal, format_decimal, starts_with, string_of, trim, trim_chars, utf8_len,
    utf8_len_exec,
};
use vstd::prelude::*;

verus! {

/// The lines of a text (`str::lines`): the parts between newlines, without
/// the empty part after a final newline. Each line is trimmed here, which
/// also drops the carriage return that `lines` drops.
pub open spec fn trimmed_lines(s: Seq<char>) -> Seq<Seq<char>> {
    let parts = split_char(s, '\n');
    let kept = if parts.len() > 0 && parts.last().len() == 0 {
        parts.drop_last()
    } else {
        parts
    };
    Seq::new(kept.len(), |i: int| trim(kept[i]))
}

/// The hint block: the first line of the hint after `Hint:` under the
/// traceback's margin `lns`, each further line after `...:` indented seven
/// columns past the margin.
pub open spec fn hint_block(lns: Seq<char>, ls: Seq<Seq<char>>) -> Seq<char>
    decreases ls.len(),
{
    if ls.len() == 0 {
        seq![]
    } else if ls.len() == 1 {
        "\n "@ + lns + " └─═ Hint: "@ + ls[0]
    } else {
        hint_block(lns, ls.drop_last()) + seq!['\n'] + Seq::new((7 + utf8_len(lns)) as nat, |_i: int| ' ') + "...: "@
            + ls.last()
    }
}

/// The hint block for the hint text `s`.
pub fn hint_text(lns: &str, s: &str) -> (r: String)
    requires
        7 + utf8_len(lns@) <= usize::MAX,
    ensures
        r@ == hint_block(lns@, trimmed_lines(s@)),
{
    let ghost ls = trimmed_lines(s@);
    let c = chars_of(s);
    let parts = split_char_exec(&c, '\n');
    let mut n = parts.len();
    if n > 0 && parts[n - 1].len() == 0 {
        n = n - 1;
    }
    let left = 7 + utf8_len_exec(lns);
    let mut v: Vec<char> = Vec::new();
    let mut i: usize = 0;
    while i < n
        invariant
            i <= n,
            n <= parts@.len(),
            ls.len() == n,
            left == 7 + utf8_len(lns@),
            forall|j: int| 0 <= j < n ==> ls[j] == trim((#[trigger] words_view(parts)[j])),
            forall|j: int| 0 <= j < n ==> words_view(parts)[j] == (#[trigger] parts@[j])@,
            v@ == hint_block(lns@, ls.take(i as int)),
        decreases n - i,
    {
        let line = trim_chars(&parts[i]);
        assert(ls.take(i + 1).drop_last() =~= ls.take(i as int));
        assert(ls.take(i + 1).last() == ls[i as int]);
        if i == 0 {
            append_chars(&mut v, &chars_of("\n "));
            append_chars(&mut v, &chars_of(lns));
            append_chars(&mut v, &chars_of(" └─═ Hint: "));
            append_chars(&mut v, &line);
        } else {
            v.push('\n');
            let mut k: usize = 0;
            let ghost before = v@;
            while k < left
                invariant
                    k <= left,
                    v@ == before + Seq::new(k as nat, |_i: int| ' '),
                decreases left - k,
            {
                v.push(' ');
                k += 1;
                assert(v@ =~= before + Seq::new(k as nat, |_i: int| ' '));
            }
            append_chars(&mut v, &chars_of("...: "));
            append_chars(&mut v, &line);
        }
        assert(v@ =~= hint_block(lns@, ls.take(i + 1)));
        i += 1;
    }
    assert(ls.take(n as int) =~= ls);
    string_of(&v)
}

/// The error an engine reports, as far as hints look at it.
#[derive(Debug, Clone)]
pub enum EngineError {
    /// A runtime error carrying a string
    RuntimeString(String),
    /// The script wanted output of type `.0` and got `.1`
    MismatchOutputType(String, String),
    /// Any other error
    Other,
}

/// What made a script fail, as far as hints look at it.
#[derive(Debug, Clone)]
pub enum Cause {
    /// An error of the engine
    Engine(EngineError),
    /// Another error, by its message
    Foreign(String),
    /// A report with no engine error under it
    Report,
}

/// The hint for a missing GitHub token.
pub open spec fn token_hint() -> Seq<char> {
    "gh() requires the environment variable `GITHUB_TOKEN` to be set as a Github token so as to avoid rate-limits:\nhttps://docs.github.com/en/rest/overview/resources-in-the-rest-api#rate-limiting\nTo create a Github token, see:\nhttps://docs.github.com/en/authentication/keeping-your-account-and-data-secure/creating-a-personal-access-token"@
}

/// The hint for a JSON array read as an object.
pub open spec fn json_arr_hint() -> Seq<char> {
    "If the json root is an array `[]`, use json_arr() instead."@
}

/// The hint for a missing GitHub release.
pub open spec fn release_hint() -> Seq<char> {
    "Check if the repo is valid. Only releases are supported; use gh_tag() for tags."@
}

/// Whether `s` occurs in `t`.
pub open spec fn contains_seq(t: Seq<char>, s: Seq<char>) -> bool {
    exists|i: int| 0 <= i <= t.len() - s.len() && #[trigger] t.subrange(i, i + s.len()) == s
}

/// The hint text for a failure, if there is one: a missing GitHub token, a
/// JSON array read with `json(` on the failing line, or a GitHub repository
/// without releases asked for by `gh`.
pub open spec fn hint_for(sl: Seq<char>, cause: Cause, rhai_fn: Seq<char>) -> Option<Seq<char>> {
    match cause {
        Cause::Engine(EngineError::RuntimeString(s)) => if s@ == "env(`GITHUB_TOKEN`) not present"@ {
            Some(token_hint())
        } else {
            None
        },
        Cause::Engine(EngineError::MismatchOutputType(req, actual)) => if contains_seq(sl, "json("@) && req@ == "map"@
            && actual@ == "array"@ {
            Some(json_arr_hint())
        } else {
            None
        },
        Cause::Engine(EngineError::Other) => None,
        Cause::Foreign(s) => if rhai_fn == "gh"@ && s@.len() >= "https://api.github.com/repos/"@.len() && s@.take(
            "https://api.github.com/repos/"@.len() as int,
        ) == "https://api.github.com/repos/"@ && s@.len() >= "/releases/latest: status code 404"@.len() && s@.skip(
            s@.len() - "/releases/latest: status code 404"@.len(),
        ) == "/releases/latest: status code 404"@ {
            Some(release_hint())
        } else {
            None
        },
        Cause::Report => None,
    }
}

fn contains_exec(t: &Vec<char>, s: &Vec<char>) -> (r: bool)
    ensures
        r == contains_seq(t@, s@),
{
    if s.len() > t.len() {
        return false;
    }
    let mut i: usize = 0;
    while i <= t.len() - s.len()
        invariant
            s.len() <= t.len(),
            i <= t.len() - s.len() + 1,
            forall|j: int| 0 <= j < i ==> #[trigger] t@.subrange(j, j + s@.len()) != s@,
        decreases t.len() - s.len() + 1 - i,
    {
        let mut k: usize = 0;
        let mut same = true;
        while k < s.len()
            invariant
                k <= s.len(),
                i + s.len() <= t.len(),
                same == (forall|m: int| 0 <= m < k ==> t@[i + m] == s@[m]),
            decreases s.len() - k,
        {
            if t[i + k] != s[k] {
                same = false;
            }
            k += 1;
        }
        if same {
            assert(t@.subrange(i as int, i + s@.len()) =~= s@);
            return true;
        } else {
            assert(t@.subrange(i as int, i + s@.len()) != s@) by {
                let m = choose|m: int| 0 <= m < s.len() && t@[i + m] != s@[m];
                assert(t@.subrange(i as int, i + s@.len())[m] != s@[m]);
            }
        }
        i += 1;
    }
    false
}

fn ends_with_chars(a: &Vec<char>, p: &Vec<char>) -> (r: bool)
    ensures
        r == (a@.len() >= p@.len() && a@.skip(a@.len() - p@.len()) == p@),
{
    if p.len() > a.len() {
        return false;
    }
    let off = a.len() - p.len();
    let mut i: usize = 0;
    while i < p.len()
        invariant
            i <= p.len(),
            off + p.len() == a.len(),
            forall|j: int| 0 <= j < i ==> a@[off + j] == p@[j],
        decreases p.len() - i,
    {
        if a[off + i] != p[i] {
            assert(a@.skip(off as int)[i as int] != p@[i as int]);
            return false;
        }
        i += 1;
    }
    assert(a@.skip(off as int) =~= p@);
    true
}

/// The hint text for a failure of the line `sl`, if there is one.
pub fn hint(sl: &str, cause: &Cause, rhai_fn: &str) -> (r: Option<String>)
    ensures
        match r {
            Some(h) => hint_for(sl@, *cause, rhai_fn@) == Some(h@),
            None => hint_for(sl@, *cause, rhai_fn@) is None,
        },
{
    match cause {
        Cause::Engine(EngineError::RuntimeString(s)) => {
            if chars_eq(&chars_of(s.as_str()), &chars_of("env(`GITHUB_TOKEN`) not present")) {
                Some(
                    "gh() requires the environment variable `GITHUB_TOKEN` to be set as a Github token so as to avoid rate-limits:\nhttps://docs.github.com/en/rest/overview/resources-in-the-rest-api#rate-limiting\nTo create a Github token, see:\nhttps://docs.github.com/en/authentication/keeping-your-account-and-data-secure/creating-a-personal-access-token".to_owned(),
                )
            } else {
                None
            }
        },
        Cause::Engine(EngineError::MismatchOutputType(req, actual)) => {
            if contains_exec(&chars_of(sl), &chars_of("json(")) && chars_eq(&chars_of(req.as_str()), &chars_of("map"))
                && chars_eq(&chars_of(actual.as_str()), &chars_of("array")) {
                Some("If the json root is an array `[]`, use json_arr() instead.".to_owned())
            } else {
                None
            }
        },
        Cause::Engine(EngineError::Other) => None,
        Cause::Foreign(s) => {
            let c = chars_of(s.as_str());
            if chars_eq(&chars_of(rhai_fn), &chars_of("gh")) && starts_with(&c, &chars_of("https://api.github.com/repos/"))
                && ends_with_chars(&c, &chars_of("/releases/latest: status code 404")) {
                Some("Check if the repo is valid. Only releases are supported; use gh_tag() for tags.".to_owned())
            } else {
                None
            }
        },
        Cause::Report => None,
    }
}

/// The byte range of the first match of `[A-Za-z_][A-Za-z0-9_]*` in the line
/// at or after the byte `start`.
pub uninterp spec fn word_match(line: Seq<char>, start: nat) -> Option<(nat, nat)>;

/// `Regex::find_at` with `[A-Za-z_][A-Za-z0-9_]*`, giving the match's byte
/// range. A match lies within the line and at or after `start`.
#[verifier::external_body]
fn find_word(line: &str, start: usize) -> (r: Option<(usize, usize)>)
    requires
        start <= utf8_len(line@),
    ensures
        match r {
            Some((a, b)) => word_match(line@, start as nat) == Some((a as nat, b as nat)) && start <= a <= b,
            None => word_match(line@, start as nat) is None,
        },
{
    match regex::Regex::new(r"[A-Za-z_][A-Za-z0-9_]*").unwrap().find_at(line, start) {
        Some(m) => Some((m.start(), m.end())),
        None => None,
    }
}

/// `s` with each tab made a space.
pub open spec fn untab(s: Seq<char>) -> Seq<char> {
    Seq::new(s.len(), |i: int| if s[i] == '\t' { ' ' } else { s[i] })
}

/// How many columns to mark under the failing word: the length of the word
/// that starts right at the column, or one.
pub open spec fn mark_width(line: Seq<char>, col: nat) -> nat {
    match word_match(line, (col - 1) as nat) {
        Some((a, b)) => if a == col - 1 {
            (b - a) as nat
        } else {
            1
        },
        None => 1,
    }
}

/// `s` with every `└` but the last made `├`.
pub open spec fn branch_corners(s: Seq<char>) -> Seq<char> {
    Seq::new(
        s.len(),
        |i: int|
            if s[i] == '└' && (exists|j: int| i < j < s.len() && s[j] == '└') {
                '├'
            } else {
                s[i]
            },
    )
}

/// `n` copies of `c`.
pub open spec fn run_of(c: char, n: nat) -> Seq<char> {
    Seq::new(n, |_i: int| c)
}

/// The top of the box: a rule with a tee down, over the margin of `ln`
/// columns and the line of `w` bytes.
pub open spec fn tb_top(ln: nat, w: nat) -> Seq<char> {
    seq!['─'] + run_of('─', ln) + "─┬"@ + run_of('─', w + 2)
}

/// The place: the script, the line and the column.
pub open spec fn tb_place(ln: nat, scr: Seq<char>, line: nat, col: nat) -> Seq<char> {
    "\n "@ + run_of(' ', ln) + " │ "@ + scr + seq![':'] + decimal(line) + seq![':'] + decimal(col)
}

/// The rule between the place and the line, with a cross.
pub open spec fn tb_mid(ln: nat, w: nat) -> Seq<char> {
    "\n─"@ + run_of('─', ln) + "─┼"@ + run_of('─', w + 2)
}

/// The line, after its number.
pub open spec fn tb_code(line: nat, sl: Seq<char>) -> Seq<char> {
    "\n "@ + decimal(line) + " │ "@ + sl
}

/// The mark under the failing word.
pub open spec fn tb_mark(ln: nat, col: nat, m: nat) -> Seq<char> {
    "\n "@ + run_of(' ', ln) + " │ "@ + run_of(' ', (col - 1) as nat) + run_of('🭶', m)
}

/// What was being invoked, if known.
pub open spec fn tb_invoking(ln: nat, rhai_fn: Seq<char>) -> Seq<char> {
    if rhai_fn.len() > 0 {
        "\n "@ + run_of(' ', ln) + " └─═ When invoking: "@ + rhai_fn + "()"@
    } else {
        seq![]
    }
}

/// Where the failing function came from, if known.
pub open spec fn tb_source(ln: nat, fn_src: Seq<char>) -> Seq<char> {
    if fn_src.len() > 0 {
        "\n "@ + run_of(' ', ln) + " └─═ Function source: "@ + fn_src
    } else {
        seq![]
    }
}

/// The error and the hint.
pub open spec fn tb_error(ln: nat, err: Seq<char>, hint: Seq<char>) -> Seq<char> {
    "\n "@ + run_of(' ', ln) + " └─═ "@ + err + hint
}

/// The body of a traceback for a failure at `line:col` of `scr`, whose text
/// there is `sl` (tabs made spaces): a box with the place and the line, the
/// failing word marked, then what was being invoked, where the function
/// came from, the error and the hint, the branches drawn so that only the
/// last one closes. The margin is as wide as the line number; the rules as
/// long as the line in bytes, and two more.
pub open spec fn traceback_body(
    scr: Seq<char>,
    line: nat,
    col: nat,
    sl: Seq<char>,
    rhai_fn: Seq<char>,
    fn_src: Seq<char>,
    err: Seq<char>,
    hint: Seq<char>,
) -> Seq<char> {
    let ln = decimal(line).len();
    let w = utf8_len(sl);
    branch_corners(
        tb_top(ln, w) + tb_place(ln, scr, line, col) + tb_mid(ln, w) + tb_code(line, sl) + tb_mark(
            ln,
            col,
            mark_width(sl, col),
        ) + tb_invoking(ln, rhai_fn) + tb_source(ln, fn_src) + tb_error(ln, err, hint),
    )
}

/// The traceback of a script failure: `Script Exception —— <project>` and
/// the body.
pub open spec fn traceback_msg(proj: Seq<char>, body: Seq<char>) -> Seq<char> {
    "Script Exception —— "@ + proj + seq!['\n'] + body
}

fn push_n(v: &mut Vec<char>, c: char, n: usize)
    ensures
        final(v)@ == old(v)@ + run_of(c, n as nat),
{
    let mut k: usize = 0;
    while k < n
        invariant
            k <= n,
            v@ == old(v)@ + run_of(c, k as nat),
        decreases n - k,
    {
        v.push(c);
        k += 1;
        assert(v@ =~= old(v)@ + run_of(c, k as nat));
    }
}

fn top_exec(ln: usize, w: usize, mid: &str) -> (r: Vec<char>)
    requires
        w + 2 <= usize::MAX,
    ensures
        r@ == seq!['─'] + run_of('─', ln as nat) + mid@ + run_of('─', (w + 2) as nat),
{
    let mut v: Vec<char> = Vec::new();
    v.push('─');
    push_n(&mut v, '─', ln);
    append_chars(&mut v, &chars_of(mid));
    push_n(&mut v, '─', w + 2);
    assert(v@ =~= seq!['─'] + run_of('─', ln as nat) + mid@ + run_of('─', (w + 2) as nat));
    v
}

fn place_exec(ln: usize, scr: &str, dl: &Vec<char>, col: usize) -> (r: Vec<char>)
    ensures
        r@ == "\n "@ + run_of(' ', ln as nat) + " │ "@ + scr@ + seq![':'] + dl@ + seq![':'] + decimal(col as nat),
{
    let mut v = chars_of("\n ");
    push_n(&mut v, ' ', ln);
    append_chars(&mut v, &chars_of(" │ "));
    append_chars(&mut v, &chars_of(scr));
    v.push(':');
    append_chars(&mut v, dl);
    v.push(':');
    append_chars(&mut v, &format_decimal(col));
    assert(v@ =~= "\n "@ + run_of(' ', ln as nat) + " │ "@ + scr@ + seq![':'] + dl@ + seq![':'] + decimal(col as nat));
    v
}

fn margin_exec(lead: &str, ln: usize, tail: &str) -> (r: Vec<char>)
    ensures
        r@ == lead@ + run_of(' ', ln as nat) + tail@,
{
    let mut v = chars_of(lead);
    push_n(&mut v, ' ', ln);
    append_chars(&mut v, &chars_of(tail));
    v
}

fn branch_corners_exec(s: &Vec<char>) -> (r: Vec<char>)
    ensures
        r@ == branch_corners(s@),
{
    let mut last: usize = s.len();
    let mut i: usize = 0;
    while i < s.len()
        invariant
            i <= s.len(),
            last == s.len() || (last < i && s@[last as int] == '└'),
            forall|j: int| last < j < i ==> s@[j] != '└',
            last == s.len() ==> forall|j: int| 0 <= j < i ==> s@[j] != '└',
        decreases s.len() - i,
    {
        if s[i] == '└' {
            last = i;
        }
        i += 1;
    }
    let mut out: Vec<char> = Vec::new();
    let mut k: usize = 0;
    while k < s.len()
        invariant
            k <= s.len(),
            last == s.len() || (last < s.len() && s@[last as int] == '└'),
            forall|j: int| last < j < s.len() ==> s@[j] != '└',
            last == s.len() ==> forall|j: int| 0 <= j < s.len() ==> s@[j] != '└',
            out@ == branch_corners(s@).take(k as int),
        decreases s.len() - k,
    {
        let c = if s[k] == '└' && k < last {
            '├'
        } else {
            s[k]
        };
        proof {
            if s@[k as int] == '└' && k < last {
                assert(k < last < s.len() && s@[last as int] == '└');
            } else if s@[k as int] == '└' {
                assert(!(exists|j: int| k < j < s.len() && s@[j] == '└'));
            }
        }
        out.push(c);
        assert(out@ =~= branch_corners(s@).take(k + 1));
        k += 1;
    }
    assert(branch_corners(s@).take(s.len() as int) =~= branch_corners(s@));
    out
}

fn untab_exec(s: &str) -> (r: Vec<char>)
    ensures
        r@ == untab(s@),
{
    let c = chars_of(s);
    let mut out: Vec<char> = Vec::new();
    let mut i: usize = 0;
    while i < c.len()
        invariant
            i <= c.len(),
            c@ == s@,
            out@ == untab(s@).take(i as int),
        decreases c.len() - i,
    {
        out.push(if c[i] == '\t' { ' ' } else { c[i] });
        assert(out@ =~= untab(s@).take(i + 1));
        i += 1;
    }
    assert(untab(s@).take(c.len() as int) =~= untab(s@));
    out
}

/// The traceback of a failure of the project `proj` at `line:col` of the
/// script `scr`, whose text at that line is `raw_line`; `err` is the error's
/// message and `hint` the hint block, if any. The column must lie on the
/// line, counted in bytes.
pub fn traceback(
    proj: &str,
    scr: &str,
    line: usize,
    col: usize,
    raw_line: &str,
    rhai_fn: &str,
    fn_src: &str,
    err: &str,
    hint: &str,
) -> (r: String)
    requires
        1 <= col,
        col - 1 <= utf8_len(untab(raw_line@)),
        utf8_len(untab(raw_line@)) + 2 <= usize::MAX,
    ensures
        r@ == traceback_msg(
            proj@,
            traceback_body(scr@, line as nat, col as nat, untab(raw_line@), rhai_fn@, fn_src@, err@, hint@),
        ),
{
    let slc = untab_exec(raw_line);
    let sl = string_of(&slc);
    let dl = format_decimal(line);
    let ln = dl.len();
    let m: usize = match find_word(sl.as_str(), col - 1) {
        Some((a, b)) => if a == col - 1 {
            b - a
        } else {
            1
        },
        None => 1,
    };
    let w = utf8_len_exec(sl.as_str());
    let ghost slv = untab(raw_line@);
    let ghost lnn = ln as nat;
    assert(sl@ == slv);
    assert(m == mark_width(slv, col as nat));
    let mut v = top_exec(ln, w, "─┬");
    assert(v@ == tb_top(lnn, w as nat));
    let ghost g1 = v@;
    append_chars(&mut v, &place_exec(ln, scr, &dl, col));
    let ghost g2 = v@;
    assert(g2 == g1 + tb_place(lnn, scr@, line as nat, col as nat));
    let mut mid = chars_of("\n");
    append_chars(&mut mid, &top_exec(ln, w, "─┼"));
    proof {
        reveal_strlit("\n─");
        reveal_strlit("\n");
    }
    assert(mid@ =~= tb_mid(lnn, w as nat));
    append_chars(&mut v, &mid);
    let ghost g3 = v@;
    let mut code = chars_of("\n ");
    append_chars(&mut code, &dl);
    append_chars(&mut code, &chars_of(" │ "));
    append_chars(&mut code, &slc);
    assert(code@ =~= tb_code(line as nat, slv));
    append_chars(&mut v, &code);
    let ghost g4 = v@;
    let mut mark = margin_exec("\n ", ln, " │ ");
    push_n(&mut mark, ' ', col - 1);
    push_n(&mut mark, '🭶', m);
    assert(mark@ =~= tb_mark(lnn, col as nat, m as nat));
    append_chars(&mut v, &mark);
    let ghost g5 = v@;
    let mut inv: Vec<char> = Vec::new();
    if chars_of(rhai_fn).len() > 0 {
        inv = margin_exec("\n ", ln, " └─═ When invoking: ");
        append_chars(&mut inv, &chars_of(rhai_fn));
        append_chars(&mut inv, &chars_of("()"));
    }
    assert(inv@ =~= tb_invoking(lnn, rhai_fn@));
    append_chars(&mut v, &inv);
    let ghost g6 = v@;
    let mut src: Vec<char> = Vec::new();
    if chars_of(fn_src).len() > 0 {
        src = margin_exec("\n ", ln, " └─═ Function source: ");
        append_chars(&mut src, &chars_of(fn_src));
    }
    assert(src@ =~= tb_source(lnn, fn_src@));
    append_chars(&mut v, &src);
    let ghost g7 = v@;
    let mut e = margin_exec("\n ", ln, " └─═ ");
    append_chars(&mut e, &chars_of(err));
    append_chars(&mut e, &chars_of(hint));
    assert(e@ =~= tb_error(lnn, err@, hint@));
    append_chars(&mut v, &e);
    assert(lnn == decimal(line as nat).len());
    assert(w == utf8_len(slv));
    assert(v@ == tb_top(lnn, w as nat) + tb_place(lnn, scr@, line as nat, col as nat) + tb_mid(lnn, w as nat) + tb_code(
        line as nat,
        slv,
    ) + tb_mark(lnn, col as nat, m as nat) + tb_invoking(lnn, rhai_fn@) + tb_source(lnn, fn_src@) + tb_error(
        lnn,
        err@,
        hint@,
    ));
    let body = branch_corners_exec(&v);
    let mut out = chars_of("Script Exception —— ");
    append_chars(&mut out, &chars_of(proj));
    out.push('\n');
    append_chars(&mut out, &body);
    assert(out@ =~= traceback_msg(
        proj@,
        traceback_body(scr@, line as nat, col as nat, slv, rhai_fn@, fn_src@, err@, hint@),
    ));
    string_of(&out)
}

/// Where the error of a traceback came from.
#[derive(Debug, Clone, Copy, PartialEq, Eq, Structural)]
pub enum TbErr {
    /// A report of the library code
    Report,
    /// Another error of the library code
    Arb,
    /// An error of the engine
    Rhai,
}

/// The error line of a traceback: where the error came from, then its
/// message.
pub open spec fn tb_err_text(kind: TbErr, msg: Seq<char>) -> Seq<char> {
    match kind {
        TbErr::Report => "From: "@ + msg,
        TbErr::Arb => "Caused by: "@ + msg,
        TbErr::Rhai => "Rhai: "@ + msg,
    }
}

/// The error line of a traceback for an error of the given kind and message.
pub fn describe_error(kind: TbErr, msg: &str) -> (r: String)
    ensures
        r@ == tb_err_text(kind, msg@),
{
    let mut v = match kind {
        TbErr::Report => chars_of("From: "),
        TbErr::Arb => chars_of("Caused by: "),
        TbErr::Rhai => chars_of("Rhai: "),
    };
    append_chars(&mut v, &chars_of(msg));
    string_of(&v)
}

} // verus!
