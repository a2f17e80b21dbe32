//! What macro expansion computes, stated over sequences of characters.
//!
//! The expander reads from a position in its input and may consume more of
//! it (a parametric macro takes the rest of the line as its arguments), so
//! every function here takes the input and a position and returns, besides
//! its outcome, the position it stopped at and the engine state after it ran
//! (definitions made on the way).
//!
//! Work outside the expander (the output of `%(command)`, the contents of a
//! file for `%load`) is read from replies recorded in the state; a missing
//! reply stops the expansion with [`SHalt::NeedShell`] or [`SHalt::NeedFile`].
//! Expansion also stops when macros nest deeper than [`MAX_DEPTH`] or the
//! step budget runs out ([`SHalt::TooDeep`]), and on a built-in macro that
//! is not supported ([`SHalt::Unsupported`]).
use crate::rpmspec::reader::{bal_closed, bal_step, balance0, read_line, Balance};
use crate::text::{decimal, is_alpha, is_alnum, is_ws, lowercase, trim, trim_end, unicode_numeric};
use vstd::prelude::*;

verus! {

/// How deeply macro bodies may nest.
pub const MAX_DEPTH: usize = 64;

/// Errors of macro expansion.
#[derive(Clone, Copy, PartialEq, Eq, Structural, Debug)]
pub enum MacroError {
    /// A bracket or quote opened in a macro use was never closed.
    Unclosed,
    /// The input ended inside `%{...}`, `%(...)` or after `\`.
    UnexpectedEnd,
    /// No macro of that name is defined.
    NotFound,
    /// A malformed `-x` flag, in arguments or in `%{-x}`.
    BadFlag,
    /// A positional parameter that is not a number.
    BadParam,
    /// The command of `%(...)` failed.
    ShellFailed,
    /// Something other than whitespace followed a `\` before the newline.
    BadContinuation,
}

/// Why an expansion stopped before it finished (spec form).
pub enum SHalt {
    /// The output of this shell command is needed.
    NeedShell(Seq<char>),
    /// The contents of this file are needed.
    NeedFile(Seq<char>),
    /// Macros nested too deeply or the step budget ran out.
    TooDeep,
    /// This built-in macro is not supported.
    Unsupported(Seq<char>),
}

/// The outcome of an expansion step.
pub enum SOut<T> {
    Done(T),
    Fail(MacroError),
    Halt(SHalt),
}

/// The state that expansion reads and changes.
pub struct Engine {
    /// Macro definitions.
    pub macros: Map<Seq<char>, Seq<char>>,
    /// Newlines seen while expanding.
    pub lines: u64,
    /// Recorded outputs of shell commands that succeeded.
    pub shell_ok: Map<Seq<char>, Seq<char>>,
    /// Shell commands recorded as failed.
    pub shell_failed: Map<Seq<char>, Seq<char>>,
    /// Recorded contents of files.
    pub files_ok: Map<Seq<char>, Seq<char>>,
    /// Files recorded as unreadable.
    pub files_failed: Map<Seq<char>, Seq<char>>,
}

/// One more newline seen.
pub open spec fn count_line(e: Engine) -> Engine {
    Engine { lines: if e.lines < u64::MAX { (e.lines + 1) as u64 } else { e.lines }, ..e }
}

/// A result step: outcome, position, state.
pub type Step = (SOut<Seq<char>>, int, Engine);

pub open spec fn halt_deep(pos: int, e: Engine) -> Step {
    (SOut::Halt(SHalt::TooDeep), pos, e)
}

/// An expansion that failed is replaced: by `alt` when `notflag` is set,
/// otherwise by nothing. A halt is passed on.
pub open spec fn fallback(r: SOut<Seq<char>>, notflag: bool, alt: Seq<char>) -> SOut<Seq<char>> {
    match r {
        SOut::Done(s) => SOut::Done(s),
        SOut::Fail(_) => SOut::Done(if notflag { alt } else { seq![] }),
        SOut::Halt(h) => SOut::Halt(h),
    }
}

/// The text that stands for an undefined macro used with `!`: `%{!a}`
/// stays `%{!a}`, but `%!a` becomes `%a`.
pub open spec fn undefined_text(braced: bool, name: Seq<char>) -> Seq<char> {
    if braced {
        seq!['%', '{', '!'] + name + seq!['}']
    } else {
        seq!['%'] + name
    }
}

/// `s` without trailing newlines.
pub open spec fn trim_newlines_end(s: Seq<char>) -> Seq<char>
    decreases s.len(),
{
    if s.len() > 0 && s.last() == '\n' {
        trim_newlines_end(s.drop_last())
    } else {
        s
    }
}

/// `s` split at every `c` (`str::split`).
pub open spec fn split_char(s: Seq<char>, c: char) -> Seq<Seq<char>>
    decreases s.len(),
{
    if s.len() == 0 {
        seq![seq![]]
    } else {
        let rest = split_char(s.drop_last(), c);
        if s.last() == c {
            rest.push(seq![])
        } else {
            rest.update(rest.len() - 1, rest.last().push(s.last()))
        }
    }
}

/// The words joined with single spaces.
pub open spec fn join_space(ws: Seq<Seq<char>>) -> Seq<char>
    decreases ws.len(),
{
    if ws.len() == 0 {
        seq![]
    } else if ws.len() == 1 {
        ws[0]
    } else {
        join_space(ws.drop_last()) + seq![' '] + ws.last()
    }
}

/// The words that do not begin with `-`.
pub open spec fn non_flags(ws: Seq<Seq<char>>) -> Seq<Seq<char>>
    decreases ws.len(),
{
    if ws.len() == 0 {
        seq![]
    } else if ws.last().len() > 0 && ws.last()[0] == '-' {
        non_flags(ws.drop_last())
    } else {
        non_flags(ws.drop_last()).push(ws.last())
    }
}

/// The arguments of a parametric macro: the words of the argument line that
/// are not flags.
pub open spec fn args_of(raw: Seq<char>) -> Seq<Seq<char>> {
    non_flags(split_char(raw, ' '))
}

/// The index of the first `c` in `s`.
pub open spec fn find_char(s: Seq<char>, c: char, i: int) -> Option<int>
    decreases s.len() - i,
{
    if i < 0 || i >= s.len() {
        None
    } else if s[i] == c {
        Some(i)
    } else {
        find_char(s, c, i + 1)
    }
}

/// The value of a string of ASCII digits if it fits in a `usize`
/// (`str::parse::<usize>` on unsigned decimal text).
pub open spec fn parse_dec(s: Seq<char>) -> Option<nat>
    decreases s.len(),
{
    if s.len() == 0 {
        None
    } else if !('0' <= s.last() && s.last() <= '9') {
        None
    } else {
        let d = (s.last() as int - '0' as int) as nat;
        if s.len() == 1 {
            Some(d)
        } else {
            match parse_dec(s.drop_last()) {
                Some(v) => if v * 10 + d <= usize::MAX { Some(v * 10 + d) } else { None },
                None => None,
            }
        }
    }
}

/// The end of the run of numeric characters starting at `i`.
pub open spec fn numeric_end(s: Seq<char>, i: int) -> int
    decreases s.len() - i,
{
    if 0 <= i < s.len() && unicode_numeric(s[i]) {
        numeric_end(s, i + 1)
    } else {
        i
    }
}

/// A name takes at most two bytes in UTF-8 and the second character is ASCII:
/// the test `len() == 2` on a `-x` flag name.
pub open spec fn two_bytes(s: Seq<char>) -> bool {
    s.len() == 2 && s[0] < '\u{80}' && s[1] < '\u{80}'
}

// ------------------------------------------------------------------
// Definitions in a macro file.
// ------------------------------------------------------------------

/// Adds one definition from a macro file: a name already defined is left
/// alone; `name()` defines a parametric macro; other bodies are trimmed.
pub open spec fn add_file_def(m: Map<Seq<char>, Seq<char>>, name: Seq<char>, body: Seq<char>) -> Map<Seq<char>, Seq<char>> {
    if m.contains_key(name) {
        m
    } else if name.len() >= 2 && name[name.len() - 2] == '(' && name.last() == ')' {
        m.insert(name.take(name.len() - 2), body.push(' '))
    } else {
        m.insert(name, trim(body))
    }
}

/// `%define name() body` defines the parametric macro `name`: the table
/// maps `name` (the brackets dropped) to the body followed by a space, and
/// holds `name()` only if it did before. A name that does not end in `()`
/// is defined as written, with the body as given, every other macro kept.
pub proof fn law_define_names(m: Map<Seq<char>, Seq<char>>, base: Seq<char>, name: Seq<char>, body: Seq<char>)
    ensures
        add_define(m, base + "()"@, body).contains_key(base),
        add_define(m, base + "()"@, body)[base] == body.push(' '),
        add_define(m, base + "()"@, body).contains_key(base + "()"@) == m.contains_key(base + "()"@),
        forall|k: Seq<char>| k != base ==> #[trigger] add_define(m, base + "()"@, body).contains_key(k) == m.contains_key(k),
        !(name.len() >= 2 && name[name.len() - 2] == '(' && name.last() == ')') ==> add_define(m, name, body).contains_key(name)
            && add_define(m, name, body)[name] == body
            && forall|k: Seq<char>| k != name ==> #[trigger] add_define(m, name, body).contains_key(k) == m.contains_key(k),
{
    reveal_strlit("()");
    let n = base + "()"@;
    assert(n.len() == base.len() + 2);
    assert(n[n.len() - 2] == '(' && n.last() == ')');
    assert(n.take(n.len() - 2) =~= base);
    assert(n != base);
}

/// A macro-file definition of `name()` defines the parametric macro `name`
/// with the body and a space, unless `name()` is already in the table;
/// another name not in the table is defined with its body trimmed; a name
/// already in the table leaves the table as it was.
pub proof fn law_file_def_names(m: Map<Seq<char>, Seq<char>>, base: Seq<char>, name: Seq<char>, body: Seq<char>)
    ensures
        !m.contains_key(base + "()"@) ==> add_file_def(m, base + "()"@, body).contains_key(base)
            && add_file_def(m, base + "()"@, body)[base] == body.push(' ')
            && !add_file_def(m, base + "()"@, body).contains_key(base + "()"@),
        m.contains_key(name) ==> add_file_def(m, name, body) == m,
        !m.contains_key(name) && !(name.len() >= 2 && name[name.len() - 2] == '(' && name.last() == ')')
            ==> add_file_def(m, name, body) == m.insert(name, trim(body)),
{
    reveal_strlit("()");
    let n = base + "()"@;
    assert(n.len() == base.len() + 2);
    assert(n[n.len() - 2] == '(' && n.last() == ')');
    assert(n.take(n.len() - 2) =~= base);
    assert(n != base);
}

/// A definition line splits at the first space of the trimmed line: the
/// name has no space, and the name, a space and the body give the trimmed
/// line back. A trimmed line without a space is no definition.
pub proof fn law_define_line(line: Seq<char>)
    ensures
        define_of(line) matches Some((n, b)) ==> !n.contains(' ') && n + seq![' '] + b == trim(line),
        define_of(line) is None <==> !trim(line).contains(' '),
{
    let d = trim(line);
    lemma_find_char_first(d, 0);
    match find_char(d, ' ', 0) {
        Some(i) => {
            assert(d.take(i) + seq![' '] + d.skip(i + 1) =~= d);
            assert forall|k: int| 0 <= k < d.take(i).len() implies d.take(i)[k] != ' ' by {
                assert(d.take(i)[k] == d[k]);
            }
            assert(d.contains(' ')) by { assert(d[i] == ' '); }
        },
        None => {},
    }
}

/// `find_char` finds the first occurrence from `i`.
proof fn lemma_find_char_first(s: Seq<char>, i: int)
    requires
        0 <= i,
    ensures
        find_char(s, ' ', i) matches Some(k) ==> i <= k < s.len() && s[k] == ' ' && forall|j: int| i <= j < k ==> s[j] != ' ',
        find_char(s, ' ', i) is None ==> forall|j: int| i <= j < s.len() ==> s[j] != ' ',
    decreases s.len() - i,
{
    if i < s.len() && s[i] != ' ' {
        lemma_find_char_first(s, i + 1);
    }
}

/// The definitions of a macro file, given the matches of the macro-file
/// pattern in it (name and body of each), added in turn.
pub open spec fn file_defs(m: Map<Seq<char>, Seq<char>>, caps: Seq<(Seq<char>, Seq<char>)>) -> Map<Seq<char>, Seq<char>>
    decreases caps.len(),
{
    if caps.len() == 0 {
        m
    } else {
        add_file_def(file_defs(m, caps.drop_last()), caps.last().0, caps.last().1)
    }
}

/// Loading a macro file keeps every macro defined before it: a definition
/// only ever adds a name or leaves the table alone.
pub proof fn lemma_file_defs_keep_names(m: Map<Seq<char>, Seq<char>>, caps: Seq<(Seq<char>, Seq<char>)>, k: Seq<char>)
    requires
        m.contains_key(k),
    ensures
        file_defs(m, caps).contains_key(k),
    decreases caps.len(),
{
    if caps.len() > 0 {
        lemma_file_defs_keep_names(m, caps.drop_last(), k);
    }
}

// ------------------------------------------------------------------
// Expansion.
// ------------------------------------------------------------------

/// Expands all of `inp` from `pos` (appending to `acc`): `%%` is a percent
/// sign, `%` followed by anything else starts a macro use, and a newline is
/// counted.
pub open spec fn expand(e: Engine, inp: Seq<char>, pos: int, acc: Seq<char>, depth: nat, fuel: nat) -> Step
    decreases fuel,
{
    if fuel == 0 {
        halt_deep(pos, e)
    } else if pos < 0 || pos >= inp.len() {
        (SOut::Done(acc), pos, e)
    } else {
        let ch = inp[pos];
        let p = pos + 1;
        let e1 = if ch == '\n' { count_line(e) } else { e };
        if ch == '%' && p < inp.len() {
            if inp[p] == '%' {
                expand(e1, inp, p + 1, acc.push('%'), depth, (fuel - 1) as nat)
            } else {
                let (r, p2, e2) = read_use(e1, inp, p, depth, (fuel - 1) as nat);
                match r {
                    SOut::Done(s) => expand(e2, inp, p2, acc + s, depth, (fuel - 1) as nat),
                    SOut::Fail(x) => (SOut::Fail(x), p2, e2),
                    SOut::Halt(h) => (SOut::Halt(h), p2, e2),
                }
            }
        } else {
            expand(e1, inp, p, acc.push(ch), depth, (fuel - 1) as nat)
        }
    }
}

/// Reads one macro use after a `%` and expands it.
pub open spec fn read_use(e: Engine, inp: Seq<char>, pos: int, depth: nat, fuel: nat) -> Step
    decreases fuel,
{
    if fuel == 0 {
        halt_deep(pos, e)
    } else {
        use_loop(e, inp, pos, false, false, seq![], true, balance0(), depth, (fuel - 1) as nat)
    }
}

/// The name part of a macro use: flags `!` and `?` (which are not part of
/// the name), then letters, digits and `_`; `%{...}` and `%(...)` are
/// handed on.
pub open spec fn use_loop(
    e: Engine,
    inp: Seq<char>,
    pos: int,
    notflag: bool,
    question: bool,
    content: Seq<char>,
    first: bool,
    b: Balance,
    depth: nat,
    fuel: nat,
) -> Step
    decreases fuel,
{
    if fuel == 0 {
        halt_deep(pos, e)
    } else if pos < 0 || pos >= inp.len() {
        use_finish(e, inp, pos, notflag, question, content, b, depth, (fuel - 1) as nat)
    } else {
        let ch = inp[pos];
        let p = pos + 1;
        let b1 = bal_step(b, ch);
        if ch == '!' {
            use_loop(e, inp, p, !notflag, question, content, false, b1, depth, (fuel - 1) as nat)
        } else if ch == '?' {
            use_loop(e, inp, p, notflag, true, content, false, b1, depth, (fuel - 1) as nat)
        } else if ch == '{' {
            if !first {
                use_finish(e, inp, pos, notflag, question, content, b, depth, (fuel - 1) as nat)
            } else {
                brace_loop(e, inp, p, notflag, question, content, seq![], b1, b1.pc - 1, depth, (fuel - 1) as nat)
            }
        } else if ch == '(' {
            if !first {
                use_finish(e, inp, pos, notflag, question, content, b, depth, (fuel - 1) as nat)
            } else {
                shell_loop(e, inp, p, seq![], b1, b1.pa - 1, (fuel - 1) as nat)
            }
        } else if !(is_alnum(ch) || ch == '_') {
            use_finish(e, inp, pos, notflag, question, content, b, depth, (fuel - 1) as nat)
        } else {
            use_loop(e, inp, p, notflag, question, content.push(ch), false, b1, depth, (fuel - 1) as nat)
        }
    }
}

/// Expands a plain macro use `%name` once its name has been read.
pub open spec fn use_finish(
    e: Engine,
    inp: Seq<char>,
    pos: int,
    notflag: bool,
    question: bool,
    content: Seq<char>,
    b: Balance,
    depth: nat,
    fuel: nat,
) -> Step
    decreases fuel,
{
    if fuel == 0 {
        halt_deep(pos, e)
    } else if !bal_closed(b) {
        (SOut::Fail(MacroError::Unclosed), pos, e)
    } else if notflag && question {
        (SOut::Done(seq![]), pos, e)
    } else {
        let (r, p2, e2) = rp_macro(e, content, inp, pos, depth, (fuel - 1) as nat);
        (fallback(r, notflag, undefined_text(false, content)), p2, e2)
    }
}

/// `%{name}` and `%{name:arg}`: reads the name up to the closing brace or a
/// colon; `?` and `!` may appear among its characters.
pub open spec fn brace_loop(
    e: Engine,
    inp: Seq<char>,
    pos: int,
    notflag: bool,
    question: bool,
    content: Seq<char>,
    name: Seq<char>,
    b: Balance,
    req: int,
    depth: nat,
    fuel: nat,
) -> Step
    decreases fuel,
{
    if fuel == 0 {
        halt_deep(pos, e)
    } else if pos < 0 || pos >= inp.len() {
        (SOut::Fail(MacroError::UnexpectedEnd), pos, e)
    } else {
        let ch = inp[pos];
        let p = pos + 1;
        let b1 = bal_step(b, ch);
        if b1.pc == req {
            if !bal_closed(b1) {
                (SOut::Fail(MacroError::Unclosed), p, e)
            } else {
                let (r, p2, e2) = rp_macro(e, name, inp, p, depth, (fuel - 1) as nat);
                if notflag && question {
                    (SOut::Done(seq![]), p2, e2)
                } else {
                    (fallback(r, notflag, undefined_text(true, name)), p2, e2)
                }
            }
        } else if ch == ':' {
            colon_loop(e, inp, p, notflag, question, content, name, seq![], b1, req, depth, (fuel - 1) as nat)
        } else if ch == '?' {
            brace_loop(e, inp, p, notflag, true, content, name, b1, req, depth, (fuel - 1) as nat)
        } else if ch == '!' {
            brace_loop(e, inp, p, !notflag, question, content, name, b1, req, depth, (fuel - 1) as nat)
        } else {
            brace_loop(e, inp, p, notflag, question, content, name.push(ch), b1, req, depth, (fuel - 1) as nat)
        }
    }
}

/// `%{name:arg}`: reads `arg` up to the closing brace. With `?` it is the
/// text shown (expanded) when `name` is defined (or, with `!`, undefined);
/// otherwise `arg` is what the macro reads.
pub open spec fn colon_loop(
    e: Engine,
    inp: Seq<char>,
    pos: int,
    notflag: bool,
    question: bool,
    content: Seq<char>,
    name: Seq<char>,
    arg: Seq<char>,
    b: Balance,
    req: int,
    depth: nat,
    fuel: nat,
) -> Step
    decreases fuel,
{
    if fuel == 0 {
        halt_deep(pos, e)
    } else if pos < 0 || pos >= inp.len() {
        (SOut::Fail(MacroError::UnexpectedEnd), pos, e)
    } else {
        let ch = inp[pos];
        let p = pos + 1;
        let b1 = bal_step(b, ch);
        if b1.pc == req {
            if question {
                if e.macros.contains_key(name) != notflag {
                    let (r, _p2, e2) = parse_macros(e, arg, 0, depth, (fuel - 1) as nat);
                    (r, p, e2)
                } else {
                    (SOut::Done(seq![]), p, e)
                }
            } else if !bal_closed(b1) {
                (SOut::Fail(MacroError::Unclosed), p, e)
            } else {
                let (r, _p2, e2) = rp_macro(e, name, arg, 0, depth, (fuel - 1) as nat);
                (fallback(r, notflag, undefined_text(true, name)), p, e2)
            }
        } else {
            colon_loop(e, inp, p, notflag, question, content, name, arg.push(ch), b1, req, depth, (fuel - 1) as nat)
        }
    }
}

/// `%(command)`: reads the command up to the closing parenthesis; the result
/// is its recorded output without trailing newlines.
pub open spec fn shell_loop(e: Engine, inp: Seq<char>, pos: int, cmd: Seq<char>, b: Balance, req: int, fuel: nat) -> Step
    decreases fuel,
{
    if fuel == 0 {
        halt_deep(pos, e)
    } else if pos < 0 || pos >= inp.len() {
        (SOut::Fail(MacroError::UnexpectedEnd), pos, e)
    } else {
        let ch = inp[pos];
        let p = pos + 1;
        let b1 = bal_step(b, ch);
        if b1.pa == req {
            if e.shell_ok.contains_key(cmd) {
                (SOut::Done(trim_newlines_end(e.shell_ok[cmd])), p, e)
            } else if e.shell_failed.contains_key(cmd) {
                (SOut::Fail(MacroError::ShellFailed), p, e)
            } else {
                (SOut::Halt(SHalt::NeedShell(cmd)), p, e)
            }
        } else {
            shell_loop(e, inp, p, cmd.push(ch), b1, req, (fuel - 1) as nat)
        }
    }
}

/// Expands the macro `name`, reading what it needs from `inp` at `pos`:
/// a built-in first, then a definition (parametric or plain).
pub open spec fn rp_macro(e: Engine, name: Seq<char>, inp: Seq<char>, pos: int, depth: nat, fuel: nat) -> Step
    decreases fuel,
{
    if fuel == 0 {
        halt_deep(pos, e)
    } else {
        let (bi, p1, e1) = builtin(e, name, inp, pos, depth, (fuel - 1) as nat);
        match bi {
            Some(r) => (r, p1, e1),
            None => if e1.macros.contains_key(name) {
                let def = e1.macros[name];
                if depth == 0 {
                    (SOut::Halt(SHalt::TooDeep), p1, e1)
                } else if def.len() > 0 && def.last() == ' ' {
                    let (r, p2, e2) = param_macro(e1, name, def.drop_last(), inp, p1, (depth - 1) as nat, (fuel - 1) as nat);
                    match r {
                        SOut::Done(out) => {
                            let (r3, _p3, e3) = expand(e2, out, 0, seq![], (depth - 1) as nat, (fuel - 1) as nat);
                            (r3, p2, e3)
                        },
                        SOut::Fail(x) => (SOut::Fail(x), p2, e2),
                        SOut::Halt(h) => (SOut::Halt(h), p2, e2),
                    }
                } else {
                    let (r, _p2, e2) = expand(e1, def, 0, seq![], (depth - 1) as nat, (fuel - 1) as nat);
                    (r, p1, e2)
                }
            } else {
                (SOut::Fail(MacroError::NotFound), p1, e1)
            },
        }
    }
}

/// The rest of the input from `pos`.
pub open spec fn rest_of(inp: Seq<char>, pos: int) -> Seq<char> {
    if pos < 0 { inp } else if pos >= inp.len() { seq![] } else { inp.skip(pos) }
}

/// The position after reading all of the input.
pub open spec fn end_of(inp: Seq<char>, pos: int) -> int {
    if pos >= inp.len() { pos } else { inp.len() as int }
}

/// Names of built-in macros that are not supported.
pub open spec fn unsupported_builtin(name: Seq<char>) -> bool {
    ||| name == "expr"@ || name == "macrobody"@ || name == "quote"@ || name == "gsub"@
    ||| name == "rep"@ || name == "reverse"@ || name == "sub"@ || name == "upper"@
    ||| name == "shescape"@ || name == "shrink"@ || name == "basename"@ || name == "dirname"@
    ||| name == "exists"@ || name == "suffix"@ || name == "url2path"@ || name == "uncompress"@
    ||| name == "getncpus"@ || name == "getconfidir"@ || name == "getenv"@ || name == "rpmversion"@
    ||| name == "verbose"@ || name == "S"@ || name == "P"@ || name == "dump"@ || name == "lua"@
}

/// A definition line `name body` (after `%define` or `%global`): the name
/// and the body, split at the first space of the trimmed line.
pub open spec fn define_of(line: Seq<char>) -> Option<(Seq<char>, Seq<char>)> {
    let d = trim(line);
    match find_char(d, ' ', 0) {
        Some(i) => Some((d.take(i), d.skip(i + 1))),
        None => None,
    }
}

/// Adds a definition: a name ending in `()` makes a parametric macro, whose
/// body is kept with a space at its end.
pub open spec fn add_define(m: Map<Seq<char>, Seq<char>>, name: Seq<char>, body: Seq<char>) -> Map<Seq<char>, Seq<char>> {
    if name.len() >= 2 && name[name.len() - 2] == '(' && name.last() == ')' {
        m.insert(name.take(name.len() - 2), body.push(' '))
    } else {
        m.insert(name, body)
    }
}

/// Built-in macros. `None` means `name` is not handled here (or its
/// handling gave up), and the macro table is consulted.
pub open spec fn builtin(e: Engine, name: Seq<char>, inp: Seq<char>, pos: int, depth: nat, fuel: nat) -> (Option<SOut<Seq<char>>>, int, Engine)
    decreases fuel,
{
    if fuel == 0 {
        (Some(SOut::Halt(SHalt::TooDeep)), pos, e)
    } else if name == "define"@ || name == "global"@ {
        let (l, p) = read_line(inp, pos, seq![], seq![]);
        match l {
            None => (None, p, e),
            Some(line) => match define_of(line) {
                None => (None, p, e),
                Some((n, body)) => (Some(SOut::Done(seq![])), p, Engine { macros: add_define(e.macros, n, body), ..e }),
            },
        }
    } else if name == "undefine"@ {
        let (l, p) = read_line(inp, pos, seq![], seq![]);
        match l {
            None => (None, p, e),
            Some(line) => (Some(SOut::Done(seq![])), p, Engine { macros: e.macros.remove(trim(line)), ..e }),
        }
    } else if name == "load"@ {
        let path = rest_of(inp, pos);
        let p = end_of(inp, pos);
        if e.files_ok.contains_key(path) {
            (Some(SOut::Done(seq![])), p, Engine { macros: file_defs(e.macros, crate::rpmspec::patterns::macro_file_caps(e.files_ok[path])), ..e })
        } else if e.files_failed.contains_key(path) {
            (None, p, e)
        } else {
            (Some(SOut::Halt(SHalt::NeedFile(path))), p, e)
        }
    } else if name == "expand"@ {
        let (r, p, e2) = expand(e, inp, pos, seq![], depth, (fuel - 1) as nat);
        match r {
            SOut::Done(s) => (Some(SOut::Done(s)), p, e2),
            SOut::Fail(_) => (None, p, e2),
            SOut::Halt(h) => (Some(SOut::Halt(h)), p, e2),
        }
    } else if unsupported_builtin(name) {
        (Some(SOut::Halt(SHalt::Unsupported(name))), pos, e)
    } else if name == "len"@ {
        (Some(SOut::Done(decimal(rest_of(inp, pos).len()))), end_of(inp, pos), e)
    } else if name == "lower"@ {
        (Some(SOut::Done(lowercase(rest_of(inp, pos)))), end_of(inp, pos), e)
    } else if name == "echo"@ || name == "warn"@ || name == "error"@ || name == "trace"@ {
        (Some(SOut::Done(seq![])), end_of(inp, pos), e)
    } else {
        (None, pos, e)
    }
}

/// The outcome of reading the argument line of a parametric macro: the
/// normalised line and the flags.
pub type ArgsStep = (SOut<(Seq<char>, Seq<char>)>, int, Engine);

/// Expands a parametric macro: reads its arguments from `inp` at `pos`,
/// then substitutes them into `def`.
pub open spec fn param_macro(e: Engine, name: Seq<char>, def: Seq<char>, inp: Seq<char>, pos: int, depth: nat, fuel: nat) -> Step
    decreases fuel,
{
    if fuel == 0 {
        halt_deep(pos, e)
    } else {
        let (la, p1, e1) = line_args(e, inp, pos, seq![], seq![], balance0(), depth, (fuel - 1) as nat);
        match la {
            SOut::Done((raw, flags)) => {
                let (r, e2) = param_body(e1, name, def, 0, raw, flags, seq![], balance0(), depth, (fuel - 1) as nat);
                (r, p1, e2)
            },
            SOut::Fail(x) => (SOut::Fail(x), p1, e1),
            SOut::Halt(h) => (SOut::Halt(h), p1, e1),
        }
    }
}

/// Leaving [`line_args`]: fails if a bracket or quote is still open.
pub open spec fn la_exit(e: Engine, pos: int, content: Seq<char>, flags: Seq<char>, b: Balance) -> ArgsStep {
    if bal_closed(b) {
        (SOut::Done((content, flags)), pos, e)
    } else {
        (SOut::Fail(MacroError::Unclosed), pos, e)
    }
}

/// Reads the argument line of a parametric macro: macros in it are
/// expanded, `-x` flags are collected, a `\` continues onto the next line,
/// and runs of whitespace become single spaces. It ends at a newline outside
/// brackets and quotes.
pub open spec fn line_args(
    e: Engine,
    inp: Seq<char>,
    pos: int,
    content: Seq<char>,
    flags: Seq<char>,
    b: Balance,
    depth: nat,
    fuel: nat,
) -> ArgsStep
    decreases fuel,
{
    if fuel == 0 {
        (SOut::Halt(SHalt::TooDeep), pos, e)
    } else if pos < 0 || pos >= inp.len() {
        la_exit(e, pos, content, flags, b)
    } else {
        let ch = inp[pos];
        let p = pos + 1;
        if ch == '%' {
            if p >= inp.len() {
                la_exit(e, pos, content, flags, b)
            } else if inp[p] == '%' {
                line_args(e, inp, p + 1, content.push('%'), flags, b, depth, (fuel - 1) as nat)
            } else {
                let (r, p2, e2) = read_use(e, inp, p, depth, (fuel - 1) as nat);
                match r {
                    SOut::Done(s) => line_args(e2, inp, p2, content + s, flags, b, depth, (fuel - 1) as nat),
                    SOut::Fail(x) => (SOut::Fail(x), p2, e2),
                    SOut::Halt(h) => (SOut::Halt(h), p2, e2),
                }
            }
        } else if ch == '-' {
            if p >= inp.len() {
                la_exit(e, pos, content, flags, b)
            } else if !is_alpha(inp[p]) {
                (SOut::Fail(MacroError::BadFlag), p + 1, e)
            } else if p + 1 >= inp.len() {
                la_exit(e, p + 1, content, flags, b)
            } else if !(inp[p + 1] == '\\' || inp[p + 1] == ' ' || inp[p + 1] == '\n') {
                (SOut::Fail(MacroError::BadFlag), p + 2, e)
            } else {
                line_args(e, inp, p + 1, content + seq!['-', inp[p]], flags.push(inp[p]), b, depth, (fuel - 1) as nat)
            }
        } else if ch == '\\' {
            line_cont(e, inp, p, trim_end(content).push(' '), flags, b, false, depth, (fuel - 1) as nat)
        } else if ch == '\n' && bal_closed(b) {
            la_exit(e, p, content, flags, b)
        } else {
            let b1 = bal_step(b, ch);
            if is_ws(ch) && content.len() > 0 && !is_ws(content.last()) {
                line_args(e, inp, p, content.push(' '), flags, b1, depth, (fuel - 1) as nat)
            } else if !is_ws(ch) {
                line_args(e, inp, p, content.push(ch), flags, b1, depth, (fuel - 1) as nat)
            } else {
                line_args(e, inp, p, content, flags, b1, depth, (fuel - 1) as nat)
            }
        }
    }
}

/// After a `\` in an argument line: only whitespace up to the newline, and
/// the line goes on at the next non-blank character.
pub open spec fn line_cont(
    e: Engine,
    inp: Seq<char>,
    pos: int,
    content: Seq<char>,
    flags: Seq<char>,
    b: Balance,
    got_newline: bool,
    depth: nat,
    fuel: nat,
) -> ArgsStep
    decreases fuel,
{
    if fuel == 0 {
        (SOut::Halt(SHalt::TooDeep), pos, e)
    } else if pos < 0 || pos >= inp.len() {
        (SOut::Fail(MacroError::BadContinuation), pos, e)
    } else {
        let c = inp[pos];
        if c == '\n' {
            line_cont(e, inp, pos + 1, content, flags, b, true, depth, (fuel - 1) as nat)
        } else if !is_ws(c) {
            if got_newline {
                line_args(e, inp, pos, content, flags, b, depth, (fuel - 1) as nat)
            } else {
                (SOut::Fail(MacroError::BadContinuation), pos + 1, e)
            }
        } else {
            line_cont(e, inp, pos + 1, content, flags, b, got_newline, depth, (fuel - 1) as nat)
        }
    }
}

/// Leaving [`param_body`] early or at its end.
pub open spec fn pb_exit(e: Engine, res: Seq<char>, b: Balance) -> (SOut<Seq<char>>, Engine) {
    if bal_closed(b) {
        (SOut::Done(res), e)
    } else {
        (SOut::Fail(MacroError::Unclosed), e)
    }
}

/// The word after the first occurrence of `flag` among the words of `raw`.
pub open spec fn flag_value(raw: Seq<char>, flag: Seq<char>) -> Seq<char> {
    let ws = split_char(raw, ' ');
    match find_word(ws, flag, 0) {
        Some(i) => if i + 1 < ws.len() { ws[i + 1] } else { seq![] },
        None => seq![],
    }
}

/// The index of the first word equal to `w`, from `i` on.
pub open spec fn find_word(ws: Seq<Seq<char>>, w: Seq<char>, i: int) -> Option<int>
    decreases ws.len() - i,
{
    if i < 0 || i >= ws.len() {
        None
    } else if ws[i] == w {
        Some(i)
    } else {
        find_word(ws, w, i + 1)
    }
}

/// Substitutes the arguments into the body of a parametric macro: `%*` the
/// arguments, `%**` the whole argument line, `%#` their number, `%0` the
/// macro's name, `%1`... one argument, `%{-x}` the flag if given (or, with
/// `!`, if not given), `%{-x*}` the word after the flag, `%{-x:text}` the
/// text if the flag is given; other macro uses are expanded.
pub open spec fn param_body(
    e: Engine,
    name: Seq<char>,
    def: Seq<char>,
    dpos: int,
    raw: Seq<char>,
    flags: Seq<char>,
    res: Seq<char>,
    b: Balance,
    depth: nat,
    fuel: nat,
) -> (SOut<Seq<char>>, Engine)
    decreases fuel,
{
    if fuel == 0 {
        (SOut::Halt(SHalt::TooDeep), e)
    } else if dpos < 0 || dpos >= def.len() {
        pb_exit(e, res, b)
    } else {
        let ch = def[dpos];
        let d = dpos + 1;
        let args = args_of(raw);
        if ch != '%' {
            param_body(e, name, def, d, raw, flags, res.push(ch), bal_step(b, ch), depth, (fuel - 1) as nat)
        } else if d >= def.len() {
            pb_exit(e, seq![], b)
        } else {
            let c = def[d];
            let d2 = d + 1;
            if c == '%' {
                param_body(e, name, def, d2, raw, flags, res.push('%'), b, depth, (fuel - 1) as nat)
            } else {
                let b1 = bal_step(b, c);
                if c == '*' {
                    if d2 >= def.len() {
                        pb_exit(e, seq![], b1)
                    } else if def[d2] == '*' {
                        param_body(e, name, def, d2 + 1, raw, flags, res + raw, b1, depth, (fuel - 1) as nat)
                    } else {
                        param_body(e, name, def, d2, raw, flags, res + join_space(args), b1, depth, (fuel - 1) as nat)
                    }
                } else if c == '#' {
                    param_body(e, name, def, d2, raw, flags, res + decimal(args.len()), b1, depth, (fuel - 1) as nat)
                } else if c == '0' {
                    param_body(e, name, def, d2, raw, flags, res + name, b1, depth, (fuel - 1) as nat)
                } else if c == '{' {
                    param_brace(e, name, def, d2, raw, flags, res, seq![], b1, b1.pc - 1, depth, (fuel - 1) as nat)
                } else if unicode_numeric(c) {
                    let d3 = numeric_end(def, d2);
                    match parse_dec(def.subrange(d, d3)) {
                        None => (SOut::Fail(MacroError::BadParam), e),
                        Some(n) => {
                            let a = if 1 <= n <= args.len() { args[n - 1] } else { seq![] };
                            param_body(e, name, def, d3, raw, flags, res + a, b1, depth, (fuel - 1) as nat)
                        },
                    }
                } else {
                    let (r, d3, e2) = read_use(e, def, d, depth, (fuel - 1) as nat);
                    match r {
                        SOut::Done(s) => param_body(e2, name, def, d3, raw, flags, res + s, b1, depth, (fuel - 1) as nat),
                        SOut::Fail(x) => (SOut::Fail(x), e2),
                        SOut::Halt(h) => (SOut::Halt(h), e2),
                    }
                }
            }
        }
    }
}

/// `%{...}` inside a parametric macro's body: reads up to the closing brace
/// and handles flag tests (`%{-f}`, `%{!-f:...}`, `%{-f*}`); any other use
/// is expanded as written, `!`, `?` and `:...` included.
pub open spec fn param_brace(
    e: Engine,
    name: Seq<char>,
    def: Seq<char>,
    dpos: int,
    raw: Seq<char>,
    flags: Seq<char>,
    res: Seq<char>,
    content: Seq<char>,
    b: Balance,
    req: int,
    depth: nat,
    fuel: nat,
) -> (SOut<Seq<char>>, Engine)
    decreases fuel,
{
    if fuel == 0 {
        (SOut::Halt(SHalt::TooDeep), e)
    } else if dpos < 0 || dpos >= def.len() {
        (SOut::Fail(MacroError::UnexpectedEnd), e)
    } else {
        let ch = def[dpos];
        let b1 = bal_step(b, ch);
        let d = dpos + 1;
        if b1.pc != req {
            param_brace(e, name, def, d, raw, flags, res, content.push(ch), b1, req, depth, (fuel - 1) as nat)
        } else {
            let notflag = content.len() > 0 && content[0] == '!';
            let c1 = if notflag { content.drop_first() } else { content };
            let (c2, text) = match find_char(c1, ':', 0) {
                Some(i) => (c1.take(i), c1.skip(i + 1)),
                None => (c1, c1),
            };
            if !(c2.len() > 0 && c2[0] == '-') {
                let (r, _d3, e2) = read_use(e, seq!['{'] + content + seq!['}'], 0, depth, (fuel - 1) as nat);
                match r {
                    SOut::Done(s) => param_body(e2, name, def, d, raw, flags, res + s, b1, depth, (fuel - 1) as nat),
                    SOut::Fail(x) => (SOut::Fail(x), e2),
                    SOut::Halt(h) => (SOut::Halt(h), e2),
                }
            } else if c2.last() == '*' {
                let c3 = c2.drop_last();
                if !two_bytes(c3) {
                    (SOut::Fail(MacroError::BadFlag), e)
                } else {
                    let add = if notflag { seq![] } else { flag_value(raw, c3) };
                    param_body(e, name, def, d, raw, flags, res + add, b1, depth, (fuel - 1) as nat)
                }
            } else if !two_bytes(c2) {
                (SOut::Fail(MacroError::BadFlag), e)
            } else if !is_alpha(c2[1]) {
                (SOut::Fail(MacroError::BadFlag), e)
            } else {
                let add = if flags.contains(c2[1]) != notflag { text } else { seq![] };
                param_body(e, name, def, d, raw, flags, res + add, b1, depth, (fuel - 1) as nat)
            }
        }
    }
}

/// Reads characters with macros expanded, as the spec parser's macro
/// iterator yields them: `%%` yields `%`, a `%` followed by anything else
/// starts a macro use, whose expansion is yielded before the text after
/// it. A failed expansion ends the output.
pub open spec fn parse_macros(e: Engine, inp: Seq<char>, pos: int, depth: nat, fuel: nat) -> Step
    decreases fuel,
{
    if fuel == 0 {
        halt_deep(pos, e)
    } else {
        pm_loop(e, inp, pos, false, seq![], depth, (fuel - 1) as nat)
    }
}

pub open spec fn pm_loop(e: Engine, inp: Seq<char>, pos: int, percent: bool, out: Seq<char>, depth: nat, fuel: nat) -> Step
    decreases fuel,
{
    if fuel == 0 {
        halt_deep(pos, e)
    } else if pos < 0 || pos >= inp.len() {
        (SOut::Done(out), pos, e)
    } else {
        let ch = inp[pos];
        let p = pos + 1;
        if ch == '%' {
            if percent {
                pm_loop(e, inp, p, false, out.push('%'), depth, (fuel - 1) as nat)
            } else {
                pm_loop(e, inp, p, true, out, depth, (fuel - 1) as nat)
            }
        } else if percent {
            let (r, p2, e2) = read_use(e, inp, pos, depth, (fuel - 1) as nat);
            match r {
                SOut::Done(s) => pm_loop(e2, inp, p2, false, out + s, depth, (fuel - 1) as nat),
                SOut::Fail(_) => (SOut::Done(out), p2, e2),
                SOut::Halt(h) => (SOut::Halt(h), p2, e2),
            }
        } else {
            pm_loop(e, inp, p, percent, out.push(ch), depth, (fuel - 1) as nat)
        }
    }
}


/// Text without `%` expands to itself (and the macros stay as they are).
pub proof fn lemma_expand_plain(e: Engine, inp: Seq<char>, pos: int, acc: Seq<char>, depth: nat, fuel: nat)
    requires
        !inp.contains('%'),
        0 <= pos <= inp.len(),
        fuel > inp.len() - pos,
    ensures
        expand(e, inp, pos, acc, depth, fuel).0 == SOut::Done(acc + inp.skip(pos)),
        expand(e, inp, pos, acc, depth, fuel).1 == inp.len(),
        expand(e, inp, pos, acc, depth, fuel).2.macros == e.macros,
    decreases inp.len() - pos,
{
    if pos < inp.len() {
        assert(inp[pos] != '%');
        let ch = inp[pos];
        let e1 = if ch == '\n' { count_line(e) } else { e };
        lemma_expand_plain(e1, inp, pos + 1, acc.push(ch), depth, (fuel - 1) as nat);
        assert(acc.push(ch) + inp.skip(pos + 1) =~= acc + inp.skip(pos));
    } else {
        assert(acc + inp.skip(pos) =~= acc);
    }
}


/// The names that [`builtin`] handles itself.
pub open spec fn is_builtin_name(name: Seq<char>) -> bool {
    ||| name == "define"@ || name == "global"@ || name == "undefine"@ || name == "load"@ || name == "expand"@
    ||| unsupported_builtin(name)
    ||| name == "len"@ || name == "lower"@ || name == "echo"@ || name == "warn"@ || name == "error"@ || name == "trace"@
}

/// A name that `%name` reads whole: letters, digits and `_`.
pub open spec fn plain_name(name: Seq<char>) -> bool {
    name.len() > 0 && forall|i: int| 0 <= i < name.len() ==> is_alnum(#[trigger] name[i]) || name[i] == '_'
}

proof fn lemma_use_loop_name(e: Engine, inp: Seq<char>, pos: int, content: Seq<char>, first: bool, depth: nat, fuel: nat)
    requires
        0 <= pos <= inp.len(),
        forall|i: int| pos <= i < inp.len() ==> is_alnum(#[trigger] inp[i]) || inp[i] == '_',
        fuel > inp.len() - pos,
        first ==> content.len() == 0,
        pos < inp.len() || !first,
    ensures
        use_loop(e, inp, pos, false, false, content, first, balance0(), depth, fuel)
            == use_finish(e, inp, inp.len() as int, false, false, content + inp.skip(pos), balance0(), depth,
                (fuel - (inp.len() - pos) - 1) as nat),
    decreases inp.len() - pos,
{
    if pos < inp.len() {
        let ch = inp[pos];
        assert(ch != '!' && ch != '?' && ch != '{' && ch != '(');
        assert(bal_step(balance0(), ch) == balance0());
        lemma_use_loop_name(e, inp, pos + 1, content.push(ch), false, depth, (fuel - 1) as nat);
        assert(content.push(ch) + inp.skip(pos + 1) =~= content + inp.skip(pos));
    } else {
        assert(content + inp.skip(pos) =~= content);
    }
}

/// A macro defined with a body without `%` (and not parametric) expands to
/// its body: what a definition writes, a use reads back.
pub proof fn lemma_defined_macro_expands(e: Engine, name: Seq<char>, depth: nat, fuel: nat)
    requires
        plain_name(name),
        !is_builtin_name(name),
        e.macros.contains_key(name),
        !e.macros[name].contains('%'),
        !(e.macros[name].len() > 0 && e.macros[name].last() == ' '),
        depth > 0,
        fuel > name.len() + e.macros[name].len() + 8,
    ensures
        read_use(e, name, 0, depth, fuel).0 == SOut::Done(e.macros[name]),
{
    let f1 = (fuel - 1) as nat;
    lemma_use_loop_name(e, name, 0, seq![], true, depth, f1);
    assert(seq![] + name.skip(0) =~= name);
    let f2 = (f1 - name.len() - 1) as nat;
    let f3 = (f2 - 1) as nat;
    let f4 = (f3 - 1) as nat;
    assert(builtin(e, name, name, name.len() as int, depth, f4) == (None::<SOut<Seq<char>>>, name.len() as int, e));
    let def = e.macros[name];
    lemma_expand_plain(e, def, 0, seq![], (depth - 1) as nat, (f3 - 1) as nat);
    assert(seq![] + def.skip(0) =~= def);
}

} // verus!
