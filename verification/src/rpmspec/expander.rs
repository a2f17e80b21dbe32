//! The macro expander of the spec parser, proved against the definitions in
//! [`crate::rpmspec::macrospec`].
//!
//! Every function here reads from a position in an input vector and returns
//! its outcome with the position where it stopped; the macro table and the
//! line count of the parser are updated as the expansion goes.
use crate::rpmspec::macrospec::{
    args_of, brace_loop, builtin, colon_loop, count_line, expand, fallback, la_exit, line_args,
    line_cont, param_body, param_brace, param_macro, parse_macros, pb_exit, pm_loop, read_use,
    rp_macro, shell_loop, unsupported_builtin, use_finish, use_loop, Engine, MacroError, SHalt,
    SOut, Step, MAX_DEPTH,
};
use crate::rpmspec::consumer::Consumer;
use crate::rpmspec::parser::SpecParser;
use crate::rpmspec::reader::{bal_closed, bal_step, balance0, read_line_exec, Bal, MAX_FUEL};
use crate::rpmspec::table::Reply;
use crate::rpmspec::words::{
    add_define_exec, args_of_exec, define_of_exec, flag_value_exec, join_space_exec,
    load_file_defs, numeric_end_exec, parse_dec_exec, trim_newlines_end_exec, two_bytes_exec,
    undefined_text_exec, words_view, find_char_exec,
};
use crate::text::{
    append_chars, ascii_alnum, ascii_alpha, chars_eq, chars_of, copy_chars, format_decimal,
    is_numeric, is_whitespace, slice_chars, string_of, strings_view, to_lowercase, trim_chars, trim_end_chars,
};
use vstd::prelude::*;

verus! {

/// Why an expansion stopped before it finished.
#[derive(Debug)]
pub enum Halt {
    /// The output of this shell command is needed: record it in
    /// `SpecParser::shell` and expand again.
    NeedShell(Vec<char>),
    /// The contents of this file are needed: record them in
    /// `SpecParser::files` and expand again.
    NeedFile(Vec<char>),
    /// Macros nested too deeply or the step budget ran out.
    TooDeep,
    /// This built-in macro is not supported.
    Unsupported(Vec<char>),
}

impl Halt {
    pub open spec fn view(&self) -> SHalt {
        match self {
            Halt::NeedShell(c) => SHalt::NeedShell(c@),
            Halt::NeedFile(p) => SHalt::NeedFile(p@),
            Halt::TooDeep => SHalt::TooDeep,
            Halt::Unsupported(n) => SHalt::Unsupported(n@),
        }
    }
}

/// Why an expansion gave no text.
#[derive(Debug)]
pub enum Failure {
    /// The input is malformed or names an unknown macro.
    Error(MacroError),
    /// The expansion stopped; see [`Halt`].
    Halt(Halt),
}

/// The outcome of an expansion.
pub type Expansion = Result<Vec<char>, Failure>;

/// An expansion's outcome in the form of the definitions.
pub open spec fn res_view(r: Expansion) -> SOut<Seq<char>> {
    match r {
        Ok(v) => SOut::Done(v@),
        Err(Failure::Error(x)) => SOut::Fail(x),
        Err(Failure::Halt(h)) => SOut::Halt(h.view()),
    }
}

/// The outcome of reading an argument line in the form of the definitions.
pub open spec fn args_view(r: Result<(Vec<char>, Vec<char>), Failure>) -> SOut<(Seq<char>, Seq<char>)> {
    match r {
        Ok((c, f)) => SOut::Done((c@, f@)),
        Err(Failure::Error(x)) => SOut::Fail(x),
        Err(Failure::Halt(h)) => SOut::Halt(h.view()),
    }
}

/// The outcome of a built-in macro in the form of the definitions.
pub open spec fn builtin_view(r: Option<Expansion>) -> Option<SOut<Seq<char>>> {
    match r {
        Some(x) => Some(res_view(x)),
        None => None,
    }
}

/// Outcome, position and state agree with a step of the definitions.
pub open spec fn is_step(out: Expansion, pos: usize, e: Engine, s: Step) -> bool {
    res_view(out) == s.0 && pos as int == s.1 && e == s.2
}

fn too_deep() -> (r: Expansion)
    ensures
        res_view(r) == SOut::<Seq<char>>::Halt(SHalt::TooDeep),
{
    Err(Failure::Halt(Halt::TooDeep))
}

fn error(x: MacroError) -> (r: Expansion)
    ensures
        res_view(r) == SOut::<Seq<char>>::Fail(x),
{
    Err(Failure::Error(x))
}

/// Whether `name` is the literal `lit`.
fn name_is(name: &[char], lit: &str) -> (r: bool)
    ensures
        r == (name@ == lit@),
{
    let l = chars_of(lit);
    chars_eq(name, &l)
}

/// Whether `c` occurs in `s`.
fn contains_char(s: &[char], c: char) -> (r: bool)
    ensures
        r == s@.contains(c),
{
    let mut i: usize = 0;
    while i < s.len()
        invariant
            i <= s.len(),
            forall|j: int| 0 <= j < i ==> s@[j] != c,
        decreases s.len() - i,
    {
        if s[i] == c {
            return true;
        }
        i += 1;
    }
    false
}

fn unsupported_exec(name: &[char]) -> (r: bool)
    ensures
        r == unsupported_builtin(name@),
{
    name_is(name, "expr") || name_is(name, "macrobody") || name_is(name, "quote") || name_is(name, "gsub")
        || name_is(name, "rep") || name_is(name, "reverse") || name_is(name, "sub") || name_is(name, "upper")
        || name_is(name, "shescape") || name_is(name, "shrink") || name_is(name, "basename")
        || name_is(name, "dirname") || name_is(name, "exists") || name_is(name, "suffix")
        || name_is(name, "url2path") || name_is(name, "uncompress") || name_is(name, "getncpus")
        || name_is(name, "getconfidir") || name_is(name, "getenv") || name_is(name, "rpmversion")
        || name_is(name, "verbose") || name_is(name, "S") || name_is(name, "P") || name_is(name, "dump")
        || name_is(name, "lua")
}

/// Replaces a failed expansion as [`fallback`] does.
fn fallback_exec(r: Expansion, notflag: bool, alt: Vec<char>) -> (o: Expansion)
    ensures
        res_view(o) == fallback(res_view(r), notflag, alt@),
{
    match r {
        Ok(s) => Ok(s),
        Err(Failure::Error(_)) => if notflag { Ok(alt) } else { Ok(Vec::new()) },
        Err(Failure::Halt(h)) => Err(Failure::Halt(h)),
    }
}

impl SpecParser {
    /// Counts a newline seen while expanding.
    fn saw_newline(&mut self)
        ensures
            final(self).engine() == count_line(old(self).engine()),
            final(self).same_frame(old(self)),
    {
        if self.count_line < u64::MAX {
            self.count_line = self.count_line + 1;
        }
    }

    /// `%(command)` after the opening parenthesis: see [`shell_loop`].
    fn shell_at(&self, inp: &Vec<char>, pos: usize, fuel: u64) -> (r: (Expansion, usize))
        requires
            pos <= inp.len(),
            fuel < MAX_FUEL,
        ensures
            is_step(r.0, r.1, self.engine(),
                shell_loop(self.engine(), inp@, pos as int, seq![], bal_step(balance0(), '('), 0, fuel as nat)),
            r.1 <= inp.len(),
    {
        let ghost goal = shell_loop(self.engine(), inp@, pos as int, seq![], bal_step(balance0(), '('), 0, fuel as nat);
        let mut b = Bal::zero().step('(', Ghost(0));
        let mut cmd: Vec<char> = Vec::new();
        let mut p = pos;
        let mut f = fuel;
        loop
            invariant
                p <= inp.len(),
                f <= fuel < MAX_FUEL,
                b.bounded(1 + fuel - f),
                goal == shell_loop(self.engine(), inp@, pos as int, seq![], bal_step(balance0(), '('), 0, fuel as nat),
                goal == shell_loop(self.engine(), inp@, p as int, cmd@, b@, 0, f as nat),
            decreases f,
        {
            if f == 0 {
                return (too_deep(), p);
            }
            if p >= inp.len() {
                return (error(MacroError::UnexpectedEnd), p);
            }
            let ch = inp[p];
            let np = p + 1;
            let b1 = b.step(ch, Ghost(1 + fuel - f));
            if b1.pa == 0 {
                match self.shell.lookup(&cmd) {
                    Reply::Success(out) => {
                        return (Ok(trim_newlines_end_exec(&out)), np);
                    },
                    Reply::Failure => {
                        return (error(MacroError::ShellFailed), np);
                    },
                    Reply::Unknown => {
                        return (Err(Failure::Halt(Halt::NeedShell(cmd))), np);
                    },
                }
            }
            cmd.push(ch);
            b = b1;
            p = np;
            f = f - 1;
        }
    }
}

fn la_exit_exec(pos: usize, content: Vec<char>, flags: Vec<char>, b: Bal) -> (r: (Result<(Vec<char>, Vec<char>), Failure>, usize))
    ensures
        forall|e: Engine| #![auto] args_view(r.0) == la_exit(e, pos as int, content@, flags@, b@).0
            && r.1 as int == la_exit(e, pos as int, content@, flags@, b@).1,
{
    if b.closed() {
        (Ok((content, flags)), pos)
    } else {
        (Err(Failure::Error(MacroError::Unclosed)), pos)
    }
}

fn pb_exit_exec(res: Vec<char>, b: Bal) -> (r: Expansion)
    ensures
        forall|e: Engine| #![auto] res_view(r) == pb_exit(e, res@, b@).0,
{
    if b.closed() {
        Ok(res)
    } else {
        error(MacroError::Unclosed)
    }
}

impl SpecParser {
    /// Expands all of `inp` from `pos`: see [`expand`].
    pub fn expand_at(&mut self, inp: &Vec<char>, pos: usize, depth: usize, fuel: u64) -> (r: (Expansion, usize))
        requires
            pos <= inp.len(),
            fuel <= MAX_FUEL,
        ensures
            is_step(r.0, r.1, final(self).engine(),
                expand(old(self).engine(), inp@, pos as int, seq![], depth as nat, fuel as nat)),
            final(self).same_frame(old(self)),
            r.1 <= inp.len(),
        decreases fuel,
    {
        let ghost goal = expand(self.engine(), inp@, pos as int, seq![], depth as nat, fuel as nat);
        let mut acc: Vec<char> = Vec::new();
        let mut p = pos;
        let mut f = fuel;
        loop
            invariant
                p <= inp.len(),
                f <= fuel <= MAX_FUEL,
                goal == expand(old(self).engine(), inp@, pos as int, seq![], depth as nat, fuel as nat),
                goal == expand(self.engine(), inp@, p as int, acc@, depth as nat, f as nat),
                self.same_frame(old(self)),
            decreases f,
        {
            if f == 0 {
                return (too_deep(), p);
            }
            if p >= inp.len() {
                return (Ok(acc), p);
            }
            let ch = inp[p];
            let np = p + 1;
            if ch == '\n' {
                self.saw_newline();
            }
            if ch == '%' && np < inp.len() {
                if inp[np] == '%' {
                    acc.push('%');
                    p = np + 1;
                } else {
                    let (r, p2) = self.read_use_at(inp, np, depth, f - 1);
                    match r {
                        Ok(s) => {
                            append_chars(&mut acc, &s);
                            p = p2;
                        },
                        Err(x) => {
                            return (Err(x), p2);
                        },
                    }
                }
            } else {
                acc.push(ch);
                p = np;
            }
            f = f - 1;
        }
    }

    /// Reads one macro use (after its `%`) and expands it: see [`read_use`].
    pub fn read_use_at(&mut self, inp: &Vec<char>, pos: usize, depth: usize, fuel: u64) -> (r: (Expansion, usize))
        requires
            pos <= inp.len(),
            fuel <= MAX_FUEL,
        ensures
            is_step(r.0, r.1, final(self).engine(), read_use(old(self).engine(), inp@, pos as int, depth as nat, fuel as nat)),
            final(self).same_frame(old(self)),
            r.1 <= inp.len(),
        decreases fuel,
    {
        if fuel == 0 {
            return (too_deep(), pos);
        }
        let fuel1 = fuel - 1;
        let ghost goal = use_loop(self.engine(), inp@, pos as int, false, false, seq![], true, balance0(), depth as nat, fuel1 as nat);
        let mut notflag = false;
        let mut question = false;
        let mut content: Vec<char> = Vec::new();
        let mut first = true;
        let mut b = Bal::zero();
        let mut p = pos;
        let mut f = fuel1;
        loop
            invariant
                p <= inp.len(),
                f <= fuel1 < MAX_FUEL,
                fuel1 == fuel - 1,
                b.bounded(fuel1 - f),
                first ==> content@.len() == 0,
                first ==> (b@ == balance0() && !notflag && !question),
                *self == *old(self),
                goal == use_loop(old(self).engine(), inp@, pos as int, false, false, seq![], true, balance0(), depth as nat, fuel1 as nat),
                goal == use_loop(self.engine(), inp@, p as int, notflag, question, content@, first, b@, depth as nat, f as nat),
            decreases f,
        {
            if f == 0 {
                return (too_deep(), p);
            }
            if p >= inp.len() {
                return self.use_finish_at(inp, p, notflag, question, content, b, depth, f - 1);
            }
            let ch = inp[p];
            let np = p + 1;
            let b1 = b.step(ch, Ghost(fuel1 - f));
            if ch == '!' {
                notflag = !notflag;
            } else if ch == '?' {
                question = true;
            } else if ch == '{' {
                if !first {
                    return self.use_finish_at(inp, p, notflag, question, content, b, depth, f - 1);
                }
                assert(content@ =~= Seq::<char>::empty());
                return self.brace_at(inp, np, depth, f - 1);
            } else if ch == '(' {
                if !first {
                    return self.use_finish_at(inp, p, notflag, question, content, b, depth, f - 1);
                }
                assert(content@ =~= Seq::<char>::empty());
                return self.shell_at(inp, np, f - 1);
            } else if !(ascii_alnum(ch) || ch == '_') {
                return self.use_finish_at(inp, p, notflag, question, content, b, depth, f - 1);
            } else {
                content.push(ch);
            }
            first = false;
            b = b1;
            p = np;
            f = f - 1;
        }
    }

    /// A plain macro use whose name has been read: see [`use_finish`].
    fn use_finish_at(
        &mut self,
        inp: &Vec<char>,
        pos: usize,
        notflag: bool,
        question: bool,
        content: Vec<char>,
        b: Bal,
        depth: usize,
        fuel: u64,
    ) -> (r: (Expansion, usize))
        requires
            pos <= inp.len(),
            fuel <= MAX_FUEL,
        ensures
            is_step(r.0, r.1, final(self).engine(),
                use_finish(old(self).engine(), inp@, pos as int, notflag, question, content@, b@, depth as nat, fuel as nat)),
            final(self).same_frame(old(self)),
            r.1 <= inp.len(),
        decreases fuel,
    {
        if fuel == 0 {
            return (too_deep(), pos);
        }
        if !b.closed() {
            return (error(MacroError::Unclosed), pos);
        }
        if notflag && question {
            return (Ok(Vec::new()), pos);
        }
        let (r, p2) = self.rp_macro_at(&content, inp, pos, depth, fuel - 1);
        let alt = undefined_text_exec(false, &content);
        (fallback_exec(r, notflag, alt), p2)
    }

    /// `%{...}` after the opening brace: see [`brace_loop`] and [`colon_loop`].
    fn brace_at(&mut self, inp: &Vec<char>, pos: usize, depth: usize, fuel: u64) -> (r: (Expansion, usize))
        requires
            pos <= inp.len(),
            fuel < MAX_FUEL,
        ensures
            is_step(r.0, r.1, final(self).engine(),
                brace_loop(old(self).engine(), inp@, pos as int, false, false, seq![], seq![],
                    bal_step(balance0(), '{'), 0, depth as nat, fuel as nat)),
            final(self).same_frame(old(self)),
            r.1 <= inp.len(),
        decreases fuel,
    {
        let ghost goal = brace_loop(self.engine(), inp@, pos as int, false, false, seq![], seq![],
            bal_step(balance0(), '{'), 0, depth as nat, fuel as nat);
        let content: Vec<char> = Vec::new();
        let mut notflag = false;
        let mut question = false;
        let mut name: Vec<char> = Vec::new();
        let mut arg: Vec<char> = Vec::new();
        let mut in_arg = false;
        let mut b = Bal::zero().step('{', Ghost(0));
        let mut p = pos;
        let mut f = fuel;
        loop
            invariant
                p <= inp.len(),
                f <= fuel < MAX_FUEL,
                b.bounded(1 + fuel - f),
                content@ == Seq::<char>::empty(),
                !in_arg ==> arg@ == Seq::<char>::empty(),
                *self == *old(self),
                goal == brace_loop(old(self).engine(), inp@, pos as int, false, false, seq![], seq![],
                    bal_step(balance0(), '{'), 0, depth as nat, fuel as nat),
                goal == if in_arg {
                    colon_loop(self.engine(), inp@, p as int, notflag, question, content@, name@, arg@, b@, 0, depth as nat, f as nat)
                } else {
                    brace_loop(self.engine(), inp@, p as int, notflag, question, content@, name@, b@, 0, depth as nat, f as nat)
                },
            decreases f,
        {
            if f == 0 {
                return (too_deep(), p);
            }
            if p >= inp.len() {
                return (error(MacroError::UnexpectedEnd), p);
            }
            let ch = inp[p];
            let np = p + 1;
            let b1 = b.step(ch, Ghost(1 + fuel - f));
            if !in_arg {
                if b1.pc == 0 {
                    if !b1.closed() {
                        return (error(MacroError::Unclosed), np);
                    }
                    let (r, p2) = self.rp_macro_at(&name, inp, np, depth, f - 1);
                    if notflag && question {
                        return (Ok(Vec::new()), p2);
                    }
                    let alt = undefined_text_exec(true, &name);
                    return (fallback_exec(r, notflag, alt), p2);
                } else if ch == ':' {
                    in_arg = true;
                } else if ch == '?' {
                    question = true;
                } else if ch == '!' {
                    notflag = !notflag;
                } else {
                    name.push(ch);
                }
            } else {
                if b1.pc == 0 {
                    if question {
                        if self.macros.contains(&name) != notflag {
                            let (r, _p2) = self.parse_macros_at(&arg, 0, depth, f - 1);
                            return (r, np);
                        }
                        return (Ok(Vec::new()), np);
                    }
                    if !b1.closed() {
                        return (error(MacroError::Unclosed), np);
                    }
                    let (r, _p2) = self.rp_macro_at(&name, &arg, 0, depth, f - 1);
                    let alt = undefined_text_exec(true, &name);
                    return (fallback_exec(r, notflag, alt), np);
                }
                arg.push(ch);
            }
            b = b1;
            p = np;
            f = f - 1;
        }
    }

    /// Expands the macro `name`, built-in or defined: see [`rp_macro`].
    pub fn rp_macro_at(&mut self, name: &Vec<char>, inp: &Vec<char>, pos: usize, depth: usize, fuel: u64) -> (r: (Expansion, usize))
        requires
            pos <= inp.len(),
            fuel <= MAX_FUEL,
        ensures
            is_step(r.0, r.1, final(self).engine(),
                rp_macro(old(self).engine(), name@, inp@, pos as int, depth as nat, fuel as nat)),
            final(self).same_frame(old(self)),
            r.1 <= inp.len(),
        decreases fuel,
    {
        if fuel == 0 {
            return (too_deep(), pos);
        }
        let (bi, p1) = self.builtin_at(name, inp, pos, depth, fuel - 1);
        match bi {
            Some(r) => (r, p1),
            None => match self.macros.get(name) {
                Some(def) => {
                    if depth == 0 {
                        return (too_deep(), p1);
                    }
                    let n = def.len();
                    if n > 0 && def[n - 1] == ' ' {
                        let body = slice_chars(&def, 0, n - 1);
                        assert(body@ =~= def@.drop_last());
                        let (r, p2) = self.param_macro_at(name, &body, inp, p1, depth - 1, fuel - 1);
                        match r {
                            Ok(out) => {
                                let (r3, _p3) = self.expand_at(&out, 0, depth - 1, fuel - 1);
                                (r3, p2)
                            },
                            Err(x) => (Err(x), p2),
                        }
                    } else {
                        let (r, _p2) = self.expand_at(&def, 0, depth - 1, fuel - 1);
                        (r, p1)
                    }
                },
                None => (error(MacroError::NotFound), p1),
            },
        }
    }

    /// Built-in macros: see [`builtin`].
    fn builtin_at(&mut self, name: &Vec<char>, inp: &Vec<char>, pos: usize, depth: usize, fuel: u64) -> (r: (Option<Expansion>, usize))
        requires
            pos <= inp.len(),
            fuel <= MAX_FUEL,
        ensures
            builtin_view(r.0) == builtin(old(self).engine(), name@, inp@, pos as int, depth as nat, fuel as nat).0,
            r.1 as int == builtin(old(self).engine(), name@, inp@, pos as int, depth as nat, fuel as nat).1,
            final(self).engine() == builtin(old(self).engine(), name@, inp@, pos as int, depth as nat, fuel as nat).2,
            final(self).same_frame(old(self)),
            r.1 <= inp.len(),
        decreases fuel,
    {
        if fuel == 0 {
            return (Some(too_deep()), pos);
        }
        if name_is(name, "define") || name_is(name, "global") {
            let (l, p) = read_line_exec(inp, pos);
            match l {
                None => {
                    return (None, p);
                },
                Some(line) => match define_of_exec(&line) {
                    None => {
                        return (None, p);
                    },
                    Some((n, body)) => {
                        add_define_exec(&mut self.macros, n, body);
                        return (Some(Ok(Vec::new())), p);
                    },
                },
            }
        }
        if name_is(name, "undefine") {
            let (l, p) = read_line_exec(inp, pos);
            match l {
                None => {
                    return (None, p);
                },
                Some(line) => {
                    let target = trim_chars(&line);
                    self.macros.remove(&target);
                    return (Some(Ok(Vec::new())), p);
                },
            }
        }
        let rest = slice_chars(inp, pos, inp.len());
        assert(rest@ =~= crate::rpmspec::macrospec::rest_of(inp@, pos as int));
        if name_is(name, "load") {
            match self.files.lookup(&rest) {
                Reply::Success(text) => {
                    load_file_defs(&mut self.macros, string_of(&text).as_str());
                    return (Some(Ok(Vec::new())), inp.len());
                },
                Reply::Failure => {
                    return (None, inp.len());
                },
                Reply::Unknown => {
                    return (Some(Err(Failure::Halt(Halt::NeedFile(rest)))), inp.len());
                },
            }
        }
        if name_is(name, "expand") {
            let (r, p) = self.expand_at(inp, pos, depth, fuel - 1);
            match r {
                Ok(s) => {
                    return (Some(Ok(s)), p);
                },
                Err(Failure::Error(_)) => {
                    return (None, p);
                },
                Err(Failure::Halt(h)) => {
                    return (Some(Err(Failure::Halt(h))), p);
                },
            }
        }
        if unsupported_exec(name) {
            return (Some(Err(Failure::Halt(Halt::Unsupported(copy_chars(name))))), pos);
        }
        if name_is(name, "len") {
            return (Some(Ok(format_decimal(rest.len()))), inp.len());
        }
        if name_is(name, "lower") {
            return (Some(Ok(to_lowercase(&rest))), inp.len());
        }
        if name_is(name, "echo") || name_is(name, "warn") || name_is(name, "error") || name_is(name, "trace") {
            return (Some(Ok(Vec::new())), inp.len());
        }
        (None, pos)
    }

    /// A parametric macro: reads its argument line, then substitutes: see
    /// [`param_macro`].
    fn param_macro_at(&mut self, name: &Vec<char>, def: &Vec<char>, inp: &Vec<char>, pos: usize, depth: usize, fuel: u64) -> (r: (Expansion, usize))
        requires
            pos <= inp.len(),
            fuel <= MAX_FUEL,
        ensures
            is_step(r.0, r.1, final(self).engine(),
                param_macro(old(self).engine(), name@, def@, inp@, pos as int, depth as nat, fuel as nat)),
            final(self).same_frame(old(self)),
            r.1 <= inp.len(),
        decreases fuel,
    {
        if fuel == 0 {
            return (too_deep(), pos);
        }
        let (la, p1) = self.line_args_at(inp, pos, depth, fuel - 1);
        match la {
            Ok((raw, flags)) => {
                let r = self.param_body_at(name, def, &raw, &flags, depth, fuel - 1);
                (r, p1)
            },
            Err(x) => (Err(x), p1),
        }
    }

    /// Reads the argument line of a parametric macro: see [`line_args`] and
    /// [`line_cont`].
    pub fn line_args_at(&mut self, inp: &Vec<char>, pos: usize, depth: usize, fuel: u64) -> (r: (Result<(Vec<char>, Vec<char>), Failure>, usize))
        requires
            pos <= inp.len(),
            fuel <= MAX_FUEL,
        ensures
            args_view(r.0) == line_args(old(self).engine(), inp@, pos as int, seq![], seq![], balance0(), depth as nat, fuel as nat).0,
            r.1 as int == line_args(old(self).engine(), inp@, pos as int, seq![], seq![], balance0(), depth as nat, fuel as nat).1,
            final(self).engine() == line_args(old(self).engine(), inp@, pos as int, seq![], seq![], balance0(), depth as nat, fuel as nat).2,
            final(self).same_frame(old(self)),
            r.1 <= inp.len(),
        decreases fuel,
    {
        let ghost goal = line_args(self.engine(), inp@, pos as int, seq![], seq![], balance0(), depth as nat, fuel as nat);
        let mut content: Vec<char> = Vec::new();
        let mut flags: Vec<char> = Vec::new();
        let mut b = Bal::zero();
        let mut cont = false;
        let mut got_nl = false;
        let mut p = pos;
        let mut f = fuel;
        loop
            invariant
                p <= inp.len(),
                f <= fuel <= MAX_FUEL,
                b.bounded(fuel - f),
                goal == line_args(old(self).engine(), inp@, pos as int, seq![], seq![], balance0(), depth as nat, fuel as nat),
                goal == if cont {
                    line_cont(self.engine(), inp@, p as int, content@, flags@, b@, got_nl, depth as nat, f as nat)
                } else {
                    line_args(self.engine(), inp@, p as int, content@, flags@, b@, depth as nat, f as nat)
                },
                self.same_frame(old(self)),
            decreases f,
        {
            if f == 0 {
                return (Err(Failure::Halt(Halt::TooDeep)), p);
            }
            if p >= inp.len() {
                if cont {
                    return (Err(Failure::Error(MacroError::BadContinuation)), p);
                }
                return la_exit_exec(p, content, flags, b);
            }
            let ch = inp[p];
            let np = p + 1;
            if cont {
                if ch == '\n' {
                    got_nl = true;
                    p = np;
                } else if !is_whitespace(ch) {
                    if got_nl {
                        cont = false;
                    } else {
                        return (Err(Failure::Error(MacroError::BadContinuation)), np);
                    }
                } else {
                    p = np;
                }
            } else if ch == '%' {
                if np >= inp.len() {
                    return la_exit_exec(p, content, flags, b);
                }
                if inp[np] == '%' {
                    content.push('%');
                    p = np + 1;
                } else {
                    let (r, p2) = self.read_use_at(inp, np, depth, f - 1);
                    match r {
                        Ok(s) => {
                            append_chars(&mut content, &s);
                            p = p2;
                        },
                        Err(x) => {
                            return (Err(x), p2);
                        },
                    }
                }
            } else if ch == '-' {
                if np >= inp.len() {
                    return la_exit_exec(p, content, flags, b);
                }
                let c = inp[np];
                if !ascii_alpha(c) {
                    return (Err(Failure::Error(MacroError::BadFlag)), np + 1);
                }
                if np + 1 >= inp.len() {
                    return la_exit_exec(np + 1, content, flags, b);
                }
                let n2 = inp[np + 1];
                if !(n2 == '\\' || n2 == ' ' || n2 == '\n') {
                    return (Err(Failure::Error(MacroError::BadFlag)), np + 2);
                }
                let ghost c0 = content@;
                content.push('-');
                content.push(c);
                assert(content@ =~= c0 + seq!['-', c]);
                flags.push(c);
                p = np + 1;
            } else if ch == '\\' {
                let t = trim_end_chars(&content);
                content = t;
                content.push(' ');
                cont = true;
                got_nl = false;
                p = np;
            } else if ch == '\n' && b.closed() {
                return la_exit_exec(np, content, flags, b);
            } else {
                let b1 = b.step(ch, Ghost(fuel - f));
                if is_whitespace(ch) && content.len() > 0 && !is_whitespace(content[content.len() - 1]) {
                    content.push(' ');
                } else if !is_whitespace(ch) {
                    content.push(ch);
                }
                b = b1;
                p = np;
            }
            f = f - 1;
        }
    }

    /// Substitutes arguments into a parametric macro's body: see
    /// [`param_body`] and [`param_brace`].
    fn param_body_at(&mut self, name: &Vec<char>, def: &Vec<char>, raw: &Vec<char>, flags: &Vec<char>, depth: usize, fuel: u64) -> (r: Expansion)
        requires
            fuel <= MAX_FUEL,
        ensures
            res_view(r) == param_body(old(self).engine(), name@, def@, 0, raw@, flags@, seq![], balance0(), depth as nat, fuel as nat).0,
            final(self).engine() == param_body(old(self).engine(), name@, def@, 0, raw@, flags@, seq![], balance0(), depth as nat, fuel as nat).1,
            final(self).same_frame(old(self)),
        decreases fuel,
    {
        let ghost goal = param_body(self.engine(), name@, def@, 0, raw@, flags@, seq![], balance0(), depth as nat, fuel as nat);
        let args = args_of_exec(raw);
        let mut d: usize = 0;
        let mut res: Vec<char> = Vec::new();
        let mut b = Bal::zero();
        let mut in_brace = false;
        let mut content: Vec<char> = Vec::new();
        let mut req: i64 = 0;
        let mut f = fuel;
        loop
            invariant
                d <= def.len(),
                f <= fuel <= MAX_FUEL,
                b.bounded(fuel - f),
                -(MAX_FUEL as int) - 2 <= req <= MAX_FUEL,
                words_view(args) == args_of(raw@),
                goal == param_body(old(self).engine(), name@, def@, 0, raw@, flags@, seq![], balance0(), depth as nat, fuel as nat),
                goal == if in_brace {
                    param_brace(self.engine(), name@, def@, d as int, raw@, flags@, res@, content@, b@, req as int, depth as nat, f as nat)
                } else {
                    param_body(self.engine(), name@, def@, d as int, raw@, flags@, res@, b@, depth as nat, f as nat)
                },
                self.same_frame(old(self)),
            decreases f,
        {
            if f == 0 {
                return too_deep();
            }
            if d >= def.len() {
                if in_brace {
                    return error(MacroError::UnexpectedEnd);
                }
                return pb_exit_exec(res, b);
            }
            let ch = def[d];
            let nd = d + 1;
            if in_brace {
                let b1 = b.step(ch, Ghost(fuel - f));
                if b1.pc != req {
                    content.push(ch);
                } else {
                    let notflag = content.len() > 0 && content[0] == '!';
                    let c1 = if notflag { slice_chars(&content, 1, content.len()) } else { copy_chars(&content) };
                    assert(c1@ == if notflag { content@.drop_first() } else { content@ });
                    let c1n = c1.len();
                    let (c2, text) = match find_char_exec(c1.as_slice(), ':') {
                        Some(i) => {
                            assert(i < c1n);
                            let a = slice_chars(&c1, 0, i);
                            let t = slice_chars(&c1, i + 1, c1n);
                            assert(a@ =~= c1@.take(i as int));
                            assert(t@ =~= c1@.skip(i + 1));
                            (a, t)
                        },
                        None => (copy_chars(&c1), copy_chars(&c1)),
                    };
                    if !(c2.len() > 0 && c2[0] == '-') {
                        let mut v: Vec<char> = Vec::new();
                        v.push('{');
                        append_chars(&mut v, &content);
                        v.push('}');
                        assert(v@ =~= seq!['{'] + content@ + seq!['}']);
                        let (r, _d3) = self.read_use_at(&v, 0, depth, f - 1);
                        match r {
                            Ok(s) => {
                                append_chars(&mut res, &s);
                            },
                            Err(x) => {
                                return Err(x);
                            },
                        }
                    } else if c2[c2.len() - 1] == '*' {
                        let c3 = slice_chars(&c2, 0, c2.len() - 1);
                        assert(c3@ =~= c2@.drop_last());
                        if !two_bytes_exec(&c3) {
                            return error(MacroError::BadFlag);
                        }
                        if !notflag {
                            let add = flag_value_exec(raw, &c3);
                            append_chars(&mut res, &add);
                        } else {
                            assert(res@ + Seq::<char>::empty() =~= res@);
                        }
                    } else if !two_bytes_exec(&c2) {
                        return error(MacroError::BadFlag);
                    } else if !ascii_alpha(c2[1]) {
                        return error(MacroError::BadFlag);
                    } else {
                        if contains_char(flags, c2[1]) != notflag {
                            append_chars(&mut res, &text);
                        } else {
                            assert(res@ + Seq::<char>::empty() =~= res@);
                        }
                    }
                    in_brace = false;
                }
                b = b1;
                d = nd;
            } else if ch != '%' {
                res.push(ch);
                b = b.step(ch, Ghost(fuel - f));
                d = nd;
            } else if nd >= def.len() {
                return pb_exit_exec(Vec::new(), b);
            } else {
                let c = def[nd];
                let d2 = nd + 1;
                if c == '%' {
                    res.push('%');
                    d = d2;
                } else {
                    let b1 = b.step(c, Ghost(fuel - f));
                    if c == '*' {
                        if d2 >= def.len() {
                            return pb_exit_exec(Vec::new(), b1);
                        }
                        if def[d2] == '*' {
                            append_chars(&mut res, raw);
                            d = d2 + 1;
                        } else {
                            let j = join_space_exec(&args);
                            append_chars(&mut res, &j);
                            d = d2;
                        }
                    } else if c == '#' {
                        let n = format_decimal(args.len());
                        append_chars(&mut res, &n);
                        d = d2;
                    } else if c == '0' {
                        append_chars(&mut res, name);
                        d = d2;
                    } else if c == '{' {
                        in_brace = true;
                        content = Vec::new();
                        req = b1.pc - 1;
                        d = d2;
                    } else if is_numeric(c) {
                        let d3 = numeric_end_exec(def, d2);
                        let digits = slice_chars(def, nd, d3);
                        match parse_dec_exec(&digits) {
                            None => {
                                return error(MacroError::BadParam);
                            },
                            Some(n) => {
                                if 1 <= n && n <= args.len() {
                                    append_chars(&mut res, &args[n - 1]);
                                } else {
                                    assert(res@ + Seq::<char>::empty() =~= res@);
                                }
                                d = d3;
                            },
                        }
                    } else {
                        let (r, d3) = self.read_use_at(def, nd, depth, f - 1);
                        match r {
                            Ok(s) => {
                                append_chars(&mut res, &s);
                            },
                            Err(x) => {
                                return Err(x);
                            },
                        }
                        d = d3;
                    }
                    b = b1;
                }
            }
            f = f - 1;
        }
    }

    /// Reads characters with macros expanded, as the spec parser's macro
    /// iterator yields them: see [`parse_macros`].
    pub fn parse_macros_at(&mut self, inp: &Vec<char>, pos: usize, depth: usize, fuel: u64) -> (r: (Expansion, usize))
        requires
            pos <= inp.len(),
            fuel <= MAX_FUEL,
        ensures
            is_step(r.0, r.1, final(self).engine(), parse_macros(old(self).engine(), inp@, pos as int, depth as nat, fuel as nat)),
            final(self).same_frame(old(self)),
            r.1 <= inp.len(),
        decreases fuel,
    {
        if fuel == 0 {
            return (too_deep(), pos);
        }
        let fuel1 = fuel - 1;
        let ghost goal = pm_loop(self.engine(), inp@, pos as int, false, seq![], depth as nat, fuel1 as nat);
        let mut percent = false;
        let mut out: Vec<char> = Vec::new();
        let mut p = pos;
        let mut f = fuel1;
        loop
            invariant
                p <= inp.len(),
                f <= fuel1 < MAX_FUEL,
                fuel1 == fuel - 1,
                goal == pm_loop(old(self).engine(), inp@, pos as int, false, seq![], depth as nat, fuel1 as nat),
                goal == pm_loop(self.engine(), inp@, p as int, percent, out@, depth as nat, f as nat),
                self.same_frame(old(self)),
            decreases f,
        {
            if f == 0 {
                return (too_deep(), p);
            }
            if p >= inp.len() {
                return (Ok(out), p);
            }
            let ch = inp[p];
            let np = p + 1;
            if ch == '%' {
                if percent {
                    out.push('%');
                    percent = false;
                } else {
                    percent = true;
                }
                p = np;
            } else if percent {
                let (r, p2) = self.read_use_at(inp, p, depth, f - 1);
                match r {
                    Ok(s) => {
                        append_chars(&mut out, &s);
                        percent = false;
                        p = p2;
                    },
                    Err(Failure::Error(_)) => {
                        return (Ok(out), p2);
                    },
                    Err(Failure::Halt(h)) => {
                        return (Err(Failure::Halt(h)), p2);
                    },
                }
            } else {
                out.push(ch);
                p = np;
            }
            f = f - 1;
        }
    }
}

/// An expansion's outcome as a string, in the form of the definitions.
pub open spec fn text_view(r: Result<String, Failure>) -> SOut<Seq<char>> {
    match r {
        Ok(s) => SOut::Done(s@),
        Err(Failure::Error(x)) => SOut::Fail(x),
        Err(Failure::Halt(h)) => SOut::Halt(h.view()),
    }
}

fn to_text(r: Expansion) -> (t: Result<String, Failure>)
    ensures
        text_view(t) == res_view(r),
{
    match r {
        Ok(v) => Ok(string_of(&v)),
        Err(x) => Err(x),
    }
}

fn strings_of(ws: &Vec<Vec<char>>) -> (r: Vec<String>)
    ensures
        strings_view(r) == words_view(*ws),
{
    let mut r: Vec<String> = Vec::new();
    let mut i: usize = 0;
    while i < ws.len()
        invariant
            i <= ws.len(),
            strings_view(r) == words_view(*ws).take(i as int),
        decreases ws.len() - i,
    {
        let ghost before = r;
        r.push(string_of(&ws[i]));
        assert(strings_view(r) =~= strings_view(before).push(ws@[i as int]@));
        assert(words_view(*ws).take(i + 1) =~= words_view(*ws).take(i as int).push(ws@[i as int]@));
        i += 1;
    }
    assert(words_view(*ws).take(ws.len() as int) =~= words_view(*ws));
    r
}

impl SpecParser {
    /// Reads one macro use from `chars` (just after its `%`) and expands it,
    /// with macro bodies nested at most [`MAX_DEPTH`] deep.
    pub fn _read_raw_macro_use(&mut self, chars: &mut Consumer) -> (r: Result<String, Failure>)
        requires
            old(chars).wf(),
        ensures
            text_view(r) == read_use(old(self).engine(), old(chars).text@, old(chars).pos as int, MAX_DEPTH as nat, MAX_FUEL as nat).0,
            final(chars).pos as int == read_use(old(self).engine(), old(chars).text@, old(chars).pos as int, MAX_DEPTH as nat, MAX_FUEL as nat).1,
            final(self).engine() == read_use(old(self).engine(), old(chars).text@, old(chars).pos as int, MAX_DEPTH as nat, MAX_FUEL as nat).2,
            final(chars).text == old(chars).text,
            final(chars).wf(),
            final(self).same_frame(old(self)),
    {
        let (r, p) = self.read_use_at(&chars.text, chars.pos, MAX_DEPTH, MAX_FUEL);
        chars.pos = p;
        to_text(r)
    }

    /// Expands everything that is left in `chars`.
    pub fn _expand_macro(&mut self, chars: &mut Consumer) -> (r: Result<String, Failure>)
        requires
            old(chars).wf(),
        ensures
            text_view(r) == expand(old(self).engine(), old(chars).text@, old(chars).pos as int, seq![], MAX_DEPTH as nat, MAX_FUEL as nat).0,
            final(chars).pos as int == expand(old(self).engine(), old(chars).text@, old(chars).pos as int, seq![], MAX_DEPTH as nat, MAX_FUEL as nat).1,
            final(self).engine() == expand(old(self).engine(), old(chars).text@, old(chars).pos as int, seq![], MAX_DEPTH as nat, MAX_FUEL as nat).2,
            final(chars).text == old(chars).text,
            final(chars).wf(),
            final(self).same_frame(old(self)),
    {
        let (r, p) = self.expand_at(&chars.text, chars.pos, MAX_DEPTH, MAX_FUEL);
        chars.pos = p;
        to_text(r)
    }

    /// Expands the macro `name`, reading what it needs (the arguments of a
    /// parametric macro, the line of `%define`) from `reader`.
    pub fn _rp_macro(&mut self, name: &str, reader: &mut Consumer) -> (r: Result<String, Failure>)
        requires
            old(reader).wf(),
        ensures
            text_view(r) == rp_macro(old(self).engine(), name@, old(reader).text@, old(reader).pos as int, MAX_DEPTH as nat, MAX_FUEL as nat).0,
            final(reader).pos as int == rp_macro(old(self).engine(), name@, old(reader).text@, old(reader).pos as int, MAX_DEPTH as nat, MAX_FUEL as nat).1,
            final(self).engine() == rp_macro(old(self).engine(), name@, old(reader).text@, old(reader).pos as int, MAX_DEPTH as nat, MAX_FUEL as nat).2,
            final(reader).text == old(reader).text,
            final(reader).wf(),
            final(self).same_frame(old(self)),
    {
        let n = chars_of(name);
        let (r, p) = self.rp_macro_at(&n, &reader.text, reader.pos, MAX_DEPTH, MAX_FUEL);
        reader.pos = p;
        to_text(r)
    }

    /// Reads the argument line of a parametric macro from `reader`: the
    /// normalised line, its arguments (the words that are not flags) and its
    /// flags.
    pub fn _param_macro_line_args(&mut self, reader: &mut Consumer) -> (r: Result<(String, Vec<String>, Vec<char>), Failure>)
        requires
            old(reader).wf(),
        ensures
            match r {
                Ok((c, a, fl)) => line_args(old(self).engine(), old(reader).text@, old(reader).pos as int, seq![], seq![], balance0(), MAX_DEPTH as nat, MAX_FUEL as nat).0
                    == SOut::Done((c@, fl@)) && strings_view(a) == args_of(c@),
                Err(Failure::Error(x)) => line_args(old(self).engine(), old(reader).text@, old(reader).pos as int, seq![], seq![], balance0(), MAX_DEPTH as nat, MAX_FUEL as nat).0
                    == SOut::<(Seq<char>, Seq<char>)>::Fail(x),
                Err(Failure::Halt(h)) => line_args(old(self).engine(), old(reader).text@, old(reader).pos as int, seq![], seq![], balance0(), MAX_DEPTH as nat, MAX_FUEL as nat).0
                    == SOut::<(Seq<char>, Seq<char>)>::Halt(h.view()),
            },
            final(reader).pos as int == line_args(old(self).engine(), old(reader).text@, old(reader).pos as int, seq![], seq![], balance0(), MAX_DEPTH as nat, MAX_FUEL as nat).1,
            final(self).engine() == line_args(old(self).engine(), old(reader).text@, old(reader).pos as int, seq![], seq![], balance0(), MAX_DEPTH as nat, MAX_FUEL as nat).2,
            final(reader).text == old(reader).text,
            final(reader).wf(),
            final(self).same_frame(old(self)),
    {
        let (r, p) = self.line_args_at(&reader.text, reader.pos, MAX_DEPTH, MAX_FUEL);
        reader.pos = p;
        match r {
            Ok((c, fl)) => {
                let a = args_of_exec(&c);
                let words = strings_of(&a);
                Ok((string_of(&c), words, fl))
            },
            Err(x) => Err(x),
        }
    }

    /// Reads `reader` with macros expanded, as the parser's macro iterator
    /// yields characters: a `%` starts macro reading, `%%` is a percent sign,
    /// and the output ends at the first macro that fails or expands to
    /// nothing.
    pub fn parse_macro(&mut self, reader: &mut Consumer) -> (r: Result<String, Failure>)
        requires
            old(reader).wf(),
        ensures
            text_view(r) == parse_macros(old(self).engine(), old(reader).text@, old(reader).pos as int, MAX_DEPTH as nat, MAX_FUEL as nat).0,
            final(reader).pos as int == parse_macros(old(self).engine(), old(reader).text@, old(reader).pos as int, MAX_DEPTH as nat, MAX_FUEL as nat).1,
            final(self).engine() == parse_macros(old(self).engine(), old(reader).text@, old(reader).pos as int, MAX_DEPTH as nat, MAX_FUEL as nat).2,
            final(reader).text == old(reader).text,
            final(reader).wf(),
            final(self).same_frame(old(self)),
    {
        let (r, p) = self.parse_macros_at(&reader.text, reader.pos, MAX_DEPTH, MAX_FUEL);
        reader.pos = p;
        to_text(r)
    }
}

} // verus!
