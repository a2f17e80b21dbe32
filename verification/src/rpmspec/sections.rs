//! Conditions (`%if`, `%ifarch`, ...) and section headers (`%package`,
//! `%files`, ...) of a spec file.
use crate::rpmspec::expander::{Failure, Halt};
use crate::rpmspec::macrospec::{args_of, find_char, line_args, split_char, Engine, SOut, MAX_DEPTH};
use crate::rpmspec::model::{empty_pkg, pkg_names, RPMSpecPkg};
use crate::rpmspec::parser::{section_view, RPMSection, SectionView, SpecFailure, SpecParser};
use crate::rpmspec::reader::{balance0, MAX_FUEL};
use crate::rpmspec::words::{args_of_exec, find_char_exec, split_char_exec, words_view};
use crate::text::{append_chars, chars_eq, chars_of, opt_view, slice_chars, string_of, trim, trim_chars};
use vstd::prelude::*;

verus! {

/// A number equal to zero: an optional sign and only zeros.
pub open spec fn zero_number(s: Seq<char>) -> bool {
    all_zeros(unsigned_part(s))
}

/// A number without its sign.
pub open spec fn unsigned_part(s: Seq<char>) -> Seq<char> {
    if s.len() > 0 && (s[0] == '+' || s[0] == '-') { s.drop_first() } else { s }
}

/// At least one digit, all of them zeros.
pub open spec fn all_zeros(d: Seq<char>) -> bool {
    d.len() > 0 && forall|i: int| 0 <= i < d.len() ==> d[i] == '0'
}

/// The truth of an `%if` or `%elif` expression: false exactly for a
/// number equal to zero (`parse::<isize>()`, true when it does not parse).
pub open spec fn cond_true(s: Seq<char>) -> bool {
    !zero_number(s)
}

/// The open conditions after a condition line `%start remain`: `None` for
/// an error (no matching `%if`), `Some(None)` when `start` is not a
/// condition keyword, `Some(Some(stack))` otherwise.
pub open spec fn conditions_step(cond: Seq<(bool, bool)>, arch: Seq<char>, start: Seq<char>, remain: Seq<char>) -> Option<Option<Seq<(bool, bool)>>> {
    if start == "if"@ {
        Some(Some(cond.push((cond_true(remain), cond_true(remain)))))
    } else if start == "ifarch"@ {
        Some(Some(cond.push((remain == arch, remain == arch))))
    } else if start == "ifnarch"@ {
        Some(Some(cond.push((remain != arch, remain != arch))))
    } else if start == "elifarch"@ || start == "elifnarch"@ || start == "elif"@ || start == "else"@ {
        if cond.len() == 0 {
            None
        } else {
            let (a, b) = cond.last();
            let n = cond.len() - 1;
            if b {
                Some(Some(cond.update(n, (false, b))))
            } else if start == "else"@ {
                Some(Some(cond.update(n, (!a, b))))
            } else {
                let v = if start == "elifarch"@ { remain == arch } else if start == "elifnarch"@ { remain != arch } else { cond_true(remain) };
                Some(Some(cond.update(n, (v, v))))
            }
        }
    } else if start == "endif"@ {
        if cond.len() == 0 { None } else { Some(Some(cond.drop_last())) }
    } else {
        Some(None)
    }
}

fn is_lit(s: &[char], lit: &str) -> (r: bool)
    ensures
        r == (s@ == lit@),
{
    chars_eq(s, &chars_of(lit))
}

fn zero_number_exec(s: &[char]) -> (r: bool)
    ensures
        r == zero_number(s@),
{
    let start: usize = if s.len() > 0 && (s[0] == '+' || s[0] == '-') { 1 } else { 0 };
    let ghost d = unsigned_part(s@);
    assert(d =~= s@.skip(start as int));
    if start >= s.len() {
        return false;
    }
    let mut i = start;
    while i < s.len()
        invariant
            start <= i <= s.len(),
            start < s.len(),
            d == s@.skip(start as int),
            d == unsigned_part(s@),
            forall|j: int| 0 <= j < i - start ==> d[j] == '0',
        decreases s.len() - i,
    {
        if s[i] != '0' {
            let ghost k = i - start;
            assert(d[k] == s@[i as int]);
            assert(d[k] != '0');
            assert(0 <= k < d.len());
            assert(!all_zeros(d));
            return false;
        }
        i += 1;
    }
    true
}

/// Whether a parser state and the one after it agree on everything but the
/// open conditions.
pub open spec fn same_but_cond(a: SpecParser, b: SpecParser) -> bool {
    &&& a.rpm == b.rpm
    &&& a.macros == b.macros
    &&& a.shell == b.shell
    &&& a.files == b.files
    &&& a.count_line == b.count_line
    &&& a.state.arch == b.state.arch
    &&& a.state.errors == b.state.errors
    &&& a.state.section == b.state.section
}

impl SpecParser {
    /// Handles conditions as if they are sections, like `%if` and
    /// `%elifarch`: `Ok(true)` when `%start` is a condition keyword.
    pub fn _handle_conditions(&mut self, start: &str, remain: &str) -> (r: Result<bool, String>)
        ensures
            same_but_cond(*old(self), *final(self)),
            match conditions_step(old(self).state.cond@, old(self).state.arch@, start@, remain@) {
                None => r is Err && final(self).state.cond == old(self).state.cond,
                Some(None) => r == Ok::<bool, String>(false) && final(self).state.cond == old(self).state.cond,
                Some(Some(c)) => r == Ok::<bool, String>(true) && final(self).state.cond@ == c,
            },
    {
        let st = chars_of(start);
        let rm = chars_of(remain);
        let arch = chars_of(self.state.arch.as_str());
        if is_lit(&st, "if") {
            let c = !zero_number_exec(&rm);
            self.state.cond.push((c, c));
            return Ok(true);
        }
        if is_lit(&st, "ifarch") {
            let c = chars_eq(&rm, &arch);
            self.state.cond.push((c, c));
            return Ok(true);
        }
        if is_lit(&st, "ifnarch") {
            let c = !chars_eq(&rm, &arch);
            self.state.cond.push((c, c));
            return Ok(true);
        }
        let is_else = is_lit(&st, "else");
        let is_elifarch = is_lit(&st, "elifarch");
        let is_elifnarch = is_lit(&st, "elifnarch");
        if is_elifarch || is_elifnarch || is_lit(&st, "elif") || is_else {
            let n = self.state.cond.len();
            if n == 0 {
                return Err("%elif/%else found without %if".to_owned());
            }
            let (a, b) = self.state.cond[n - 1];
            if b {
                self.state.cond.set(n - 1, (false, b));
            } else if is_else {
                self.state.cond.set(n - 1, (!a, b));
            } else {
                let v = if is_elifarch {
                    chars_eq(&rm, &arch)
                } else if is_elifnarch {
                    !chars_eq(&rm, &arch)
                } else {
                    !zero_number_exec(&rm)
                };
                self.state.cond.set(n - 1, (v, v));
            }
            return Ok(true);
        }
        if is_lit(&st, "endif") {
            if self.state.cond.len() == 0 {
                return Err("%endif found without %if".to_owned());
            }
            self.state.cond.pop();
            return Ok(true);
        }
        Ok(false)
    }
}

/// The parts of `s` before and after its first space.
pub open spec fn split_space(s: Seq<char>) -> Option<(Seq<char>, Seq<char>)> {
    match find_char(s, ' ', 0) {
        Some(i) => Some((s.take(i), s.skip(i + 1))),
        None => None,
    }
}

/// A header line's keyword and arguments: the parts before and after its
/// first space, or the whole line and nothing when it has no space.
pub open spec fn header_parts(s: Seq<char>) -> (Seq<char>, Seq<char>) {
    match split_space(s) {
        Some(p) => p,
        None => (s, seq![]),
    }
}

/// The words of the arguments of `%files`: none when there are none.
pub open spec fn files_words(remain: Seq<char>) -> Seq<Seq<char>> {
    if remain.len() == 0 {
        seq![]
    } else {
        split_char(remain, ' ')
    }
}

/// The subpackage named by the arguments of `%description` or `%package`:
/// exactly one argument and no flag but `-n`; without `-n` the argument is
/// appended to the main package's name and a dash.
pub open spec fn subpackage_name(args: Seq<Seq<char>>, flags: Seq<char>, main: Option<Seq<char>>) -> Option<Seq<char>> {
    if exists|i: int| 0 <= i < flags.len() && flags[i] != 'n' {
        None
    } else if args.len() != 1 {
        None
    } else if flags.len() == 0 {
        match main {
            Some(m) => Some(m + seq!['-'] + args[0]),
            None => None,
        }
    } else {
        Some(args[0])
    }
}

/// Reading the words of `%files` from `i`: `-f file`, `-n name` or a
/// subpackage suffix; the subpackage's name and the file list, or `None`
/// when the words are invalid.
pub open spec fn files_args(words: Seq<Seq<char>>, i: int, name: Seq<char>, f: Option<Seq<char>>, main: Option<Seq<char>>) -> Option<(Seq<char>, Option<Seq<char>>)>
    decreases words.len() - i,
{
    if i < 0 || i >= words.len() {
        Some((name, f))
    } else {
        let w = words[i];
        if w.len() > 0 && w[0] == '-' {
            let flag = w.drop_first();
            if flag == "f"@ || flag == "n"@ {
                if i + 1 >= words.len() {
                    None
                } else {
                    let next = words[i + 1];
                    if next.len() > 0 && next[0] == '-' {
                        None
                    } else if flag == "f"@ {
                        if f is Some { None } else { files_args(words, i + 2, name, Some(next), main) }
                    } else {
                        if name.len() > 0 { None } else { files_args(words, i + 2, next, f, main) }
                    }
                }
            } else {
                None
            }
        } else if name.len() > 0 {
            None
        } else {
            match main {
                Some(m) => files_args(words, i + 1, m + seq!['-'] + w, f, main),
                None => None,
            }
        }
    }
}

/// Nothing but the section changed.
pub open spec fn keeps(o: SpecParser, n: SpecParser) -> bool {
    &&& o.rpm == n.rpm
    &&& o.macros == n.macros
    &&& o.shell == n.shell
    &&& o.files == n.files
    &&& o.count_line == n.count_line
    &&& o.state.arch == n.state.arch
    &&& o.state.errors == n.state.errors
    &&& o.state.cond == n.state.cond
}

/// Nothing but the section, the macro table and the line count changed.
pub open spec fn keeps_but_engine(o: SpecParser, n: SpecParser) -> bool {
    &&& o.shell == n.shell
    &&& o.files == n.files
    &&& o.state.arch == n.state.arch
    &&& o.state.errors == n.state.errors
    &&& o.state.cond == n.state.cond
}

/// A section header whose keyword is not a condition: `%description`,
/// `%package`, `%prep`, `%build`, `%install`, `%files`, `%changelog`.
pub open spec fn header_rel(o: SpecParser, n: SpecParser, kw: Seq<char>, remain: Seq<char>, r: Result<bool, SpecFailure>) -> bool {
    let main = opt_view(o.rpm.name);
    if kw == "description"@ && remain.len() == 0 {
        r == Ok::<bool, SpecFailure>(true) && keeps(o, n) && section_view(n.state.section) == SectionView::Description(seq![])
    } else if kw == "package"@ && remain.len() == 0 {
        r is Err && n == o
    } else if kw == "description"@ || kw == "package"@ {
        let la = line_args(o.engine(), remain, 0, seq![], seq![], balance0(), MAX_DEPTH as nat, MAX_FUEL as nat);
        &&& n.engine() == la.2
        &&& keeps_but_engine(o, n)
        &&& match la.0 {
            SOut::Done((content, flags)) => match subpackage_name(args_of(content), flags, main) {
                Some(name) => if kw == "description"@ {
                    r == Ok::<bool, SpecFailure>(true) && n.rpm == o.rpm && section_view(n.state.section) == SectionView::Description(name)
                } else if pkg_names(o.rpm.packages).contains(name) {
                    r is Err && n.rpm == o.rpm && n.state.section == o.state.section
                } else {
                    &&& r == Ok::<bool, SpecFailure>(true)
                    &&& section_view(n.state.section) == SectionView::Package(name)
                    &&& n.rpm == (crate::rpmspec::model::RPMSpec { packages: n.rpm.packages, ..o.rpm })
                    &&& n.rpm.packages@.drop_last() == o.rpm.packages@
                    &&& n.rpm.packages@.len() == o.rpm.packages@.len() + 1
                    &&& n.rpm.packages@.last().0@ == name
                    &&& empty_pkg(n.rpm.packages@.last().1)
                },
                None => r is Err && n.rpm == o.rpm && n.state.section == o.state.section,
            },
            SOut::Fail(_) => r matches Err(SpecFailure::Invalid(_)) && n.rpm == o.rpm && n.state.section == o.state.section,
            SOut::Halt(h) => r matches Err(SpecFailure::Halt(x)) && x@ == h && n.rpm == o.rpm && n.state.section == o.state.section,
        }
    } else if kw == "prep"@ {
        r == Ok::<bool, SpecFailure>(true) && keeps(o, n) && section_view(n.state.section) == SectionView::Prep
    } else if kw == "build"@ {
        r == Ok::<bool, SpecFailure>(true) && keeps(o, n) && section_view(n.state.section) == SectionView::Build
    } else if kw == "install"@ {
        r == Ok::<bool, SpecFailure>(true) && keeps(o, n) && section_view(n.state.section) == SectionView::Install
    } else if kw == "files"@ {
        match files_args(files_words(remain), 0, seq![], None, main) {
            Some((name, f)) => r == Ok::<bool, SpecFailure>(true) && keeps(o, n) && section_view(n.state.section) == SectionView::Files(name, f),
            None => r is Err && n == o,
        }
    } else if kw == "changelog"@ {
        r == Ok::<bool, SpecFailure>(true) && keeps(o, n) && section_view(n.state.section) == SectionView::Changelog
    } else {
        r == Ok::<bool, SpecFailure>(false) && n == o
    }
}

/// The keywords that open a condition.
pub open spec fn opens_cond(kw: Seq<char>) -> bool {
    kw == "if"@ || kw == "ifarch"@ || kw == "ifnarch"@
}

/// The keywords that go on with or close the innermost condition.
pub open spec fn moves_cond(kw: Seq<char>) -> bool {
    kw == "else"@ || kw == "elif"@ || kw == "elifarch"@ || kw == "elifnarch"@ || kw == "endif"@
}

/// Whether the line's keyword part is a header: one `%`, not two.
pub open spec fn header_start(start: Seq<char>) -> bool {
    start.len() > 0 && start[0] == '%' && !(start.len() > 1 && start[1] == '%')
}

/// What handling a line as a section header does: the keyword is what comes
/// before the first space (or the whole line), the arguments what follows;
/// lines with a newline or not starting with a single `%` are not headers.
/// Inside a false condition every line is skipped but the conditions: one
/// opened there never holds, and `%else`, `%elif...` and `%endif` go on
/// with the innermost one. Elsewhere conditions come first.
pub open spec fn section_rel(o: SpecParser, n: SpecParser, l: Seq<char>, r: Result<bool, SpecFailure>) -> bool {
    let (start, rest) = header_parts(l);
    let remain = trim(rest);
    let kw = start.drop_first();
    if l.contains('\n') {
        r == Ok::<bool, SpecFailure>(false) && n == o
    } else if o.state.cond@.len() > 0 && !o.state.cond@.last().0 {
        &&& r == Ok::<bool, SpecFailure>(true)
        &&& if header_start(start) && opens_cond(kw) {
            same_but_cond(o, n) && n.state.cond@ == o.state.cond@.push((false, true))
        } else if header_start(start) && moves_cond(kw) {
            match conditions_step(o.state.cond@, o.state.arch@, kw, remain) {
                Some(Some(c)) => same_but_cond(o, n) && n.state.cond@ == c,
                _ => n == o,
            }
        } else {
            n == o
        }
    } else if !header_start(start) {
        r == Ok::<bool, SpecFailure>(false) && n == o
    } else {
        match conditions_step(o.state.cond@, o.state.arch@, kw, remain) {
            None => r is Err && n == o,
            Some(Some(c)) => r == Ok::<bool, SpecFailure>(true) && same_but_cond(o, n) && n.state.cond@ == c,
            Some(None) => header_rel(o, n, kw, remain, r),
        }
    }
}

fn contains_newline(s: &[char]) -> (r: bool)
    ensures
        r == s@.contains('\n'),
{
    let mut i: usize = 0;
    while i < s.len()
        invariant
            i <= s.len(),
            forall|j: int| 0 <= j < i ==> s@[j] != '\n',
        decreases s.len() - i,
    {
        if s[i] == '\n' {
            assert(s@[i as int] == '\n');
            return true;
        }
        i += 1;
    }
    false
}

/// `main-arg`, or an error without a main package name.
fn prefixed_name(main: &Option<String>, arg: &[char]) -> (r: Option<String>)
    ensures
        match r {
            Some(s) => opt_view(*main) matches Some(m) && s@ == m + seq!['-'] + arg@,
            None => main is None,
        },
{
    match main {
        Some(m) => {
            let mut v = chars_of(m.as_str());
            v.push('-');
            append_chars(&mut v, arg);
            Some(string_of(&v))
        },
        None => None,
    }
}

/// The subpackage named by arguments and flags, as [`subpackage_name`].
fn subpackage_name_exec(args: &Vec<Vec<char>>, flags: &Vec<char>, main: &Option<String>) -> (r: Option<String>)
    ensures
        match r {
            Some(s) => subpackage_name(words_view(*args), flags@, opt_view(*main)) == Some(s@),
            None => subpackage_name(words_view(*args), flags@, opt_view(*main)) is None,
        },
{
    let mut i: usize = 0;
    while i < flags.len()
        invariant
            i <= flags.len(),
            forall|j: int| 0 <= j < i ==> flags@[j] == 'n',
        decreases flags.len() - i,
    {
        if flags[i] != 'n' {
            assert(flags@[i as int] != 'n');
            return None;
        }
        i += 1;
    }
    if args.len() != 1 {
        return None;
    }
    assert(words_view(*args)[0] == args@[0]@);
    if flags.len() == 0 {
        prefixed_name(main, &args[0])
    } else {
        Some(string_of(&args[0]))
    }
}

fn files_args_exec(words: &Vec<Vec<char>>, main: &Option<String>) -> (r: Option<(String, Option<String>)>)
    ensures
        match r {
            Some((n, f)) => files_args(words_view(*words), 0, seq![], None, opt_view(*main)) == Some((n@, opt_view(f))),
            None => files_args(words_view(*words), 0, seq![], None, opt_view(*main)) is None,
        },
{
    let ghost ws = words_view(*words);
    let ghost goal = files_args(ws, 0, seq![], None, opt_view(*main));
    let mut name: Vec<char> = Vec::new();
    let mut f: Option<String> = None;
    let mut i: usize = 0;
    while i < words.len()
        invariant
            i <= words.len(),
            ws == words_view(*words),
            goal == files_args(ws, 0, seq![], None, opt_view(*main)),
            goal == files_args(ws, i as int, name@, opt_view(f), opt_view(*main)),
        decreases words.len() - i,
    {
        let w = &words[i];
        assert(ws[i as int] == w@);
        if w.len() > 0 && w[0] == '-' {
            let flag = slice_chars(w, 1, w.len());
            assert(flag@ =~= w@.drop_first());
            let is_f = is_lit(&flag, "f");
            let is_n = is_lit(&flag, "n");
            if !(is_f || is_n) {
                return None;
            }
            if i + 1 >= words.len() {
                return None;
            }
            let next = &words[i + 1];
            assert(ws[i + 1] == next@);
            if next.len() > 0 && next[0] == '-' {
                return None;
            }
            if is_f {
                if f.is_some() {
                    return None;
                }
                f = Some(string_of(next));
            } else {
                if name.len() > 0 {
                    return None;
                }
                name = crate::text::copy_chars(next);
            }
            i = i + 2;
        } else {
            if name.len() > 0 {
                return None;
            }
            match prefixed_name(main, w) {
                Some(s) => {
                    name = chars_of(s.as_str());
                },
                None => {
                    return None;
                },
            }
            i = i + 1;
        }
    }
    Some((string_of(&name), f))
}

impl SpecParser {
    /// Detects a section header (or a condition) in a line: `Ok(true)` if
    /// the line is handled here.
    pub fn _handle_section(&mut self, l: &str) -> (r: Result<bool, SpecFailure>)
        requires
            old(self).wf(),
        ensures
            section_rel(*old(self), *final(self), l@, r),
            final(self).wf(),
    {
        let lc = chars_of(l);
        if contains_newline(&lc) {
            return Ok(false);
        }
        let nc = self.state.cond.len();
        let skipping = nc > 0 && !self.state.cond[nc - 1].0;
        let lcn = lc.len();
        let (start, rest) = match find_char_exec(lc.as_slice(), ' ') {
            Some(sp) => {
                let st = slice_chars(&lc, 0, sp);
                let re = slice_chars(&lc, sp + 1, lcn);
                assert(st@ =~= lc@.take(sp as int));
                assert(re@ =~= lc@.skip(sp + 1));
                (st, re)
            },
            None => {
                let st = slice_chars(&lc, 0, lcn);
                assert(st@ =~= lc@);
                (st, Vec::new())
            },
        };
        assert(start@ == header_parts(l@).0 && rest@ == header_parts(l@).1);
        let remain = trim_chars(&rest);
        if !(start.len() > 0 && start[0] == '%' && !(start.len() > 1 && start[1] == '%')) {
            return if skipping { Ok(true) } else { Ok(false) };
        }
        let kw = slice_chars(&start, 1, start.len());
        assert(kw@ =~= start@.drop_first());
        let kws = string_of(&kw);
        let remains = string_of(&remain);
        if skipping {
            if is_lit(&kw, "if") || is_lit(&kw, "ifarch") || is_lit(&kw, "ifnarch") {
                self.state.cond.push((false, true));
                return Ok(true);
            }
            if is_lit(&kw, "else") || is_lit(&kw, "elif") || is_lit(&kw, "elifarch") || is_lit(&kw, "elifnarch")
                || is_lit(&kw, "endif") {
                let _ = self._handle_conditions(kws.as_str(), remains.as_str());
            }
            return Ok(true);
        }
        match self._handle_conditions(kws.as_str(), remains.as_str()) {
            Err(e) => {
                return Err(SpecFailure::Invalid(e));
            },
            Ok(true) => {
                return Ok(true);
            },
            Ok(false) => {},
        }
        let is_desc = is_lit(&kw, "description");
        let is_pkg = is_lit(&kw, "package");
        if is_desc && remain.len() == 0 {
            self.state.section = RPMSection::Description(String::new());
            return Ok(true);
        }
        if is_pkg && remain.len() == 0 {
            return Err(SpecFailure::Invalid("Expected arguments to %package".to_owned()));
        }
        if is_desc || is_pkg {
            let (la, _p) = self.line_args_at(&remain, 0, MAX_DEPTH, MAX_FUEL);
            match la {
                Ok((content, flags)) => {
                    let args = args_of_exec(&content);
                    match subpackage_name_exec(&args, &flags, &self.rpm.name) {
                        None => {
                            return Err(SpecFailure::Invalid("Unexpected arguments to %description or %package".to_owned()));
                        },
                        Some(name) => {
                            if is_desc {
                                self.state.section = RPMSection::Description(name);
                                return Ok(true);
                            }
                            if self.has_package(&name) {
                                return Err(SpecFailure::Invalid("The subpackage has already been declared".to_owned()));
                            }
                            let ghost before = self.rpm.packages@;
                            let ghost nv = name@;
                            self.rpm.packages.push((name.clone(), RPMSpecPkg::new()));
                            assert(self.rpm.packages@.drop_last() =~= before);
                            assert(pkg_names(self.rpm.packages).last() == nv);
                            assert(pkg_names(self.rpm.packages).contains(nv));
                            self.state.section = RPMSection::Package(name);
                            return Ok(true);
                        },
                    }
                },
                Err(Failure::Error(_)) => {
                    return Err(SpecFailure::Invalid("Cannot parse arguments to %description or %package".to_owned()));
                },
                Err(Failure::Halt(h)) => {
                    return Err(SpecFailure::Halt(h));
                },
            }
        }
        if is_lit(&kw, "prep") {
            self.state.section = RPMSection::Prep;
            return Ok(true);
        }
        if is_lit(&kw, "build") {
            self.state.section = RPMSection::Build;
            return Ok(true);
        }
        if is_lit(&kw, "install") {
            self.state.section = RPMSection::Install;
            return Ok(true);
        }
        if is_lit(&kw, "files") {
            let words = if remain.len() == 0 {
                Vec::new()
            } else {
                split_char_exec(&remain, ' ')
            };
            assert(words_view(words) =~= files_words(remain@));
            match files_args_exec(&words, &self.rpm.name) {
                Some((name, f)) => {
                    self.state.section = RPMSection::Files(name, f);
                    return Ok(true);
                },
                None => {
                    return Err(SpecFailure::Invalid("Invalid arguments to %files".to_owned()));
                },
            }
        }
        if is_lit(&kw, "changelog") {
            self.state.section = RPMSection::Changelog;
            return Ok(true);
        }
        Ok(false)
    }

    /// Whether a subpackage of that name exists.
    pub fn has_package(&self, name: &String) -> (r: bool)
        ensures
            r == pkg_names(self.rpm.packages).contains(name@),
    {
        let mut i: usize = 0;
        while i < self.rpm.packages.len()
            invariant
                i <= self.rpm.packages.len(),
                forall|j: int| 0 <= j < i ==> pkg_names(self.rpm.packages)[j] != name@,
            decreases self.rpm.packages.len() - i,
        {
            if chars_eq(&chars_of(self.rpm.packages[i].0.as_str()), &chars_of(name.as_str())) {
                assert(pkg_names(self.rpm.packages)[i as int] == name@);
                return true;
            }
            i += 1;
        }
        false
    }
}

} // verus!
