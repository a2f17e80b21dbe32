//! Parsing a spec file line by line.
use crate::rpmspec::expander::Failure;
use crate::rpmspec::lines::body_rel;
use crate::rpmspec::model::{Changelog, RPMFiles, RPMSpec, RPMSpecPkg};
use crate::rpmspec::sectionparse::{changelog_entries, changelog_view, files_view, listed_files};
use crate::rpmspec::patterns::changelog_caps;
use crate::rpmspec::macrospec::{expand, SOut, MAX_DEPTH};
use crate::rpmspec::parser::{RPMSection, SpecFailure, SpecParser};
use crate::rpmspec::patterns::{dnl_line, is_dnl};
use crate::rpmspec::preamble::requires_rel;
use crate::rpmspec::reader::{read_line, read_line_exec, MAX_FUEL};
use crate::rpmspec::sections::section_rel;
use crate::text::{chars_of, string_of, trim, trim_chars};
use vstd::prelude::*;

verus! {

/// A line that is skipped: empty, a comment or a `%dnl` comment.
pub open spec fn skipped_line(t: Seq<char>) -> bool {
    t.len() == 0 || t[0] == '#' || dnl_line(t)
}

/// What a line does after its macros are expanded and it is trimmed: a
/// section header or condition, then (in a preamble section) a
/// `Requires:` line, then a line of the section's body.
pub open spec fn expanded_line_rel(m: SpecParser, n: SpecParser, t: Seq<char>, r: Result<(), SpecFailure>) -> bool {
    if skipped_line(t) {
        r is Ok && n == m
    } else {
        exists|m2: SpecParser, r2: Result<bool, SpecFailure>| {
            &&& #[trigger] section_rel(m, m2, t, r2)
            &&& match r2 {
                Err(e) => r == Err::<(), SpecFailure>(e) && n == m2,
                Ok(true) => r is Ok && n == m2,
                Ok(false) => if m2.state.section is Global || m2.state.section is Package {
                    exists|m3: SpecParser, r3: Result<bool, SpecFailure>| {
                        &&& #[trigger] requires_rel(m2, m3, t, r3)
                        &&& match r3 {
                            Err(e) => r == Err::<(), SpecFailure>(e) && n == m3,
                            Ok(true) => r is Ok && n == m3,
                            Ok(false) => body_rel(m3, n, t, r),
                        }
                    }
                } else {
                    body_rel(m2, n, t, r)
                },
            }
        }
    }
}

/// What one line of a spec file does: its macros are expanded (which may
/// define macros and count newlines), then the trimmed result is handled.
pub open spec fn line_rel(o: SpecParser, n: SpecParser, line: Seq<char>, r: Result<(), SpecFailure>) -> bool {
    let ex = expand(o.engine(), line, 0, seq![], MAX_DEPTH as nat, MAX_FUEL as nat);
    match ex.0 {
        SOut::Fail(_) => r matches Err(SpecFailure::Invalid(_)) && n.engine() == ex.2 && n.same_frame(&o),
        SOut::Halt(h) => r matches Err(SpecFailure::Halt(x)) && x@ == h && n.engine() == ex.2 && n.same_frame(&o),
        SOut::Done(raw) => exists|m: SpecParser| {
            &&& #[trigger] m.engine() == ex.2
            &&& m.same_frame(&o)
            &&& expanded_line_rel(m, n, trim(raw), r)
        },
    }
}

/// Parsing the lines of `text` from `pos` on: each logical line in turn,
/// stopping at the first error, at a line that does not read (unbalanced
/// brackets or quotes), or at the end of the text.
pub open spec fn parse_from(o: SpecParser, n: SpecParser, text: Seq<char>, pos: int, r: Result<(), SpecFailure>) -> bool
    decreases text.len() - pos, 1int,
{
    if pos < 0 || pos >= text.len() {
        n == o && r is Ok
    } else {
        let rl = read_line(text, pos, seq![], seq![]);
        if rl.0 is None {
            n == o && r is Ok
        } else if rl.1 <= pos || rl.1 > text.len() {
            false
        } else {
            parse_step(o, n, text, rl.0->Some_0, rl.1, r)
        }
    }
}

/// One line, then the rest from `p` unless the line failed.
pub open spec fn parse_step(o: SpecParser, n: SpecParser, text: Seq<char>, line: Seq<char>, p: int, r: Result<(), SpecFailure>) -> bool
    decreases text.len() - p, 2int,
{
    exists|m: SpecParser, r1: Result<(), SpecFailure>| {
        &&& #[trigger] line_rel(o, m, line, r1)
        &&& if r1 is Err { r == r1 && n == m } else { p <= text.len() && parse_from(m, n, text, p, r) }
    }
}

impl SpecParser {
    /// Handles one line of a spec file.
    pub fn parse_line(&mut self, line: &Vec<char>) -> (r: Result<(), SpecFailure>)
        requires
            old(self).wf(),
        ensures
            line_rel(*old(self), *final(self), line@, r),
            final(self).wf(),
    {
        let (ex, _p) = self.expand_at(line, 0, MAX_DEPTH, MAX_FUEL);
        let raw = match ex {
            Ok(v) => v,
            Err(Failure::Error(_)) => {
                return Err(SpecFailure::Invalid("Cannot expand macros".to_owned()));
            },
            Err(Failure::Halt(h)) => {
                return Err(SpecFailure::Halt(h));
            },
        };
        let ghost m = *self;
        let t = trim_chars(&raw);
        let ts = string_of(&t);
        if t.len() == 0 || t[0] == '#' || is_dnl(ts.as_str()) {
            assert(expanded_line_rel(m, *self, trim(raw@), Ok(())));
            return Ok(());
        }
        let r2 = self._handle_section(ts.as_str());
        let ghost m2 = *self;
        let ghost r2g = r2;
        let r = match r2 {
            Err(e) => Err(e),
            Ok(true) => Ok(()),
            Ok(false) => {
                let in_preamble = match &self.state.section {
                    RPMSection::Global => true,
                    RPMSection::Package(_) => true,
                    _ => false,
                };
                if in_preamble {
                    let r3 = self.parse_requires(ts.as_str());
                    let ghost m3 = *self;
                    let ghost r3g = r3;
                    let r = match r3 {
                        Err(e) => Err(e),
                        Ok(true) => Ok(()),
                        Ok(false) => self._handle_body_line(ts.as_str()),
                    };
                    assert(requires_rel(m2, m3, t@, r3g));
                    r
                } else {
                    self._handle_body_line(ts.as_str())
                }
            },
        };
        assert(section_rel(m, m2, t@, r2g));
        assert(expanded_line_rel(m, *self, trim(raw@), r));
        assert(m.engine() == expand(old(self).engine(), line@, 0, seq![], MAX_DEPTH as nat, MAX_FUEL as nat).2);
        r
    }

    /// Parses the lines of a spec file (see [`parse_from`]); lines that
    /// do not end before the end of the text end it.
    pub fn parse_lines(&mut self, text: &str) -> (r: Result<(), SpecFailure>)
        requires
            old(self).wf(),
        ensures
            parse_from(*old(self), *final(self), text@, 0, r),
            final(self).wf(),
    {
        let chars = chars_of(text);
        let mut pos: usize = 0;
        while pos < chars.len()
            invariant
                pos <= chars.len(),
                chars@ == text@,
                self.wf(),
                forall|n: SpecParser, r: Result<(), SpecFailure>| #[trigger] parse_from(*self, n, text@, pos as int, r)
                    ==> parse_from(*old(self), n, text@, 0, r),
            decreases chars.len() - pos,
        {
            let (l, p) = read_line_exec(&chars, pos);
            match l {
                None => {
                    assert(parse_from(*self, *self, text@, pos as int, Ok(())));
                    return Ok(());
                },
                Some(line) => {
                    assert(read_line(text@, pos as int, seq![], seq![]) == (Some(line@), p as int));
                    assert(pos < p <= chars.len());
                    let ghost before = *self;
                    let r1 = self.parse_line(&line);
                    let ghost r1g = r1;
                    match r1 {
                        Err(e) => {
                            assert(line_rel(before, *self, line@, r1g));
                            assert(parse_step(before, *self, text@, line@, p as int, Err(e)));
                            assert(parse_from(before, *self, text@, pos as int, Err(e)));
                            return Err(e);
                        },
                        Ok(()) => {
                            assert forall|n: SpecParser, r: Result<(), SpecFailure>| #[trigger] parse_from(*self, n, text@, p as int, r)
                                implies parse_from(*old(self), n, text@, 0, r) by {
                                assert(line_rel(before, *self, line@, r1g));
                                assert(parse_step(before, n, text@, line@, p as int, r));
                                assert(parse_from(before, n, text@, pos as int, r));
                            }
                            pos = p;
                        },
                    }
                },
            }
        }
        assert(parse_from(*self, *self, text@, pos as int, Ok(())));
        Ok(())
    }
}


/// A `%files` section after it is parsed: the listed files, or as it was
/// when a line does not read.
pub open spec fn files_parsed(a: RPMFiles, b: RPMFiles) -> bool {
    &&& b.incl == a.incl
    &&& b.raw == a.raw
    &&& match listed_files(a.raw@) {
        Some(fs) => files_view(b.files) == fs,
        None => b.files == a.files,
    }
}

/// Every line of the `%files` section reads.
pub open spec fn files_read(a: RPMFiles) -> bool {
    listed_files(a.raw@) is Some
}

/// The `%files` sections of the first `i` subpackages read.
pub open spec fn pkgs_read(pkgs: Seq<(String, RPMSpecPkg)>, i: int) -> bool {
    forall|j: int| 0 <= j < i ==> files_read(#[trigger] pkgs[j].1.files)
}

/// What happens once the lines are read: collected errors fail the parse
/// (and are cleared); otherwise the changelog is parsed (which may fail),
/// then the `%files` sections of the main package and of every subpackage
/// in turn, up to the first that does not read, which fails the parse.
pub open spec fn finish_rel(m: SpecParser, n: SpecParser, r1: Result<(), SpecFailure>, r: Result<(), SpecFailure>) -> bool {
    if r1 is Err {
        r == r1 && n == m
    } else if m.state.errors@.len() > 0 {
        &&& r is Err
        &&& n.state.errors@.len() == 0
        &&& n.rpm == m.rpm && n.macros == m.macros && n.shell == m.shell && n.files == m.files
        &&& n.count_line == m.count_line && n.state.arch == m.state.arch && n.state.section == m.state.section
        &&& n.state.cond == m.state.cond
    } else {
        match changelog_entries(changelog_caps(m.rpm.changelog.raw@)) {
            None => r is Err && n == m,
            Some(es) => {
                let mp = m.rpm.packages@;
                &&& n.macros == m.macros && n.shell == m.shell && n.files == m.files && n.count_line == m.count_line
                &&& n.state == m.state
                &&& n.rpm == (RPMSpec { changelog: n.rpm.changelog, files: n.rpm.files, packages: n.rpm.packages, ..m.rpm })
                &&& n.rpm.changelog.raw == m.rpm.changelog.raw
                &&& n.rpm.changelog.changelogs@.map_values(|c: Changelog| changelog_view(c)) == es
                &&& files_parsed(m.rpm.files, n.rpm.files)
                &&& n.rpm.packages@.len() == mp.len()
                &&& forall|i: int| 0 <= i < mp.len() ==> {
                    &&& (#[trigger] n.rpm.packages@[i]).0 == mp[i].0
                    &&& n.rpm.packages@[i].1 == (RPMSpecPkg { files: n.rpm.packages@[i].1.files, ..mp[i].1 })
                    &&& if files_read(m.rpm.files) && pkgs_read(mp, i) {
                        files_parsed(mp[i].1.files, n.rpm.packages@[i].1.files)
                    } else {
                        n.rpm.packages@[i].1.files == mp[i].1.files
                    }
                }
                &&& (r is Ok <==> files_read(m.rpm.files) && pkgs_read(mp, mp.len() as int))
            },
        }
    }
}

impl SpecParser {
    /// Parses a spec file: its lines (see [`parse_from`]), then the
    /// changelog and the file lists (see [`finish_rel`]).
    pub fn parse(&mut self, text: &str) -> (r: Result<(), SpecFailure>)
        requires
            old(self).wf(),
        ensures
            exists|m: SpecParser, r1: Result<(), SpecFailure>| {
                &&& #[trigger] parse_from(*old(self), m, text@, 0, r1)
                &&& finish_rel(m, *final(self), r1, r)
            },
    {
        let r1 = self.parse_lines(text);
        let ghost m = *self;
        let ghost r1g = r1;
        let r = self.finish(r1);
        assert(parse_from(*old(self), m, text@, 0, r1g));
        r
    }

    fn finish(&mut self, r1: Result<(), SpecFailure>) -> (r: Result<(), SpecFailure>)
        ensures
            finish_rel(*old(self), *final(self), r1, r),
    {
        match r1 {
            Err(e) => {
                return Err(e);
            },
            Ok(()) => {},
        }
        if self.state.errors.len() > 0 {
            self.state.errors = Vec::new();
            return Err(SpecFailure::Invalid("Cannot parse spec file".to_owned()));
        }
        match self.rpm.changelog.parse() {
            Err(m) => {
                return Err(SpecFailure::Invalid(m));
            },
            Ok(()) => {},
        }
        match self.rpm.files.parse() {
            Err(m) => {
                return Err(SpecFailure::Invalid(m));
            },
            Ok(()) => {},
        }
        let n = self.rpm.packages.len();
        let ghost mp = old(self).rpm.packages@;
        let mut i: usize = 0;
        while i < n
            invariant
                i <= n,
                r1 is Ok,
                old(self).state.errors@.len() == 0,
                n == self.rpm.packages@.len(),
                n == old(self).rpm.packages@.len(),
                mp == old(self).rpm.packages@,
                self.macros == old(self).macros && self.shell == old(self).shell && self.files == old(self).files,
                self.count_line == old(self).count_line,
                self.state == old(self).state,
                self.rpm == (RPMSpec { changelog: self.rpm.changelog, files: self.rpm.files, packages: self.rpm.packages, ..old(self).rpm }),
                self.rpm.changelog.raw == old(self).rpm.changelog.raw,
                changelog_entries(changelog_caps(old(self).rpm.changelog.raw@)) == Some(self.rpm.changelog.changelogs@.map_values(|c: Changelog| changelog_view(c))),
                files_parsed(old(self).rpm.files, self.rpm.files),
                files_read(old(self).rpm.files),
                pkgs_read(mp, i as int),
                forall|j: int| 0 <= j < n ==> (#[trigger] self.rpm.packages@[j]).0 == mp[j].0,
                forall|j: int| 0 <= j < i ==> {
                    &&& (#[trigger] self.rpm.packages@[j]).1 == (RPMSpecPkg { files: self.rpm.packages@[j].1.files, ..mp[j].1 })
                    &&& files_parsed(mp[j].1.files, self.rpm.packages@[j].1.files)
                },
                forall|j: int| i <= j < n ==> (#[trigger] self.rpm.packages@[j]) == mp[j],
            decreases n - i,
        {
            let mut slot = (String::new(), RPMSpecPkg::new());
            self.rpm.packages.set_and_swap(i, &mut slot);
            let res = slot.1.files.parse();
            self.rpm.packages.set_and_swap(i, &mut slot);
            match res {
                Err(m) => {
                    assert(!files_read(mp[i as int].1.files));
                    assert forall|j: int| i < j < n implies !pkgs_read(mp, j) by {
                        assert(!files_read(mp[i as int].1.files));
                    }
                    return Err(SpecFailure::Invalid(m));
                },
                Ok(()) => {},
            }
            assert(pkgs_read(mp, i + 1));
            i += 1;
        }
        Ok(())
    }
}

} // verus!
