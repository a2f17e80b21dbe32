//! The lines of a section's body: preambles, descriptions, scripts, file
//! lists and changelogs.
use crate::rpmspec::model::{pkg_names, RPMSpec, RPMSpecPkg};
use crate::rpmspec::parser::{
    error_view, errors_view, section_view, ErrorView, ParserError, RPMSection, SectionView, SpecFailure, SpecParser,
};
use crate::rpmspec::patterns::{digit_suffix, digit_suffix_match, preamble_captures, preamble_parts};
use crate::rpmspec::preamble::{
    find_pkg, find_pkg_exec, is_lit, is_unimplemented_exec, is_unimplemented_preamble, keeps_frame, parse_i32,
    parse_i32_exec, preamble_rel,
};
use crate::rpmspec::query::{parse_u32, parse_u32_exec};
use crate::text::{append_chars, chars_eq, chars_of, decimal, format_decimal_u64, slice_chars, string_of};
use vstd::prelude::*;

verus! {

/// `line` and a newline appended to `s`.
pub open spec fn with_line(s: Seq<char>, line: Seq<char>) -> Seq<char> {
    s + line + seq!['\n']
}

fn push_line(s: &mut String, line: &str)
    ensures
        final(s)@ == with_line(old(s)@, line@),
{
    let mut v = chars_of(s.as_str());
    append_chars(&mut v, &chars_of(line));
    v.push('\n');
    *s = string_of(&v);
}

/// The message for a line in a preamble section that is not a preamble.
pub open spec fn non_preamble_msg(count: u64, line: Seq<char>) -> Seq<char> {
    decimal(count as nat) + ": Non-empty non-preamble line: "@ + line
}

/// The spec with subpackage `k` changed as `f` says, and nothing else.
pub open spec fn pkg_changed(a: RPMSpec, b: RPMSpec, k: int, f: spec_fn(RPMSpecPkg, RPMSpecPkg) -> bool) -> bool {
    &&& b == (RPMSpec { packages: b.packages, ..a })
    &&& b.packages@.len() == a.packages@.len()
    &&& 0 <= k < a.packages@.len()
    &&& forall|j: int| 0 <= j < a.packages@.len() && j != k ==> b.packages@[j] == a.packages@[j]
    &&& b.packages@[k].0 == a.packages@[k].0
    &&& f(a.packages@[k].1, b.packages@[k].1)
}

/// The index of the subpackage named `p`, if there is one.
pub open spec fn pkg_index(rpm: RPMSpec, p: Seq<char>) -> Option<int> {
    find_pkg(pkg_names(rpm.packages), p, 0)
}

/// What a `%files` line does to the list files (`-f`): the first one given
/// for the main package, or for a subpackage, whose list file is not set
/// yet, is taken (the section keeps an empty one).
pub open spec fn files_incl_rel(o: SpecParser, n1: SpecParser, p: Seq<char>, f: Option<Seq<char>>, ok: bool) -> bool {
    match f {
        None => n1 == o && ok,
        Some(fv) => if p.len() == 0 {
            if o.rpm.files.incl@.len() == 0 {
                &&& ok
                &&& n1.rpm == (RPMSpec { files: crate::rpmspec::model::RPMFiles { incl: n1.rpm.files.incl, ..o.rpm.files }, ..o.rpm })
                &&& n1.rpm.files.incl@ == fv
                &&& section_view(n1.state.section) == SectionView::Files(p, Some(seq![]))
                &&& keeps_frame_but_section(o, n1)
            } else {
                n1 == o && ok
            }
        } else {
            match pkg_index(o.rpm, p) {
                None => !ok && n1 == o,
                Some(k) => if o.rpm.packages@[k].1.files.incl@.len() == 0 {
                    &&& ok
                    &&& pkg_changed(o.rpm, n1.rpm, k, |a: RPMSpecPkg, b: RPMSpecPkg|
                        b == (RPMSpecPkg { files: crate::rpmspec::model::RPMFiles { incl: b.files.incl, ..a.files }, ..a })
                        && b.files.incl@ == fv)
                    &&& section_view(n1.state.section) == SectionView::Files(p, Some(seq![]))
                    &&& keeps_frame_but_section(o, n1)
                } else {
                    n1 == o && ok
                },
            }
        },
    }
}

/// Nothing but the spec and the section changed.
pub open spec fn keeps_frame_but_section(o: SpecParser, n: SpecParser) -> bool {
    &&& n.macros == o.macros
    &&& n.shell == o.shell
    &&& n.files == o.files
    &&& n.count_line == o.count_line
    &&& n.state.arch == o.state.arch
    &&& n.state.cond == o.state.cond
    &&& n.state.errors == o.state.errors
}

/// What a line in the body of the current section does: in a preamble
/// section (global or a subpackage's) it is a preamble, numbered or not;
/// elsewhere it is added, with a newline, to the text of the section.
pub open spec fn body_rel(o: SpecParser, n: SpecParser, line: Seq<char>, r: Result<(), SpecFailure>) -> bool {
    match section_view(o.state.section) {
        SectionView::Global | SectionView::Package(_) => match preamble_parts(line) {
            None => {
                &&& r is Ok
                &&& keeps_frame(o, n)
                &&& n.rpm == o.rpm
                &&& errors_view(n.state.errors) == errors_view(o.state.errors).push(ErrorView::Others(non_preamble_msg(o.count_line, line)))
            },
            Some((name, value)) => match digit_suffix(name) {
                None => if is_unimplemented_preamble(name) || (name == "Epoch"@ && parse_i32(value) is None) {
                    r is Err && n == o
                } else {
                    exists|v: String| v@ == value && #[trigger] preamble_rel(o, n, name, v, r)
                },
                Some(d) => match parse_u32(d) {
                    None => r is Err && n == o,
                    Some(digit) => {
                        let base = name.take(name.len() - d.len());
                        &&& keeps_frame(o, n)
                        &&& n.state.errors == o.state.errors
                        &&& if base == "Source"@ {
                            r is Ok && n.rpm == (RPMSpec { sources: n.rpm.sources, ..o.rpm })
                                && n.rpm.sources.view() == o.rpm.sources.view().insert(digit, value)
                        } else if base == "Patch"@ {
                            r is Ok && n.rpm == (RPMSpec { patches: n.rpm.patches, ..o.rpm })
                                && n.rpm.patches.view() == o.rpm.patches.view().insert(digit, value)
                        } else {
                            r is Err && n.rpm == o.rpm
                        }
                    },
                },
            },
        },
        SectionView::Description(p) => if p.len() == 0 {
            &&& r is Ok && keeps_frame(o, n) && n.state.errors == o.state.errors
            &&& n.rpm == (RPMSpec { description: n.rpm.description, ..o.rpm })
            &&& n.rpm.description@ == with_line(o.rpm.description@, line)
        } else {
            match pkg_index(o.rpm, p) {
                None => r is Err && n == o,
                Some(k) => {
                    &&& r is Ok && keeps_frame(o, n) && n.state.errors == o.state.errors
                    &&& pkg_changed(o.rpm, n.rpm, k, |a: RPMSpecPkg, b: RPMSpecPkg|
                        b == (RPMSpecPkg { description: b.description, ..a }) && b.description@ == with_line(a.description@, line))
                },
            }
        },
        SectionView::Prep => {
            &&& r is Ok && keeps_frame(o, n) && n.state.errors == o.state.errors
            &&& n.rpm == (RPMSpec { prep: n.rpm.prep, ..o.rpm }) && n.rpm.prep@ == with_line(o.rpm.prep@, line)
        },
        SectionView::Build => {
            &&& r is Ok && keeps_frame(o, n) && n.state.errors == o.state.errors
            &&& n.rpm == (RPMSpec { build: n.rpm.build, ..o.rpm }) && n.rpm.build@ == with_line(o.rpm.build@, line)
        },
        SectionView::Install => {
            &&& r is Ok && keeps_frame(o, n) && n.state.errors == o.state.errors
            &&& n.rpm == (RPMSpec { install: n.rpm.install, ..o.rpm }) && n.rpm.install@ == with_line(o.rpm.install@, line)
        },
        SectionView::Changelog => {
            &&& r is Ok && keeps_frame(o, n) && n.state.errors == o.state.errors
            &&& n.rpm == (RPMSpec { changelog: crate::rpmspec::model::Changelogs { raw: n.rpm.changelog.raw, ..o.rpm.changelog }, ..o.rpm })
            &&& n.rpm.changelog.raw@ == with_line(o.rpm.changelog.raw@, line)
        },
        SectionView::Files(p, f) => exists|n1: SpecParser, ok1: bool| {
            &&& #[trigger] files_incl_rel(o, n1, p, f, ok1)
            &&& if !ok1 {
                r is Err && n == o
            } else if p.len() == 0 {
                &&& r is Ok && keeps_frame(n1, n) && n.state.errors == n1.state.errors
                &&& n.rpm == (RPMSpec { files: crate::rpmspec::model::RPMFiles { raw: n.rpm.files.raw, ..n1.rpm.files }, ..n1.rpm })
                &&& n.rpm.files.raw@ == with_line(n1.rpm.files.raw@, line)
            } else {
                match pkg_index(n1.rpm, p) {
                    None => r is Err && n == o,
                    Some(k) => {
                        &&& r is Ok && keeps_frame(n1, n) && n.state.errors == n1.state.errors
                        &&& pkg_changed(n1.rpm, n.rpm, k, |a: RPMSpecPkg, b: RPMSpecPkg|
                            b == (RPMSpecPkg { files: crate::rpmspec::model::RPMFiles { raw: b.files.raw, ..a.files }, ..a })
                            && b.files.raw@ == with_line(a.files.raw@, line))
                    },
                }
            }
        },
    }
}


impl SpecParser {
    /// Handles a line of the current section's body.
    pub fn _handle_body_line(&mut self, line: &str) -> (r: Result<(), SpecFailure>)
        requires
            old(self).wf(),
        ensures
            body_rel(*old(self), *final(self), line@, r),
            final(self).wf(),
    {
        let (kind, p, f) = match &self.state.section {
            RPMSection::Global => (0u8, String::new(), None),
            RPMSection::Package(_) => (0u8, String::new(), None),
            RPMSection::Description(p) => (1u8, p.clone(), None),
            RPMSection::Prep => (2u8, String::new(), None),
            RPMSection::Build => (3u8, String::new(), None),
            RPMSection::Install => (4u8, String::new(), None),
            RPMSection::Changelog => (5u8, String::new(), None),
            RPMSection::Files(p, f) => (6u8, p.clone(), f.clone()),
        };
        if kind == 0 {
            self.body_preamble(line)
        } else if kind == 1 {
            self.body_description(p, line)
        } else if kind == 2 {
            push_line(&mut self.rpm.prep, line);
            Ok(())
        } else if kind == 3 {
            push_line(&mut self.rpm.build, line);
            Ok(())
        } else if kind == 4 {
            push_line(&mut self.rpm.install, line);
            Ok(())
        } else if kind == 5 {
            push_line(&mut self.rpm.changelog.raw, line);
            Ok(())
        } else {
            self.body_files(p, f, line)
        }
    }

    fn body_preamble(&mut self, line: &str) -> (r: Result<(), SpecFailure>)
        requires
            old(self).wf(),
            old(self).state.section is Global || old(self).state.section is Package,
        ensures
            body_rel(*old(self), *final(self), line@, r),
            final(self).wf(),
    {
        match preamble_captures(line) {
            None => {
                let mut m = format_decimal_u64(self.count_line);
                append_chars(&mut m, &chars_of(": Non-empty non-preamble line: "));
                append_chars(&mut m, &chars_of(line));
                let msg = string_of(&m);
                assert(msg@ == non_preamble_msg(self.count_line, line@));
                self.push_error(ParserError::Others(msg));
                Ok(())
            },
            Some((name, value)) => {
                let nm = chars_of(name.as_str());
                match digit_suffix_match(name.as_str()) {
                    None => {
                        if is_unimplemented_exec(&nm) || (is_lit(&nm, "Epoch") && parse_i32_exec(&chars_of(value.as_str())).is_none()) {
                            return Err(SpecFailure::Invalid("Preamble not supported".to_owned()));
                        }
                        let ghost vv = value;
                        let r = self.add_preamble(name.as_str(), value);
                        assert(preamble_rel(*old(self), *self, name@, vv, r));
                        r
                    },
                    Some(d) => {
                        let dc = chars_of(d.as_str());
                        match parse_u32_exec(&dc) {
                            None => Err(SpecFailure::Invalid("Cannot parse the number of a preamble".to_owned())),
                            Some(digit) => {
                                let base = slice_chars(&nm, 0, nm.len() - dc.len());
                                assert(base@ =~= name@.take(name@.len() - d@.len()));
                                self.add_list_preamble(string_of(&base).as_str(), digit, value.as_str())
                            },
                        }
                    },
                }
            },
        }
    }

    fn body_description(&mut self, p: String, line: &str) -> (r: Result<(), SpecFailure>)
        requires
            old(self).wf(),
            section_view(old(self).state.section) == SectionView::Description(p@),
        ensures
            body_rel(*old(self), *final(self), line@, r),
            final(self).wf(),
    {
        if chars_of(p.as_str()).len() == 0 {
            push_line(&mut self.rpm.description, line);
            return Ok(());
        }
        match find_pkg_exec(&self.rpm.packages, &p) {
            None => Err(SpecFailure::Invalid("No subpackage for %description".to_owned())),
            Some(k) => {
                let mut slot = (String::new(), RPMSpecPkg::new());
                self.rpm.packages.set_and_swap(k, &mut slot);
                push_line(&mut slot.1.description, line);
                self.rpm.packages.set_and_swap(k, &mut slot);
                proof {
                    assert(pkg_names(self.rpm.packages) =~= pkg_names(old(self).rpm.packages));
                }
                Ok(())
            },
        }
    }

    fn body_files(&mut self, p: String, f: Option<String>, line: &str) -> (r: Result<(), SpecFailure>)
        requires
            old(self).wf(),
            section_view(old(self).state.section) == SectionView::Files(p@, crate::text::opt_view(f)),
        ensures
            body_rel(*old(self), *final(self), line@, r),
            final(self).wf(),
    {
        let p_empty = chars_of(p.as_str()).len() == 0;
        let ghost o = *self;
        let mut ok1 = true;
        match f {
            None => {},
            Some(fv) => {
                if p_empty {
                    if chars_of(self.rpm.files.incl.as_str()).len() == 0 {
                        self.rpm.files.incl = fv;
                        self.state.section = RPMSection::Files(p.clone(), Some(String::new()));
                    }
                } else {
                    match find_pkg_exec(&self.rpm.packages, &p) {
                        None => {
                            ok1 = false;
                        },
                        Some(k) => {
                            if chars_of(self.rpm.packages[k].1.files.incl.as_str()).len() == 0 {
                                let mut slot = (String::new(), RPMSpecPkg::new());
                                self.rpm.packages.set_and_swap(k, &mut slot);
                                slot.1.files.incl = fv;
                                self.rpm.packages.set_and_swap(k, &mut slot);
                                self.state.section = RPMSection::Files(p.clone(), Some(String::new()));
                                proof {
                                    assert(pkg_names(self.rpm.packages) =~= pkg_names(old(self).rpm.packages));
                                }
                            }
                        },
                    }
                }
            },
        }
        let ghost n1 = *self;
        assert(files_incl_rel(o, n1, p@, crate::text::opt_view(f), ok1));
        if !ok1 {
            return Err(SpecFailure::Invalid("No subpackage for %files".to_owned()));
        }
        if p_empty {
            push_line(&mut self.rpm.files.raw, line);
            return Ok(());
        }
        match find_pkg_exec(&self.rpm.packages, &p) {
            None => Err(SpecFailure::Invalid("No subpackage for %files".to_owned())),
            Some(k) => {
                let mut slot = (String::new(), RPMSpecPkg::new());
                self.rpm.packages.set_and_swap(k, &mut slot);
                push_line(&mut slot.1.files.raw, line);
                self.rpm.packages.set_and_swap(k, &mut slot);
                proof {
                    assert(pkg_names(self.rpm.packages) =~= pkg_names(old(self).rpm.packages));
                }
                Ok(())
            },
        }
    }
}

} // verus!
