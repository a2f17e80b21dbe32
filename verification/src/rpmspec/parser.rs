//! The spec file parser: its state and the line-by-line processing.
use crate::rpmspec::expander::Halt;
use crate::rpmspec::macrospec::Engine;
use crate::rpmspec::model::RPMSpec;
use crate::rpmspec::table::{MacroTable, Replies};
use crate::text::{append_chars, chars_of, decimal, format_decimal_u64, string_of};
use vstd::prelude::*;

verus! {

/// Represents different sections in an RPM spec file.
#[derive(Debug)]
pub enum RPMSection {
    /// The global preamble section.
    Global,
    /// A subpackage (`%package ...`)
    Package(String),
    /// Description (`%description [...]`)
    Description(String),
    /// %prep
    Prep,
    /// %build
    Build,
    /// %install
    Install,
    /// %files [...] [-f ...]
    Files(String, Option<String>),
    /// %changelog
    Changelog,
}

/// What a section holds.
pub enum SectionView {
    Global,
    Package(Seq<char>),
    Description(Seq<char>),
    Prep,
    Build,
    Install,
    Files(Seq<char>, Option<Seq<char>>),
    Changelog,
}

pub open spec fn section_view(s: RPMSection) -> SectionView {
    match s {
        RPMSection::Global => SectionView::Global,
        RPMSection::Package(p) => SectionView::Package(p@),
        RPMSection::Description(p) => SectionView::Description(p@),
        RPMSection::Prep => SectionView::Prep,
        RPMSection::Build => SectionView::Build,
        RPMSection::Install => SectionView::Install,
        RPMSection::Files(p, f) => SectionView::Files(p@, crate::text::opt_view(f)),
        RPMSection::Changelog => SectionView::Changelog,
    }
}

/// Errors collected while parsing, with the line count where they apply.
#[derive(Debug)]
pub enum ParserError {
    /// A preamble is required but it is not found.
    NoPreamble(String),
    /// The preamble specified is invalid.
    UnknownPreamble(u64, String),
    /// A preamble that cannot be specified more than once was found duplicated.
    Duplicate(u64, String),
    /// A modifier (such as `pre` in `Requires(pre):`) is found to be invalid.
    UnknownModifier(u64, String),
    /// A macro was not found.
    UnknownMacro(u64, String),
    /// Some sort of syntax error.
    Others(String),
}

/// Why parsing a line failed.
#[derive(Debug)]
pub enum SpecFailure {
    /// The line is malformed; the message says how.
    Invalid(String),
    /// Macro expansion stopped; see [`Halt`].
    Halt(Halt),
}

/// What an error holds.
pub enum ErrorView {
    NoPreamble(Seq<char>),
    UnknownPreamble(u64, Seq<char>),
    Duplicate(u64, Seq<char>),
    UnknownModifier(u64, Seq<char>),
    UnknownMacro(u64, Seq<char>),
    Others(Seq<char>),
}

pub open spec fn error_view(e: ParserError) -> ErrorView {
    match e {
        ParserError::NoPreamble(s) => ErrorView::NoPreamble(s@),
        ParserError::UnknownPreamble(l, s) => ErrorView::UnknownPreamble(l, s@),
        ParserError::Duplicate(l, s) => ErrorView::Duplicate(l, s@),
        ParserError::UnknownModifier(l, s) => ErrorView::UnknownModifier(l, s@),
        ParserError::UnknownMacro(l, s) => ErrorView::UnknownMacro(l, s@),
        ParserError::Others(s) => ErrorView::Others(s@),
    }
}

pub open spec fn errors_view(v: Vec<ParserError>) -> Seq<ErrorView> {
    v@.map_values(|e: ParserError| error_view(e))
}

/// How an error is shown: `! `, the line where it applies (if it has one),
/// what went wrong and the name concerned.
pub open spec fn error_text(e: ErrorView) -> Seq<char> {
    match e {
        ErrorView::NoPreamble(n) => "! Preamble not found for "@ + n,
        ErrorView::UnknownPreamble(l, n) => "! "@ + decimal(l as nat) + ": Unknown Preamble for "@ + n,
        ErrorView::Duplicate(l, n) => "! "@ + decimal(l as nat) + ": Duplicate Preamble for "@ + n,
        ErrorView::UnknownModifier(l, n) => "! "@ + decimal(l as nat) + ": Unknown Modifier for "@ + n,
        ErrorView::UnknownMacro(l, n) => "! "@ + decimal(l as nat) + ": Unknown Macro for "@ + n,
        ErrorView::Others(m) => "! "@ + m,
    }
}

/// What kind of error it is, in a few words.
pub open spec fn error_kind_text(e: ErrorView) -> Seq<char> {
    match e {
        ErrorView::NoPreamble(_) => "Preamble required but not found"@,
        ErrorView::UnknownPreamble(_, _) => "Preamble not supported"@,
        ErrorView::Duplicate(_, _) => "Preamble unexpectedly duplicated"@,
        ErrorView::UnknownModifier(_, _) => "Modifier not supported"@,
        ErrorView::UnknownMacro(_, _) => "Macro not found"@,
        ErrorView::Others(_) => "Parsing Error"@,
    }
}

fn line_error(line: u64, what: &str, name: &String) -> (r: String)
    ensures
        r@ == "! "@ + decimal(line as nat) + what@ + name@,
{
    let mut v = chars_of("! ");
    append_chars(&mut v, &format_decimal_u64(line));
    append_chars(&mut v, &chars_of(what));
    append_chars(&mut v, &chars_of(name.as_str()));
    string_of(&v)
}

impl ParserError {
    /// How the error is shown.
    pub fn message(&self) -> (r: String)
        ensures
            r@ == error_text(error_view(*self)),
    {
        match self {
            ParserError::NoPreamble(n) => {
                let mut v = chars_of("! Preamble not found for ");
                append_chars(&mut v, &chars_of(n.as_str()));
                string_of(&v)
            },
            ParserError::UnknownPreamble(l, n) => line_error(*l, ": Unknown Preamble for ", n),
            ParserError::Duplicate(l, n) => line_error(*l, ": Duplicate Preamble for ", n),
            ParserError::UnknownModifier(l, n) => line_error(*l, ": Unknown Modifier for ", n),
            ParserError::UnknownMacro(l, n) => line_error(*l, ": Unknown Macro for ", n),
            ParserError::Others(m) => {
                let mut v = chars_of("! ");
                append_chars(&mut v, &chars_of(m.as_str()));
                string_of(&v)
            },
        }
    }

    /// What kind of error it is, in a few words.
    pub fn description(&self) -> (r: String)
        ensures
            r@ == error_kind_text(error_view(*self)),
    {
        match self {
            ParserError::NoPreamble(_) => "Preamble required but not found".to_owned(),
            ParserError::UnknownPreamble(_, _) => "Preamble not supported".to_owned(),
            ParserError::Duplicate(_, _) => "Preamble unexpectedly duplicated".to_owned(),
            ParserError::UnknownModifier(_, _) => "Modifier not supported".to_owned(),
            ParserError::UnknownMacro(_, _) => "Macro not found".to_owned(),
            ParserError::Others(_) => "Parsing Error".to_owned(),
        }
    }
}

/// What the parser keeps between lines besides the spec and the macros.
#[derive(Debug)]
pub struct LineState {
    /// The architecture of the system (`uname -m`), which `%ifarch` tests.
    pub arch: String,
    /// Errors collected so far
    pub errors: Vec<ParserError>,
    /// The current section
    pub section: RPMSection,
    /// The open conditions: whether the current branch holds, and whether
    /// one of its branches has held
    pub cond: Vec<(bool, bool)>,
}

/// An RPM spec parser.
pub struct SpecParser {
    /// The parsed RPM package
    pub rpm: RPMSpec,
    /// Macros present in the spec file union the system macros
    pub macros: MacroTable,
    /// Recorded outputs of the shell commands of `%(...)`
    pub shell: Replies,
    /// Recorded contents of files for `%load`
    pub files: Replies,
    /// Newlines seen while expanding macros
    pub count_line: u64,
    /// Section, conditions and collected errors
    pub state: LineState,
}

impl SpecParser {
    /// A parser with no macros, no recorded replies and nothing parsed.
    pub fn new() -> (p: SpecParser)
        ensures
            p.macros@ == Map::<Seq<char>, Seq<char>>::empty(),
            p.shell.ok@ == Map::<Seq<char>, Seq<char>>::empty(),
            p.shell.failed@ == Map::<Seq<char>, Seq<char>>::empty(),
            p.files.ok@ == Map::<Seq<char>, Seq<char>>::empty(),
            p.files.failed@ == Map::<Seq<char>, Seq<char>>::empty(),
            p.count_line == 0,
            p.state.section is Global,
            p.state.cond@.len() == 0,
            p.state.errors@.len() == 0,
            p.state.arch@.len() == 0,
            crate::rpmspec::model::fresh_spec(p.rpm),
    {
        SpecParser {
            rpm: RPMSpec::new(),
            macros: MacroTable::new(),
            shell: Replies::new(),
            files: Replies::new(),
            count_line: 0,
            state: LineState { arch: String::new(), errors: Vec::new(), section: RPMSection::Global, cond: Vec::new() },
        }
    }

    /// The subpackage of the current section exists (the parser keeps this).
    pub open spec fn wf(&self) -> bool {
        match self.state.section {
            RPMSection::Package(p) => crate::rpmspec::model::pkg_names(self.rpm.packages).contains(p@),
            _ => true,
        }
    }

    /// Records an error.
    pub fn push_error(&mut self, e: ParserError)
        ensures
            errors_view(final(self).state.errors) == errors_view(old(self).state.errors).push(error_view(e)),
            final(self).rpm == old(self).rpm,
            final(self).macros == old(self).macros,
            final(self).shell == old(self).shell,
            final(self).files == old(self).files,
            final(self).count_line == old(self).count_line,
            final(self).state.arch == old(self).state.arch,
            final(self).state.section == old(self).state.section,
            final(self).state.cond == old(self).state.cond,
    {
        let ghost before = errors_view(self.state.errors);
        let ghost ev = error_view(e);
        self.state.errors.push(e);
        assert(errors_view(self.state.errors) =~= before.push(ev));
    }

    /// Adds the definitions of a macro file, given its text: each match of
    /// the macro-file pattern (a line `%name body`, the body continued over
    /// lines ending in a backslash) defines `name`, unless a macro is
    /// already named as written; a name ending in `()` is parametric and
    /// keeps its body with a space after it, any other body is trimmed.
    pub fn load_macro_from_file(&mut self, contents: &str)
        ensures
            final(self).macros@ == crate::rpmspec::macrospec::file_defs(old(self).macros@, crate::rpmspec::patterns::macro_file_caps(contents@)),
            final(self).rpm == old(self).rpm,
            final(self).shell == old(self).shell,
            final(self).files == old(self).files,
            final(self).count_line == old(self).count_line,
            final(self).state == old(self).state,
    {
        crate::rpmspec::words::load_file_defs(&mut self.macros, contents);
    }

    /// The state that macro expansion reads and changes.
    pub open spec fn engine(&self) -> Engine {
        Engine {
            macros: self.macros@,
            lines: self.count_line,
            shell_ok: self.shell.ok@,
            shell_failed: self.shell.failed@,
            files_ok: self.files.ok@,
            files_failed: self.files.failed@,
        }
    }

    /// Everything but the macro table and the line count is as in `other`.
    pub open spec fn same_frame(&self, other: &SpecParser) -> bool {
        &&& self.rpm == other.rpm
        &&& self.shell == other.shell
        &&& self.files == other.files
        &&& self.state == other.state
    }
}

} // verus!
