//! The summary of a spec file and its macros.
use crate::build::defs::Defs;
use vstd::prelude::*;

verus! {

/// The main fields of a spec file.
pub struct Spec {
    pub name: String,
    pub epoch: String,
    pub version: String,
    pub release: String,
    pub arch: String,
    pub summary: String,
    pub description: Option<String>,
    pub license: String,
    pub url: String,
    pub sources: Vec<String>,
    pub patches: Vec<String>,
    pub build_requires: Vec<String>,
    pub requires: Vec<String>,
    pub provides: Vec<String>,
    pub conflicts: Vec<String>,
    pub obsoletes: Vec<String>,
}

/// The body of a spec file: its macros and its statements, by name.
#[derive(Debug)]
pub struct Body {
    pub macros: Defs,
    pub statements: Defs,
}

/// An RPM macro: its name and its body.
pub struct Macro(pub String, pub String);

/// RPM Macro definition
pub struct MacroDef {}

/// Errors of the macro engine.
#[derive(Debug, Clone, Copy, PartialEq, Eq, Structural)]
pub enum MacroErr {
    /// Macros were nested too deeply.
    MacroDepthExceeded,
}

impl MacroErr {
    /// The message that describes the error.
    pub fn message(&self) -> (r: String)
        ensures
            r@ == "Too many levels of recursion in macro expansion. It is likely caused by recursive macro declaration."@,
    {
        match self {
            MacroErr::MacroDepthExceeded => "Too many levels of recursion in macro expansion. It is likely caused by recursive macro declaration.".to_owned(),
        }
    }
}

} // verus!
