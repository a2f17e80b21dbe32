//! Starting a project manifest: what each file found in the project's
//! directory adds to it.
use crate::build::plan::{extension_of, path_extension};
use crate::text::{chars_eq, chars_of, opt_view};
use vstd::prelude::*;

verus! {

/// What `Path::file_stem` gives for a path.
pub uninterp spec fn path_file_stem(path: Seq<char>) -> Option<Seq<char>>;

/// `Path::file_stem`: the last component without its extension. A path with
/// an extension has a last component, and so a stem.
#[verifier::external_body]
fn file_stem_of(path: &str) -> (r: Option<String>)
    ensures
        opt_view(r) == path_file_stem(path@),
        path_extension(path@) is Some ==> r is Some,
{
    match std::path::Path::new(path).file_stem() {
        Some(s) => Some(s.to_string_lossy().into_owned()),
        None => None,
    }
}

/// What `Path::file_name` gives for a path.
pub uninterp spec fn path_file_name(path: Seq<char>) -> Option<Seq<char>>;

/// `Path::file_name`: the last component, unless the path ends in `..`.
#[verifier::external_body]
fn file_name_of(path: &str) -> (r: Option<String>)
    ensures
        opt_view(r) == path_file_name(path@),
{
    match std::path::Path::new(path).file_name() {
        Some(s) => Some(s.to_string_lossy().into_owned()),
        None => None,
    }
}

/// What a file adds to a new manifest.
#[derive(Debug, Clone, PartialEq, Eq)]
pub enum InitEntry {
    /// A spec file: a project of this name (the file's stem) that builds it
    Spec(String),
    /// A Dockerfile: the `docker` project that builds it
    Dockerfile,
    /// Nothing
    Other,
}

/// What the file at `path` adds: a spec file (extension `spec`) a project
/// named by its stem, a Dockerfile (extension `dockerfile`, or named
/// `Dockerfile`) the `docker` project, anything else nothing.
pub open spec fn init_entry_of(path: Seq<char>) -> Option<Option<Seq<char>>> {
    if path_extension(path) == Some("spec"@) {
        Some(path_file_stem(path))
    } else if path_extension(path) == Some("dockerfile"@) || path_file_name(path) == Some("Dockerfile"@) {
        Some(None)
    } else {
        None
    }
}

fn is_text(s: &Option<String>, lit: &str) -> (r: bool)
    ensures
        r == (opt_view(*s) == Some(lit@)),
{
    match s {
        Some(v) => chars_eq(&chars_of(v.as_str()), &chars_of(lit)),
        None => false,
    }
}

/// What the file at `path` adds to a new manifest.
pub fn init_entry(path: &str) -> (r: InitEntry)
    ensures
        match r {
            InitEntry::Spec(name) => init_entry_of(path@) == Some(Some(name@)),
            InitEntry::Dockerfile => init_entry_of(path@) == Some(None::<Seq<char>>),
            InitEntry::Other => init_entry_of(path@) is None,
        },
{
    let ext = extension_of(path);
    if is_text(&ext, "spec") {
        match file_stem_of(path) {
            Some(stem) => InitEntry::Spec(stem),
            None => InitEntry::Other,
        }
    } else if is_text(&ext, "dockerfile") || is_text(&file_name_of(path), "Dockerfile") {
        InitEntry::Dockerfile
    } else {
        InitEntry::Other
    }
}

} // verus!
