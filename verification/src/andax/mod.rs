//! Helpers of the scripting layer of update scripts: the parts of a shell
//! command's result, the conversion of errors, the Mock command lines, and
//! the submodules for editing spec files, regular expressions, the `sh`
//! function, tracebacks and web lookups.
pub mod kokoro;
pub mod rpm;
pub mod shell;
pub mod traceback;
pub mod tsunagu;

use crate::build::args::push_arg;
use crate::text::strings_view;
use vstd::prelude::*;

verus! {

/// get the return code from the return value of `sh()`
pub fn sh_rc(o: (i32, String, String)) -> (r: i32)
    ensures
        r == o.0,
{
    o.0
}

/// get stdout from the return value of `sh()`
pub fn sh_stdout(o: (i32, String, String)) -> (r: String)
    ensures
        r@ == o.1@,
{
    o.1
}

/// get stderr from the return value of `sh()`
pub fn sh_stderr(o: (i32, String, String)) -> (r: String)
    ensures
        r@ == o.2@,
{
    o.2
}

/// Passes a value on and turns an error, given by its message, into the
/// error a script sees.
pub fn ehdl<A>(o: Result<A, String>) -> (r: Result<A, String>)
    ensures
        match o {
            Ok(a) => r == Ok::<A, String>(a),
            Err(e) => r is Err && r->Err_0@ == e@,
        },
{
    match o {
        Ok(a) => Ok(a),
        Err(e) => Err(e),
    }
}

/// The Mock command line that builds from `spec` in the mode `mode`: the
/// sources (none given is empty), the result directory, network access and
/// verbose output.
pub open spec fn mock_command(mode: Seq<char>, spec: Seq<char>, sources: Option<Seq<char>>, resultdir: Seq<char>) -> Seq<
    Seq<char>,
> {
    seq![
        "mock"@,
        mode,
        "--spec"@,
        spec,
        "--sources"@,
        match sources {
            Some(s) => s,
            None => seq![],
        },
        "--resultdir"@,
        resultdir,
        "--enable-network"@,
        "--verbose"@,
    ]
}

fn mock_command_exec(mode: &str, spec: &str, sources: Option<&str>, resultdir: &str) -> (r: Vec<String>)
    ensures
        strings_view(r) == mock_command(
            mode@,
            spec@,
            match sources {
                Some(s) => Some(s@),
                None => None,
            },
            resultdir@,
        ),
{
    let mut r: Vec<String> = Vec::new();
    push_arg(&mut r, "mock");
    push_arg(&mut r, mode);
    push_arg(&mut r, "--spec");
    push_arg(&mut r, spec);
    push_arg(&mut r, "--sources");
    let ghost src: Seq<char> = match sources {
        Some(s) => s@,
        None => seq![],
    };
    match sources {
        Some(s) => push_arg(&mut r, s),
        None => {
            proof {
                reveal_strlit("");
            }
            push_arg(&mut r, "");
            assert(""@ =~= src);
        },
    }
    assert(strings_view(r) =~= seq!["mock"@, mode@, "--spec"@, spec@, "--sources"@, src]);
    push_arg(&mut r, "--resultdir");
    push_arg(&mut r, resultdir);
    push_arg(&mut r, "--enable-network");
    push_arg(&mut r, "--verbose");
    assert(strings_view(r) =~= mock_command(
        mode@,
        spec@,
        match sources {
            Some(s) => Some(s@),
            None => None,
        },
        resultdir@,
    ));
    r
}

/// The Mock command line that builds a source RPM from `spec`, its results
/// going to `resultdir`.
pub fn cmd_srpm(spec: &str, sources: Option<&str>, resultdir: &str) -> (r: Vec<String>)
    ensures
        strings_view(r) == mock_command(
            "--buildsrpm"@,
            spec@,
            match sources {
                Some(s) => Some(s@),
                None => None,
            },
            resultdir@,
        ),
{
    mock_command_exec("--buildsrpm", spec, sources, resultdir)
}

/// The Mock command line that rebuilds from `spec`, its results going to
/// `resultdir`.
pub fn cmd_rpm(spec: &str, sources: Option<&str>, resultdir: &str) -> (r: Vec<String>)
    ensures
        strings_view(r) == mock_command(
            "--rebuild"@,
            spec@,
            match sources {
                Some(s) => Some(s@),
                None => None,
            },
            resultdir@,
        ),
{
    mock_command_exec("--rebuild", spec, sources, resultdir)
}

} // verus!
