//! The `sh` function of update scripts: what command its arguments ask for,
//! the answer when they are wrong, and the answer after the command ran.
use crate::text::{chars_eq, chars_of, strings_view};
use vstd::prelude::*;

verus! {

/// The command given to `sh`, as far as `sh` looks at it.
#[derive(Debug, Clone)]
pub enum CommandArg {
    /// A command line for the shell
    Line(String),
    /// A program and its arguments
    Argv(Vec<String>),
    /// Anything else, by the name of its type
    Other(String),
}

/// How an output stream of a command is connected.
#[derive(Debug, Clone, Copy, PartialEq, Eq, Structural)]
pub enum StdioMode {
    Inherit,
    Null,
    Piped,
}

/// A command to run: the program and its arguments, where its output and
/// errors go, and the working directory.
#[derive(Debug, Clone)]
pub struct ShellCommand {
    pub program: String,
    pub args: Vec<String>,
    pub stdout: StdioMode,
    pub stderr: StdioMode,
    pub cwd: Option<String>,
}

/// The answer of `sh` to wrong arguments: what kind of mistake, what was
/// expected and what was found.
#[derive(Debug, Clone)]
pub struct Fatal {
    pub kind: String,
    pub expect: String,
    pub found: String,
}

/// What a command holds.
pub struct CommandView {
    pub program: Seq<char>,
    pub args: Seq<Seq<char>>,
    pub stdout: StdioMode,
    pub stderr: StdioMode,
    pub cwd: Option<Seq<char>>,
}

pub open spec fn command_view(c: ShellCommand) -> CommandView {
    CommandView {
        program: c.program@,
        args: strings_view(c.args),
        stdout: c.stdout,
        stderr: c.stderr,
        cwd: crate::text::opt_view(c.cwd),
    }
}

/// What a fatal answer holds.
pub open spec fn fatal_view(f: Fatal) -> (Seq<char>, Seq<char>, Seq<char>) {
    (f.kind@, f.expect@, f.found@)
}

/// What the stream options accept.
pub open spec fn stdio_expect() -> Seq<char> {
    "\"inherit\" | \"null\" | \"piped\""@
}

/// The mode a stream option asks for: none asks to inherit; a text must be
/// `inherit`, `null` or `piped`; anything else (given by its type's name) is
/// a mistake.
pub open spec fn stdio_choice(o: Option<Result<Seq<char>, Seq<char>>>) -> Result<
    StdioMode,
    (Seq<char>, Seq<char>, Seq<char>),
> {
    match o {
        None => Ok(StdioMode::Inherit),
        Some(Err(t)) => Err(("bad_stdio_type"@, stdio_expect(), t)),
        Some(Ok(s)) => if s == "inherit"@ {
            Ok(StdioMode::Inherit)
        } else if s == "null"@ {
            Ok(StdioMode::Null)
        } else if s == "piped"@ {
            Ok(StdioMode::Piped)
        } else {
            Err(("bad_stdio_opt"@, stdio_expect(), s))
        },
    }
}

/// The view of an option as given: its text, or the name of its type.
pub open spec fn opt_arg_view(o: Option<Result<String, String>>) -> Option<Result<Seq<char>, Seq<char>>> {
    match o {
        None => None,
        Some(Ok(s)) => Some(Ok(s@)),
        Some(Err(t)) => Some(Err(t@)),
    }
}

fn fatal(kind: &str, expect: &str, found: String) -> (f: Fatal)
    ensures
        fatal_view(f) == (kind@, expect@, found@),
{
    Fatal { kind: kind.to_owned(), expect: expect.to_owned(), found }
}

/// The mode a stream option asks for.
pub fn stdio_mode(o: Option<Result<String, String>>) -> (r: Result<StdioMode, Fatal>)
    ensures
        match (r, stdio_choice(opt_arg_view(o))) {
            (Ok(a), Ok(b)) => a == b,
            (Err(a), Err(b)) => fatal_view(a) == b,
            _ => false,
        },
{
    proof {
        reveal_strlit("\"inherit\" | \"null\" | \"piped\"");
    }
    match o {
        None => Ok(StdioMode::Inherit),
        Some(Err(t)) => Err(fatal("bad_stdio_type", "\"inherit\" | \"null\" | \"piped\"", t)),
        Some(Ok(s)) => {
            let c = chars_of(s.as_str());
            if chars_eq(&c, &chars_of("inherit")) {
                Ok(StdioMode::Inherit)
            } else if chars_eq(&c, &chars_of("null")) {
                Ok(StdioMode::Null)
            } else if chars_eq(&c, &chars_of("piped")) {
                Ok(StdioMode::Piped)
            } else {
                Err(fatal("bad_stdio_opt", "\"inherit\" | \"null\" | \"piped\"", s))
            }
        },
    }
}

/// The program and arguments the command argument asks for: a line is run
/// by `sh -c`; a list is the program and its arguments and must not be
/// empty; anything else is a mistake.
pub open spec fn argv_choice(c: CommandArg) -> Result<(Seq<char>, Seq<Seq<char>>), (Seq<char>, Seq<char>, Seq<char>)> {
    match c {
        CommandArg::Line(s) => Ok(("sh"@, seq!["-c"@, s@])),
        CommandArg::Argv(v) => if v@.len() == 0 {
            Err(("empty_cmd_arr"@, "cmd.len() >= 1"@, "cmd.len() == 0"@))
        } else {
            Ok((v@[0]@, strings_view(v).drop_first()))
        },
        CommandArg::Other(t) => Err(("bad_param_type"@, "String | Vec<String>"@, t@)),
    }
}

/// What `sh` runs for its arguments, or its answer to wrong ones: the
/// command is looked at first, then the output option, the error option
/// and the working directory, which must be a text.
pub open spec fn shell_plan(
    c: CommandArg,
    stdout: Option<Result<Seq<char>, Seq<char>>>,
    stderr: Option<Result<Seq<char>, Seq<char>>>,
    cwd: Option<Result<Seq<char>, Seq<char>>>,
) -> Result<CommandView, (Seq<char>, Seq<char>, Seq<char>)> {
    match argv_choice(c) {
        Err(f) => Err(f),
        Ok((program, args)) => match stdio_choice(stdout) {
            Err(f) => Err(f),
            Ok(out) => match stdio_choice(stderr) {
                Err(f) => Err(f),
                Ok(err) => match cwd {
                    Some(Err(t)) => Err(("bad_cwd_type"@, "String"@, t)),
                    Some(Ok(d)) => Ok(CommandView { program, args, stdout: out, stderr: err, cwd: Some(d) }),
                    None => Ok(CommandView { program, args, stdout: out, stderr: err, cwd: None }),
                },
            },
        },
    }
}

/// What `sh` runs for its arguments, or its answer to wrong ones. Options
/// are given as their text, or the name of their type when they are not
/// texts.
pub fn plan_command(
    command: CommandArg,
    stdout: Option<Result<String, String>>,
    stderr: Option<Result<String, String>>,
    cwd: Option<Result<String, String>>,
) -> (r: Result<ShellCommand, Fatal>)
    ensures
        match (r, shell_plan(command, opt_arg_view(stdout), opt_arg_view(stderr), opt_arg_view(cwd))) {
            (Ok(a), Ok(b)) => command_view(a) == b,
            (Err(a), Err(b)) => fatal_view(a) == b,
            _ => false,
        },
{
    let ghost cmd = command;
    let (program, args) = match command {
        CommandArg::Line(s) => {
            let mut a: Vec<String> = Vec::new();
            a.push("-c".to_owned());
            a.push(s);
            ("sh".to_owned(), a)
        },
        CommandArg::Argv(v) => {
            if v.len() == 0 {
                return Err(fatal("empty_cmd_arr", "cmd.len() >= 1", "cmd.len() == 0".to_owned()));
            }
            let mut rest: Vec<String> = Vec::new();
            let mut i: usize = 1;
            while i < v.len()
                invariant
                    1 <= i <= v.len(),
                    strings_view(rest) == strings_view(v).subrange(1, i as int),
                decreases v.len() - i,
            {
                let ghost before = strings_view(rest);
                rest.push(v[i].clone());
                assert(strings_view(rest) =~= before.push(v@[i as int]@));
                assert(strings_view(v).subrange(1, i + 1) =~= strings_view(v).subrange(1, i as int).push(v@[i as int]@));
                i += 1;
            }
            assert(strings_view(v).subrange(1, v.len() as int) =~= strings_view(v).drop_first());
            (v[0].clone(), rest)
        },
        CommandArg::Other(t) => {
            return Err(fatal("bad_param_type", "String | Vec<String>", t));
        },
    };
    assert(argv_choice(cmd) == Ok::<(Seq<char>, Seq<Seq<char>>), (Seq<char>, Seq<char>, Seq<char>)>((program@, strings_view(args)))) by {
        match cmd {
            CommandArg::Line(s) => {
                assert(strings_view(args) =~= seq!["-c"@, s@]);
            },
            _ => {},
        }
    }
    let out = match stdio_mode(stdout) {
        Ok(m) => m,
        Err(f) => {
            return Err(f);
        },
    };
    let err = match stdio_mode(stderr) {
        Ok(m) => m,
        Err(f) => {
            return Err(f);
        },
    };
    match cwd {
        Some(Err(t)) => Err(fatal("bad_cwd_type", "String", t)),
        Some(Ok(d)) => Ok(ShellCommand { program, args, stdout: out, stderr: err, cwd: Some(d) }),
        None => Ok(ShellCommand { program, args, stdout: out, stderr: err, cwd: None }),
    }
}

/// The answer of `sh` after trying to run a command.
#[derive(Debug, Clone)]
pub enum ShellAnswer {
    /// It ran: its output, its errors (both read leniently as UTF-8) and its
    /// exit code, zero when it has none
    Success { stdout: String, stderr: String, rc: i64 },
    /// It could not be run, for this reason
    Failure { error: String },
}

/// The answer of `sh` after trying to run a command: `ran` holds the
/// command's output, errors and exit code (if it has one), or why it could
/// not be run.
pub fn shell_answer(ran: Result<(String, String, Option<i32>), String>) -> (r: ShellAnswer)
    ensures
        match ran {
            Ok((o, e, code)) => r matches ShellAnswer::Success { stdout, stderr, rc } && stdout@ == o@ && stderr@ == e@
                && rc == (match code {
                Some(c) => c as int,
                None => 0,
            }),
            Err(m) => r matches ShellAnswer::Failure { error } && error@ == m@,
        },
{
    match ran {
        Ok((o, e, code)) => {
            let rc: i64 = match code {
                Some(c) => c as i64,
                None => 0,
            };
            ShellAnswer::Success { stdout: o, stderr: e, rc }
        },
        Err(m) => ShellAnswer::Failure { error: m },
    }
}

} // verus!
