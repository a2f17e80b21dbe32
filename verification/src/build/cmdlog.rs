//! Logging the output of a build command: each line printed under the
//! command's name, and the `script` invocation that gives the command a
//! terminal.
use crate::build::args::push_arg;
use crate::text::{append_chars, chars_of, string_of, strings_view};
use vstd::prelude::*;

verus! {

/// What `Sh::quote_vec` gives for a text, as text.
pub uninterp spec fn sh_quoted(s: Seq<char>) -> Seq<char>;

/// `shell_quote::Sh::quote_vec`: the text quoted for `/bin/sh`; the empty
/// text quotes to `''`. Bytes from 0x80 up are copied as they are and quotes
/// go only before ASCII bytes, so the result of a text is a text.
#[verifier::external_body]
fn sh_quote(s: &str) -> (r: String)
    ensures
        r@ == sh_quoted(s@),
        s@.len() == 0 ==> r@ == "''"@,
{
    String::from_utf8(shell_quote::Sh::quote_vec(s)).unwrap()
}

/// The words joined by single spaces.
pub open spec fn join_spaced(ws: Seq<Seq<char>>) -> Seq<char>
    decreases ws.len(),
{
    if ws.len() == 0 {
        seq![]
    } else if ws.len() == 1 {
        ws[0]
    } else {
        join_spaced(ws.drop_last()) + seq![' '] + ws.last()
    }
}

/// Each argument quoted for the shell.
pub open spec fn quoted_all(args: Seq<Seq<char>>) -> Seq<Seq<char>> {
    Seq::new(args.len(), |i: int| sh_quoted(args[i]))
}

/// The arguments of `script` that run the command quietly with a terminal,
/// failing when it fails: the program, then its arguments quoted for the
/// shell, as one command line.
pub open spec fn script_command(program: Seq<char>, args: Seq<Seq<char>>) -> Seq<Seq<char>> {
    seq!["-e"@, "-f"@, "/dev/null"@, "-q"@, "-c"@, program + seq![' '] + join_spaced(quoted_all(args))]
}

/// The arguments of `script` that run `program` with `args`.
pub fn script_args(program: &str, args: &Vec<String>) -> (r: Vec<String>)
    ensures
        strings_view(r) == script_command(program@, strings_view(*args)),
{
    let ghost qa = quoted_all(strings_view(*args));
    let mut line = chars_of(program);
    line.push(' ');
    let ghost head = line@;
    assert(head =~= program@ + seq![' ']);
    let mut i: usize = 0;
    while i < args.len()
        invariant
            i <= args.len(),
            qa == quoted_all(strings_view(*args)),
            line@ == head + join_spaced(qa.take(i as int)),
        decreases args.len() - i,
    {
        let q = sh_quote(args[i].as_str());
        assert(qa[i as int] == q@);
        assert(qa.take(i + 1).drop_last() =~= qa.take(i as int));
        if i > 0 {
            line.push(' ');
        }
        append_chars(&mut line, &chars_of(q.as_str()));
        assert(line@ =~= head + join_spaced(qa.take(i + 1)));
        i += 1;
    }
    assert(qa.take(args.len() as int) =~= qa);
    assert(line@ == program@ + seq![' '] + join_spaced(qa));
    let mut r: Vec<String> = Vec::new();
    push_arg(&mut r, "-e");
    push_arg(&mut r, "-f");
    push_arg(&mut r, "/dev/null");
    push_arg(&mut r, "-q");
    push_arg(&mut r, "-c");
    let s = string_of(&line);
    let ghost before = strings_view(r);
    r.push(s);
    assert(strings_view(r) =~= before.push(line@));
    assert(strings_view(r) =~= script_command(program@, strings_view(*args)));
    r
}

/// The bytes of ` | `, which stands between a command's name and its line.
pub open spec fn bar_bytes() -> Seq<u8> {
    seq![0x20u8, 0x7Cu8, 0x20u8]
}

/// The output with the prefix put after every carriage return.
pub open spec fn prefix_returns(prefix: Seq<u8>, out: Seq<u8>) -> Seq<u8>
    decreases out.len(),
{
    if out.len() == 0 {
        seq![]
    } else {
        prefix_returns(prefix, out.drop_last()) + if out.last() == 13u8 {
            seq![13u8] + prefix
        } else {
            seq![out.last()]
        }
    }
}

/// A line of a command's output as logged: the name (as styled), a bar, the
/// line with the name and bar again after every carriage return, and a
/// newline.
pub open spec fn logged_line(name: Seq<u8>, out: Seq<u8>) -> Seq<u8> {
    let prefix = name + bar_bytes();
    prefix + prefix_returns(prefix, out) + seq![10u8]
}

fn append_bytes(dst: &mut Vec<u8>, src: &Vec<u8>)
    ensures
        final(dst)@ == old(dst)@ + src@,
{
    let mut i: usize = 0;
    while i < src.len()
        invariant
            i <= src.len(),
            dst@ == old(dst)@ + src@.take(i as int),
        decreases src.len() - i,
    {
        dst.push(src[i]);
        i += 1;
        assert(dst@ =~= old(dst)@ + src@.take(i as int));
    }
    assert(src@.take(src.len() as int) =~= src@);
}

/// The bytes to print for a line of a command's output, under `name` (the
/// command's name as it is to be shown).
pub fn log_line(name: &Vec<u8>, out: &Vec<u8>) -> (r: Vec<u8>)
    ensures
        r@ == logged_line(name@, out@),
{
    let mut prefix: Vec<u8> = Vec::new();
    append_bytes(&mut prefix, name);
    prefix.push(0x20u8);
    prefix.push(0x7Cu8);
    prefix.push(0x20u8);
    assert(prefix@ =~= name@ + bar_bytes());
    let mut r: Vec<u8> = Vec::new();
    append_bytes(&mut r, &prefix);
    let mut i: usize = 0;
    while i < out.len()
        invariant
            i <= out.len(),
            prefix@ == name@ + bar_bytes(),
            r@ == prefix@ + prefix_returns(prefix@, out@.take(i as int)),
        decreases out.len() - i,
    {
        assert(out@.take(i + 1).drop_last() =~= out@.take(i as int));
        assert(out@.take(i + 1).last() == out@[i as int]);
        let ghost before = r@;
        if out[i] == 13u8 {
            r.push(13u8);
            append_bytes(&mut r, &prefix);
        } else {
            r.push(out[i]);
        }
        assert(r@ =~= prefix@ + prefix_returns(prefix@, out@.take(i + 1)));
        i += 1;
    }
    assert(out@.take(out.len() as int) =~= out@);
    r.push(10u8);
    r
}

} // verus!
