//! Reading spec text: logical lines and the bracket/quote balance that the
//! macro reader keeps while it scans.
use crate::text::is_ws;
use vstd::prelude::*;

verus! {

/// Reads one logical line starting at `pos` (the line reader of the spec
/// parser).
///
/// Opening brackets are not copied but remembered, a closing bracket must
/// match the last one remembered (it is not copied either), and a quote
/// remembers itself and everything up to and including its closing quote,
/// none of which is copied. The line ends at a newline (consumed) or at the
/// end of the input; the result is `None` if a bracket is unmatched, a quote
/// is unclosed, or anything is still remembered at the end.
pub open spec fn read_line(inp: Seq<char>, pos: int, ps: Seq<char>, out: Seq<char>) -> (Option<Seq<char>>, int)
    decreases inp.len() - pos, 1int,
{
    if pos >= inp.len() || pos < 0 {
        (if ps.len() == 0 { Some(out) } else { None }, pos)
    } else {
        let ch = inp[pos];
        let p = pos + 1;
        if ch == '\n' {
            (if ps.len() == 0 { Some(out) } else { None }, p)
        } else if ch == '(' || ch == '[' || ch == '{' {
            read_line(inp, p, ps.push(ch), out)
        } else if ch == '\'' || ch == '"' {
            read_line_quoted(inp, p, ps.push(ch), out, ch)
        } else if ch == ')' || ch == ']' || ch == '}' {
            let open = if ch == ')' { '(' } else if ch == ']' { '[' } else { '{' };
            if ps.len() > 0 && ps.last() == open {
                read_line(inp, p, ps.drop_last(), out)
            } else {
                (None, p)
            }
        } else {
            read_line(inp, p, ps, out.push(ch))
        }
    }
}

/// The quoted part of [`read_line`]: every character up to and including the
/// closing quote `q` is remembered.
pub open spec fn read_line_quoted(inp: Seq<char>, pos: int, ps: Seq<char>, out: Seq<char>, q: char) -> (Option<Seq<char>>, int)
    decreases inp.len() - pos, 0int,
{
    if pos >= inp.len() || pos < 0 {
        (None, pos)
    } else {
        let ch = inp[pos];
        if ch == q {
            read_line(inp, pos + 1, ps.push(ch), out)
        } else {
            read_line_quoted(inp, pos + 1, ps.push(ch), out, q)
        }
    }
}

/// Executable form of [`read_line`] from an empty state.
pub fn read_line_exec(inp: &Vec<char>, pos: usize) -> (r: (Option<Vec<char>>, usize))
    requires
        pos <= inp.len(),
    ensures
        r.1 <= inp.len(),
        r.1 >= pos,
        pos < inp.len() ==> r.1 > pos,
        (match r.0 { Some(v) => Some(v@), None => None::<Seq<char>> }, r.1 as int)
            == read_line(inp@, pos as int, seq![], seq![]),
{
    let ghost goal = read_line(inp@, pos as int, seq![], seq![]);
    let mut ps: Vec<char> = Vec::new();
    let mut out: Vec<char> = Vec::new();
    let mut p = pos;
    let mut quote: Option<char> = None;
    while p < inp.len()
        invariant
            pos <= p <= inp.len(),
            goal == read_line(inp@, pos as int, seq![], seq![]),
            goal == match quote {
                None => read_line(inp@, p as int, ps@, out@),
                Some(q) => read_line_quoted(inp@, p as int, ps@, out@, q),
            },
        decreases inp.len() - p,
    {
        let ch = inp[p];
        let ghost p0 = p as int;
        let ghost ps0 = ps@;
        let ghost out0 = out@;
        p += 1;
        proof {
            match quote {
                None => {
                    assert(read_line(inp@, p0, ps0, out0) == {
                        if ch == '\n' {
                            (if ps0.len() == 0 { Some(out0) } else { None }, p0 + 1)
                        } else if ch == '(' || ch == '[' || ch == '{' {
                            read_line(inp@, p0 + 1, ps0.push(ch), out0)
                        } else if ch == '\'' || ch == '"' {
                            read_line_quoted(inp@, p0 + 1, ps0.push(ch), out0, ch)
                        } else if ch == ')' || ch == ']' || ch == '}' {
                            let open = if ch == ')' { '(' } else if ch == ']' { '[' } else { '{' };
                            if ps0.len() > 0 && ps0.last() == open {
                                read_line(inp@, p0 + 1, ps0.drop_last(), out0)
                            } else {
                                (None, p0 + 1)
                            }
                        } else {
                            read_line(inp@, p0 + 1, ps0, out0.push(ch))
                        }
                    });
                },
                Some(q) => {},
            }
        }
        match quote {
            Some(q) => {
                ps.push(ch);
                if ch == q {
                    quote = None;
                }
            },
            None => {
                if ch == '\n' {
                    if ps.len() == 0 {
                        return (Some(out), p);
                    } else {
                        return (None, p);
                    }
                } else if ch == '(' || ch == '[' || ch == '{' {
                    ps.push(ch);
                } else if ch == '\'' || ch == '"' {
                    ps.push(ch);
                    quote = Some(ch);
                } else if ch == ')' || ch == ']' || ch == '}' {
                    let open = if ch == ')' { '(' } else if ch == ']' { '[' } else { '{' };
                    if ps.len() > 0 && ps[ps.len() - 1] == open {
                        ps.pop();
                    } else {
                        return (None, p);
                    }
                } else {
                    out.push(ch);
                }
            },
        }
    }
    match quote {
        Some(_) => (None, p),
        None => if ps.len() == 0 { (Some(out), p) } else { (None, p) },
    }
}

/// The bracket and quote balance kept while scanning: open parentheses,
/// brackets and braces, and whether a single or double quote is open.
pub struct Balance {
    pub pa: int,
    pub pb: int,
    pub pc: int,
    pub sq: bool,
    pub dq: bool,
}

/// The balance at the start of a scan.
pub open spec fn balance0() -> Balance {
    Balance { pa: 0, pb: 0, pc: 0, sq: false, dq: false }
}

/// The balance after reading `c`.
pub open spec fn bal_step(b: Balance, c: char) -> Balance {
    if c == '(' { Balance { pa: b.pa + 1, ..b } }
    else if c == ')' { Balance { pa: b.pa - 1, ..b } }
    else if c == '[' { Balance { pb: b.pb + 1, ..b } }
    else if c == ']' { Balance { pb: b.pb - 1, ..b } }
    else if c == '{' { Balance { pc: b.pc + 1, ..b } }
    else if c == '}' { Balance { pc: b.pc - 1, ..b } }
    else if c == '\'' { Balance { sq: !b.sq, ..b } }
    else if c == '"' { Balance { dq: !b.dq, ..b } }
    else { b }
}

/// Everything opened has been closed.
pub open spec fn bal_closed(b: Balance) -> bool {
    b.pa == 0 && b.pb == 0 && b.pc == 0 && !b.sq && !b.dq
}

/// The executable balance; its counters stay within `MAX_FUEL` of zero.
#[derive(Clone, Copy)]
pub struct Bal {
    pub pa: i64,
    pub pb: i64,
    pub pc: i64,
    pub sq: bool,
    pub dq: bool,
}

/// The largest number of steps an expansion may take.
pub const MAX_FUEL: u64 = 16777216;

impl Bal {
    pub open spec fn view(self) -> Balance {
        Balance { pa: self.pa as int, pb: self.pb as int, pc: self.pc as int, sq: self.sq, dq: self.dq }
    }

    pub open spec fn bounded(self, k: int) -> bool {
        -k <= self.pa <= k && -k <= self.pb <= k && -k <= self.pc <= k
    }

    pub fn zero() -> (b: Bal)
        ensures
            b.view() == balance0(),
            b.bounded(0),
    {
        Bal { pa: 0, pb: 0, pc: 0, sq: false, dq: false }
    }

    pub fn step(self, c: char, k: Ghost<int>) -> (b: Bal)
        requires
            self.bounded(k@),
            0 <= k@ < MAX_FUEL,
        ensures
            b.view() == bal_step(self.view(), c),
            b.bounded(k@ + 1),
    {
        let mut b = self;
        if c == '(' { b.pa = b.pa + 1; }
        else if c == ')' { b.pa = b.pa - 1; }
        else if c == '[' { b.pb = b.pb + 1; }
        else if c == ']' { b.pb = b.pb - 1; }
        else if c == '{' { b.pc = b.pc + 1; }
        else if c == '}' { b.pc = b.pc - 1; }
        else if c == '\'' { b.sq = !b.sq; }
        else if c == '"' { b.dq = !b.dq; }
        b
    }

    pub fn closed(self) -> (r: bool)
        ensures
            r == bal_closed(self.view()),
    {
        self.pa == 0 && self.pb == 0 && self.pc == 0 && !self.sq && !self.dq
    }
}

} // verus!
