//! The tokens of an RPM expression (`%[...]`, `%{expr:...}`): reading one
//! token at a time, with its value for numbers, strings, versions and
//! function names.
use crate::andax::tsunagu::digits_nat;
use crate::text::{ascii_alnum, ascii_alpha, ascii_digit, is_alnum, is_alpha, is_digit, is_whitespace, is_ws, slice_chars, string_of};
use vstd::prelude::*;

verus! {

/// The tokens of an expression.
#[derive(Debug, Clone, Copy, PartialEq, Eq, Structural)]
pub enum Token {
    EOF,
    Add,
    Minus,
    Mul,
    Div,
    OpenP,
    CloseP,
    Eq,
    NEq,
    Not,
    LE,
    LT,
    GE,
    GT,
    LogicalAnd,
    LogicalOr,
    TenaryCond,
    TenaryAlt,
    Comma,
    Function,
    Integer,
    String,
    Version,
}

/// How a token is shown in traces.
pub open spec fn token_symbol(t: Token) -> Seq<char> {
    match t {
        Token::EOF => "EOF"@,
        Token::Integer => "I"@,
        Token::String => "S"@,
        Token::Add => "+"@,
        Token::Minus => "-"@,
        Token::Mul => "*"@,
        Token::Div => "/"@,
        Token::OpenP => "( "@,
        Token::CloseP => " )"@,
        Token::Eq => "=="@,
        Token::NEq => "!="@,
        Token::LT => "<"@,
        Token::LE => "<="@,
        Token::GT => ">"@,
        Token::GE => ">="@,
        Token::Not => "!"@,
        Token::LogicalAnd => "&&"@,
        Token::LogicalOr => "||"@,
        Token::TenaryCond => "?"@,
        Token::TenaryAlt => ":"@,
        Token::Version => "V"@,
        Token::Comma => ","@,
        Token::Function => "f( "@,
    }
}

impl Token {
    /// The token as shown in traces.
    pub fn symbol(&self) -> (r: &'static str)
        ensures
            r@ == token_symbol(*self),
    {
        match self {
            Token::EOF => "EOF",
            Token::Integer => "I",
            Token::String => "S",
            Token::Add => "+",
            Token::Minus => "-",
            Token::Mul => "*",
            Token::Div => "/",
            Token::OpenP => "( ",
            Token::CloseP => " )",
            Token::Eq => "==",
            Token::NEq => "!=",
            Token::LT => "<",
            Token::LE => "<=",
            Token::GT => ">",
            Token::GE => ">=",
            Token::Not => "!",
            Token::LogicalAnd => "&&",
            Token::LogicalOr => "||",
            Token::TenaryCond => "?",
            Token::TenaryAlt => ":",
            Token::Version => "V",
            Token::Comma => ",",
            Token::Function => "f( ",
        }
    }
}

/// The value a token carries.
#[derive(Debug)]
pub enum ExprValue {
    Empty,
    Int(u64),
    Text(String),
    Version(String),
}

/// What a value carries, as the contracts see it.
pub enum ValueView {
    Empty,
    Int(nat),
    Text(Seq<char>),
    Version(Seq<char>),
}

pub open spec fn value_view(v: ExprValue) -> ValueView {
    match v {
        ExprValue::Empty => ValueView::Empty,
        ExprValue::Int(n) => ValueView::Int(n as nat),
        ExprValue::Text(s) => ValueView::Text(s@),
        ExprValue::Version(s) => ValueView::Version(s@),
    }
}

/// The position of the first character from `i` that is not whitespace.
pub open spec fn ws_end(s: Seq<char>, i: int) -> int
    decreases s.len() - i,
{
    if 0 <= i < s.len() && is_ws(s[i]) { ws_end(s, i + 1) } else { i }
}

/// The end of the run of ASCII digits from `i`.
pub open spec fn digits_end(s: Seq<char>, i: int) -> int
    decreases s.len() - i,
{
    if 0 <= i < s.len() && is_digit(s[i]) { digits_end(s, i + 1) } else { i }
}

/// The end of the run of ASCII letters, digits and `_` from `i`.
pub open spec fn word_end(s: Seq<char>, i: int) -> int
    decreases s.len() - i,
{
    if 0 <= i < s.len() && (is_alnum(s[i]) || s[i] == '_') { word_end(s, i + 1) } else { i }
}

/// The position of the first `"` from `i`.
pub open spec fn quote_at(s: Seq<char>, i: int) -> Option<int>
    decreases s.len() - i,
{
    if i < 0 || i >= s.len() {
        None
    } else if s[i] == '"' {
        Some(i)
    } else {
        quote_at(s, i + 1)
    }
}

/// The next token of the expression `s` from `pos`: the token, its value
/// and the position after it, or the error that stops the expression.
pub open spec fn next_token(s: Seq<char>, pos: int) -> Result<(Token, ValueView, int), Seq<char>> {
    let p = ws_end(s, pos);
    let two = |c: char| p + 1 < s.len() && s[p + 1] == c;
    if p >= s.len() {
        Ok((Token::EOF, ValueView::Empty, p))
    } else {
        let c = s[p];
        if c == '+' {
            Ok((Token::Add, ValueView::Empty, p + 1))
        } else if c == '-' {
            Ok((Token::Minus, ValueView::Empty, p + 1))
        } else if c == '*' {
            Ok((Token::Mul, ValueView::Empty, p + 1))
        } else if c == '/' {
            Ok((Token::Div, ValueView::Empty, p + 1))
        } else if c == '(' {
            Ok((Token::OpenP, ValueView::Empty, p + 1))
        } else if c == ')' {
            Ok((Token::CloseP, ValueView::Empty, p + 1))
        } else if c == '=' {
            if two('=') { Ok((Token::Eq, ValueView::Empty, p + 2)) } else { Err("syntax error while parsing =="@) }
        } else if c == '!' {
            if two('=') { Ok((Token::NEq, ValueView::Empty, p + 2)) } else { Ok((Token::Not, ValueView::Empty, p + 1)) }
        } else if c == '<' {
            if two('=') { Ok((Token::LE, ValueView::Empty, p + 2)) } else { Ok((Token::LT, ValueView::Empty, p + 1)) }
        } else if c == '>' {
            if two('=') { Ok((Token::GE, ValueView::Empty, p + 2)) } else { Ok((Token::GT, ValueView::Empty, p + 1)) }
        } else if c == '&' {
            if two('&') { Ok((Token::LogicalAnd, ValueView::Empty, p + 2)) } else { Err("syntax error while parsing &&"@) }
        } else if c == '|' {
            if two('|') { Ok((Token::LogicalOr, ValueView::Empty, p + 2)) } else { Err("syntax error while parsing ||"@) }
        } else if c == '?' {
            Ok((Token::TenaryCond, ValueView::Empty, p + 1))
        } else if c == ':' {
            Ok((Token::TenaryAlt, ValueView::Empty, p + 1))
        } else if c == ',' {
            Ok((Token::Comma, ValueView::Empty, p + 1))
        } else if is_digit(c) {
            let e = digits_end(s, p);
            match digits_nat(s.subrange(p, e)) {
                Some(n) => if n <= u64::MAX {
                    Ok((Token::Integer, ValueView::Int(n), e))
                } else {
                    Err("integer too large in expression"@)
                },
                None => Err("integer too large in expression"@),
            }
        } else if c == '"' || (c == 'v' && two('"')) {
            let start = if c == 'v' { p + 2 } else { p + 1 };
            match quote_at(s, start) {
                None => Err("unterminated string in expression"@),
                Some(q) => {
                    let text = s.subrange(start, q);
                    if c == '"' {
                        Ok((Token::String, ValueView::Text(text), q + 1))
                    } else if text.len() == 0 {
                        Err("invalid version"@)
                    } else {
                        Ok((Token::Version, ValueView::Version(text), q + 1))
                    }
                },
            }
        } else if is_alpha(c) {
            let w = word_end(s, p);
            if w < s.len() && s[w] == '(' {
                Ok((Token::Function, ValueView::Text(s.subrange(p, w)), w + 1))
            } else {
                Err("bare words are no longer supported, please use \"...\""@)
            }
        } else {
            Err("parse error in expression"@)
        }
    }
}

fn ws_end_exec(s: &[char], i: usize) -> (r: usize)
    requires
        i <= s.len(),
    ensures
        r as int == ws_end(s@, i as int),
        i <= r <= s.len(),
{
    let mut j = i;
    while j < s.len() && is_whitespace(s[j])
        invariant
            i <= j <= s.len(),
            ws_end(s@, i as int) == ws_end(s@, j as int),
        decreases s.len() - j,
    {
        j += 1;
    }
    j
}

fn digits_end_exec(s: &[char], i: usize) -> (r: usize)
    requires
        i <= s.len(),
    ensures
        r as int == digits_end(s@, i as int),
        i <= r <= s.len(),
{
    let mut j = i;
    while j < s.len() && ascii_digit(s[j])
        invariant
            i <= j <= s.len(),
            digits_end(s@, i as int) == digits_end(s@, j as int),
        decreases s.len() - j,
    {
        j += 1;
    }
    j
}

fn word_end_exec(s: &[char], i: usize) -> (r: usize)
    requires
        i <= s.len(),
    ensures
        r as int == word_end(s@, i as int),
        i <= r <= s.len(),
{
    let mut j = i;
    while j < s.len() && (ascii_alnum(s[j]) || s[j] == '_')
        invariant
            i <= j <= s.len(),
            word_end(s@, i as int) == word_end(s@, j as int),
        decreases s.len() - j,
    {
        j += 1;
    }
    j
}

fn quote_at_exec(s: &[char], i: usize) -> (r: Option<usize>)
    requires
        i <= s.len(),
    ensures
        match r {
            Some(q) => quote_at(s@, i as int) == Some(q as int) && i <= q < s.len(),
            None => quote_at(s@, i as int) is None,
        },
{
    let mut j = i;
    while j < s.len()
        invariant
            i <= j <= s.len(),
            quote_at(s@, i as int) == quote_at(s@, j as int),
        decreases s.len() - j,
    {
        if s[j] == '"' {
            return Some(j);
        }
        j += 1;
    }
    None
}

proof fn lemma_digits_end_after(s: Seq<char>, i: int)
    ensures
        digits_end(s, i) >= i,
    decreases s.len() - i,
{
    if 0 <= i < s.len() && is_digit(s[i]) {
        lemma_digits_end_after(s, i + 1);
    }
}

/// Every run of digits that is all digits has a value.
proof fn lemma_digits_some(d: Seq<char>)
    requires
        d.len() > 0,
        forall|k: int| 0 <= k < d.len() ==> is_digit(#[trigger] d[k]),
    ensures
        digits_nat(d) is Some,
    decreases d.len(),
{
    if d.len() > 1 {
        lemma_digits_some(d.drop_last());
    }
}

proof fn lemma_digits_run(s: Seq<char>, i: int, j: int)
    requires
        0 <= i <= j <= s.len(),
        digits_end(s, i) == digits_end(s, j),
        forall|k: int| i <= k < j ==> is_digit(#[trigger] s[k]),
    ensures
        forall|k: int| i <= k < digits_end(s, i) ==> is_digit(#[trigger] s[k]),
    decreases s.len() - j,
{
    if j < s.len() && is_digit(s[j]) {
        lemma_digits_run(s, i, j + 1);
    }
}

/// The value of the digits `s[from..to]`, if it fits in a `u64`.
fn digits_value_exec(s: &[char], from: usize, to: usize) -> (r: Option<u64>)
    requires
        from < to <= s.len(),
        forall|k: int| from <= k < to ==> is_digit(#[trigger] s@[k]),
    ensures
        match r {
            Some(n) => digits_nat(s@.subrange(from as int, to as int)) == Some(n as nat),
            None => match digits_nat(s@.subrange(from as int, to as int)) {
                Some(n) => n > u64::MAX,
                None => false,
            },
        },
{
    let ghost d = s@.subrange(from as int, to as int);
    proof { lemma_digits_some(d); }
    let mut v: u64 = 0;
    let mut i: usize = from;
    while i < to
        invariant
            from <= i <= to <= s.len(),
            d == s@.subrange(from as int, to as int),
            forall|k: int| from <= k < to ==> is_digit(#[trigger] s@[k]),
            digits_nat(d) is Some,
            digits_nat(d.take(i - from)) == (if i == from { None } else { Some(v as nat) }),
            i == from ==> v == 0,
        decreases to - i,
    {
        let c = s[i];
        assert(d.take(i + 1 - from).drop_last() =~= d.take(i - from));
        assert(d.take(i + 1 - from).last() == c);
        assert(is_digit(s@[i as int]));
        let dig: u64 = ((c as u32) - ('0' as u32)) as u64;
        if v > 1844674407370955161u64 || (v == 1844674407370955161u64 && dig > 5) {
            proof {
                lemma_digits_grow_u(d, i + 1 - from);
            }
            return None;
        }
        v = v * 10 + dig;
        i += 1;
    }
    assert(d.take(to - from) =~= d);
    Some(v)
}

proof fn lemma_digits_grow_u(s: Seq<char>, k: int)
    requires
        0 < k <= s.len(),
        digits_nat(s.take(k)) is Some,
        digits_nat(s) is Some,
    ensures
        digits_nat(s)->Some_0 >= digits_nat(s.take(k))->Some_0,
    decreases s.len() - k,
{
    if k < s.len() {
        assert(s.drop_last().take(k) =~= s.take(k));
        lemma_digits_grow_u(s.drop_last(), k);
    } else {
        assert(s.take(k) =~= s);
    }
}

/// Reads the next token of the expression `s` from `pos` (whitespace
/// before it is skipped): the token, its value (the number, the text of a
/// string or version, the name of a function) and the position after it
/// (after the `(` of a function call); or the error that stops the
/// expression.
pub fn rd_token(s: &[char], pos: usize) -> (r: Result<(Token, ExprValue, usize), String>)
    requires
        pos <= s.len(),
    ensures
        match (r, next_token(s@, pos as int)) {
            (Ok((t, v, e)), Ok((t2, v2, e2))) => t == t2 && value_view(v) == v2 && e as int == e2,
            (Err(m), Err(m2)) => m@ == m2,
            _ => false,
        },
{
    let p = ws_end_exec(s, pos);
    if p >= s.len() {
        return Ok((Token::EOF, ExprValue::Empty, p));
    }
    let c = s[p];
    let next = if p + 1 < s.len() { s[p + 1] } else { ' ' };
    let has_next = p + 1 < s.len();
    if c == '+' {
        return Ok((Token::Add, ExprValue::Empty, p + 1));
    }
    if c == '-' {
        return Ok((Token::Minus, ExprValue::Empty, p + 1));
    }
    if c == '*' {
        return Ok((Token::Mul, ExprValue::Empty, p + 1));
    }
    if c == '/' {
        return Ok((Token::Div, ExprValue::Empty, p + 1));
    }
    if c == '(' {
        return Ok((Token::OpenP, ExprValue::Empty, p + 1));
    }
    if c == ')' {
        return Ok((Token::CloseP, ExprValue::Empty, p + 1));
    }
    if c == '=' {
        return if has_next && next == '=' {
            Ok((Token::Eq, ExprValue::Empty, p + 2))
        } else {
            Err("syntax error while parsing ==".to_owned())
        };
    }
    if c == '!' {
        return if has_next && next == '=' {
            Ok((Token::NEq, ExprValue::Empty, p + 2))
        } else {
            Ok((Token::Not, ExprValue::Empty, p + 1))
        };
    }
    if c == '<' {
        return if has_next && next == '=' {
            Ok((Token::LE, ExprValue::Empty, p + 2))
        } else {
            Ok((Token::LT, ExprValue::Empty, p + 1))
        };
    }
    if c == '>' {
        return if has_next && next == '=' {
            Ok((Token::GE, ExprValue::Empty, p + 2))
        } else {
            Ok((Token::GT, ExprValue::Empty, p + 1))
        };
    }
    if c == '&' {
        return if has_next && next == '&' {
            Ok((Token::LogicalAnd, ExprValue::Empty, p + 2))
        } else {
            Err("syntax error while parsing &&".to_owned())
        };
    }
    if c == '|' {
        return if has_next && next == '|' {
            Ok((Token::LogicalOr, ExprValue::Empty, p + 2))
        } else {
            Err("syntax error while parsing ||".to_owned())
        };
    }
    if c == '?' {
        return Ok((Token::TenaryCond, ExprValue::Empty, p + 1));
    }
    if c == ':' {
        return Ok((Token::TenaryAlt, ExprValue::Empty, p + 1));
    }
    if c == ',' {
        return Ok((Token::Comma, ExprValue::Empty, p + 1));
    }
    if ascii_digit(c) {
        let e = digits_end_exec(s, p);
        proof {
            lemma_digits_end_after(s@, p + 1);
            lemma_digits_run(s@, p as int, p as int);
        }
        return match digits_value_exec(s, p, e) {
            Some(n) => Ok((Token::Integer, ExprValue::Int(n), e)),
            None => Err("integer too large in expression".to_owned()),
        };
    }
    if c == '"' || (c == 'v' && has_next && next == '"') {
        let start = if c == 'v' { p + 2 } else { p + 1 };
        return match quote_at_exec(s, start) {
            None => Err("unterminated string in expression".to_owned()),
            Some(q) => {
                let text = slice_chars(s, start, q);
                if c == '"' {
                    Ok((Token::String, ExprValue::Text(string_of(&text)), q + 1))
                } else if text.len() == 0 {
                    Err("invalid version".to_owned())
                } else {
                    Ok((Token::Version, ExprValue::Version(string_of(&text)), q + 1))
                }
            },
        };
    }
    if ascii_alpha(c) {
        let w = word_end_exec(s, p);
        return if w < s.len() && s[w] == '(' {
            let name = slice_chars(s, p, w);
            Ok((Token::Function, ExprValue::Text(string_of(&name)), w + 1))
        } else {
            Err("bare words are no longer supported, please use \"...\"".to_owned())
        };
    }
    Err("parse error in expression".to_owned())
}

/// What the operators read as: each one-character operator is its token
/// and ends one character on; `<`, `>` and `!` followed by `=` are `<=`,
/// `>=` and `!=` and end two characters on, and alone they are `<`, `>` and
/// `!`; `==`, `&&` and `||` end two characters on, and a lone `=`, `&` or
/// `|` is an error.
pub proof fn law_operator_tokens(s: Seq<char>, pos: int)
    requires
        0 <= pos < s.len(),
        !is_ws(s[pos]),
    ensures
        s[pos] == '+' ==> next_token(s, pos) == Ok::<(Token, ValueView, int), Seq<char>>((Token::Add, ValueView::Empty, pos + 1)),
        s[pos] == '-' ==> next_token(s, pos) == Ok::<(Token, ValueView, int), Seq<char>>((Token::Minus, ValueView::Empty, pos + 1)),
        s[pos] == '*' ==> next_token(s, pos) == Ok::<(Token, ValueView, int), Seq<char>>((Token::Mul, ValueView::Empty, pos + 1)),
        s[pos] == '/' ==> next_token(s, pos) == Ok::<(Token, ValueView, int), Seq<char>>((Token::Div, ValueView::Empty, pos + 1)),
        s[pos] == '(' ==> next_token(s, pos) == Ok::<(Token, ValueView, int), Seq<char>>((Token::OpenP, ValueView::Empty, pos + 1)),
        s[pos] == ')' ==> next_token(s, pos) == Ok::<(Token, ValueView, int), Seq<char>>((Token::CloseP, ValueView::Empty, pos + 1)),
        s[pos] == '?' ==> next_token(s, pos) == Ok::<(Token, ValueView, int), Seq<char>>((Token::TenaryCond, ValueView::Empty, pos + 1)),
        s[pos] == ':' ==> next_token(s, pos) == Ok::<(Token, ValueView, int), Seq<char>>((Token::TenaryAlt, ValueView::Empty, pos + 1)),
        s[pos] == ',' ==> next_token(s, pos) == Ok::<(Token, ValueView, int), Seq<char>>((Token::Comma, ValueView::Empty, pos + 1)),
        s[pos] == '<' && pos + 1 < s.len() && s[pos + 1] == '=' ==> next_token(s, pos) == Ok::<(Token, ValueView, int), Seq<char>>((Token::LE, ValueView::Empty, pos + 2)),
        s[pos] == '<' && !(pos + 1 < s.len() && s[pos + 1] == '=') ==> next_token(s, pos) == Ok::<(Token, ValueView, int), Seq<char>>((Token::LT, ValueView::Empty, pos + 1)),
        s[pos] == '>' && pos + 1 < s.len() && s[pos + 1] == '=' ==> next_token(s, pos) == Ok::<(Token, ValueView, int), Seq<char>>((Token::GE, ValueView::Empty, pos + 2)),
        s[pos] == '>' && !(pos + 1 < s.len() && s[pos + 1] == '=') ==> next_token(s, pos) == Ok::<(Token, ValueView, int), Seq<char>>((Token::GT, ValueView::Empty, pos + 1)),
        s[pos] == '!' && pos + 1 < s.len() && s[pos + 1] == '=' ==> next_token(s, pos) == Ok::<(Token, ValueView, int), Seq<char>>((Token::NEq, ValueView::Empty, pos + 2)),
        s[pos] == '!' && !(pos + 1 < s.len() && s[pos + 1] == '=') ==> next_token(s, pos) == Ok::<(Token, ValueView, int), Seq<char>>((Token::Not, ValueView::Empty, pos + 1)),
        s[pos] == '=' && pos + 1 < s.len() && s[pos + 1] == '=' ==> next_token(s, pos) == Ok::<(Token, ValueView, int), Seq<char>>((Token::Eq, ValueView::Empty, pos + 2)),
        s[pos] == '=' && !(pos + 1 < s.len() && s[pos + 1] == '=') ==> next_token(s, pos) == Err::<(Token, ValueView, int), Seq<char>>("syntax error while parsing =="@),
        s[pos] == '&' && pos + 1 < s.len() && s[pos + 1] == '&' ==> next_token(s, pos) == Ok::<(Token, ValueView, int), Seq<char>>((Token::LogicalAnd, ValueView::Empty, pos + 2)),
        s[pos] == '&' && !(pos + 1 < s.len() && s[pos + 1] == '&') ==> next_token(s, pos) == Err::<(Token, ValueView, int), Seq<char>>("syntax error while parsing &&"@),
        s[pos] == '|' && pos + 1 < s.len() && s[pos + 1] == '|' ==> next_token(s, pos) == Ok::<(Token, ValueView, int), Seq<char>>((Token::LogicalOr, ValueView::Empty, pos + 2)),
        s[pos] == '|' && !(pos + 1 < s.len() && s[pos + 1] == '|') ==> next_token(s, pos) == Err::<(Token, ValueView, int), Seq<char>>("syntax error while parsing ||"@),
{
    assert(ws_end(s, pos) == pos);
}

/// Whitespace before a token is skipped: reading from a whitespace
/// character gives what reading from the next character gives.
pub proof fn law_whitespace_skipped(s: Seq<char>, pos: int)
    requires
        0 <= pos < s.len(),
        is_ws(s[pos]),
    ensures
        next_token(s, pos) == next_token(s, pos + 1),
{
    assert(ws_end(s, pos) == ws_end(s, pos + 1));
}

/// Reading goes forward: a token other than the end of the text ends after
/// the position it was read from, and the end is reached only when nothing
/// but whitespace is left.
pub proof fn law_tokens_advance(s: Seq<char>, pos: int)
    requires
        0 <= pos <= s.len(),
    ensures
        next_token(s, pos) matches Ok((t, _, e)) ==> (t == Token::EOF ==> e == s.len()) && (t != Token::EOF ==> pos < e <= s.len()),
        next_token(s, pos) matches Ok((t, _, e)) && t == Token::EOF ==> forall|k: int| pos <= k < s.len() ==> is_ws(#[trigger] s[k]),
{
    lemma_ws_end_bounds(s, pos);
    let p = ws_end(s, pos);
    if p < s.len() {
        lemma_digits_end_after(s, p + 1);
        lemma_digits_end_bounds(s, p);
        lemma_word_end_bounds(s, p);
        if s[p] == '"' || s[p] == 'v' {
            let start = if s[p] == 'v' { p + 2 } else { p + 1 };
            lemma_quote_at_bounds(s, start);
        }
    }
}

/// A number is the whole run of digits at the position, and its value is
/// the decimal value of those digits.
pub proof fn law_integer_token(s: Seq<char>, pos: int)
    requires
        0 <= pos < s.len(),
        is_digit(s[pos]),
    ensures
        next_token(s, pos) matches Ok((t, v, e)) ==> t == Token::Integer && pos < e <= s.len()
            && (forall|k: int| pos <= k < e ==> is_digit(#[trigger] s[k]))
            && (e == s.len() || !is_digit(s[e]))
            && v == ValueView::Int(digits_nat(s.subrange(pos, e))->Some_0),
        next_token(s, pos) is Err ==> next_token(s, pos) == Err::<(Token, ValueView, int), Seq<char>>("integer too large in expression"@),
{
    assert(!is_ws(s[pos]));
    assert(ws_end(s, pos) == pos);
    lemma_digits_end_after(s, pos + 1);
    lemma_digits_end_bounds(s, pos);
    lemma_digits_run(s, pos, pos);
}

proof fn lemma_ws_end_bounds(s: Seq<char>, i: int)
    requires
        0 <= i <= s.len(),
    ensures
        i <= ws_end(s, i) <= s.len(),
        forall|k: int| i <= k < ws_end(s, i) ==> is_ws(#[trigger] s[k]),
        ws_end(s, i) < s.len() ==> !is_ws(s[ws_end(s, i)]),
    decreases s.len() - i,
{
    if i < s.len() && is_ws(s[i]) {
        lemma_ws_end_bounds(s, i + 1);
    }
}

proof fn lemma_digits_end_bounds(s: Seq<char>, i: int)
    requires
        0 <= i <= s.len(),
    ensures
        i <= digits_end(s, i) <= s.len(),
        digits_end(s, i) < s.len() ==> !is_digit(s[digits_end(s, i)]),
    decreases s.len() - i,
{
    if i < s.len() && is_digit(s[i]) {
        lemma_digits_end_bounds(s, i + 1);
    }
}

proof fn lemma_word_end_bounds(s: Seq<char>, i: int)
    requires
        0 <= i <= s.len(),
    ensures
        i <= word_end(s, i) <= s.len(),
    decreases s.len() - i,
{
    if i < s.len() && (is_alnum(s[i]) || s[i] == '_') {
        lemma_word_end_bounds(s, i + 1);
    }
}

proof fn lemma_quote_at_bounds(s: Seq<char>, i: int)
    ensures
        quote_at(s, i) matches Some(q) ==> i <= q < s.len(),
    decreases s.len() - i,
{
    if 0 <= i < s.len() && s[i] != '"' {
        lemma_quote_at_bounds(s, i + 1);
    }
}

} // verus!
