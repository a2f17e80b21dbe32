//! Executable forms of the word and definition helpers of
//! [`crate::rpmspec::macrospec`].
use crate::rpmspec::macrospec::{
    add_define, add_file_def, args_of, define_of, file_defs,
    find_char, find_word, flag_value, join_space, non_flags,
    numeric_end, parse_dec, split_char, trim_newlines_end, two_bytes, undefined_text,
};
use crate::rpmspec::table::MacroTable;
use crate::text::{
    append_chars, chars_eq, chars_of, copy_chars, is_numeric, slice_chars, trim,
    trim_chars,
};
use vstd::prelude::*;

verus! {

/// The view of a vector of words.
pub open spec fn words_view(v: Vec<Vec<char>>) -> Seq<Seq<char>> {
    v@.map_values(|w: Vec<char>| w@)
}

proof fn lemma_words_push(v: Vec<Vec<char>>, w: Vec<char>, v2: Vec<Vec<char>>)
    requires
        v2@ == v@.push(w),
    ensures
        words_view(v2) == words_view(v).push(w@),
{
    assert(words_view(v2) =~= words_view(v).push(w@));
}

/// `str::split` at `c`.
pub fn split_char_exec(s: &[char], c: char) -> (r: Vec<Vec<char>>)
    ensures
        words_view(r) == split_char(s@, c),
{
    let mut words: Vec<Vec<char>> = Vec::new();
    let mut cur: Vec<char> = Vec::new();
    let mut i: usize = 0;
    assert(s@.take(0) =~= Seq::<char>::empty());
    assert(words_view(words).push(cur@) =~= seq![Seq::<char>::empty()]);
    while i < s.len()
        invariant
            i <= s.len(),
            split_char(s@.take(i as int), c) == words_view(words).push(cur@),
        decreases s.len() - i,
    {
        let ch = s[i];
        assert(s@.take(i + 1).drop_last() =~= s@.take(i as int));
        assert(s@.take(i + 1).last() == ch);
        if ch == c {
            let ghost old_words = words;
            let done = cur;
            let ghost d = done@;
            words.push(done);
            proof { lemma_words_push(old_words, done, words); }
            cur = Vec::new();
            assert(split_char(s@.take(i + 1), c) == words_view(old_words).push(d).push(Seq::<char>::empty()));
        } else {
            let ghost before = words_view(words).push(cur@);
            cur.push(ch);
            assert(before.update(before.len() - 1, before.last().push(ch)) =~= words_view(words).push(cur@));
        }
        i += 1;
    }
    assert(s@.take(s.len() as int) =~= s@);
    let ghost old_words = words;
    let last = cur;
    words.push(last);
    proof { lemma_words_push(old_words, last, words); }
    words
}

/// Keeps the words that do not begin with `-`.
pub fn non_flags_exec(ws: &Vec<Vec<char>>) -> (r: Vec<Vec<char>>)
    ensures
        words_view(r) == non_flags(words_view(*ws)),
{
    let mut out: Vec<Vec<char>> = Vec::new();
    let mut i: usize = 0;
    while i < ws.len()
        invariant
            i <= ws.len(),
            words_view(out) == non_flags(words_view(*ws).take(i as int)),
        decreases ws.len() - i,
    {
        let ghost all = words_view(*ws);
        assert(all.take(i + 1).drop_last() =~= all.take(i as int));
        assert(all.take(i + 1).last() == ws@[i as int]@);
        let w = &ws[i];
        if !(w.len() > 0 && w[0] == '-') {
            let ghost old_out = out;
            let c = copy_chars(w);
            out.push(c);
            proof { lemma_words_push(old_out, c, out); }
        }
        i += 1;
    }
    assert(words_view(*ws).take(ws.len() as int) =~= words_view(*ws));
    out
}

/// The arguments of a parametric macro.
pub fn args_of_exec(raw: &[char]) -> (r: Vec<Vec<char>>)
    ensures
        words_view(r) == args_of(raw@),
{
    let ws = split_char_exec(raw, ' ');
    non_flags_exec(&ws)
}

/// The words joined with single spaces.
pub fn join_space_exec(ws: &Vec<Vec<char>>) -> (r: Vec<char>)
    ensures
        r@ == join_space(words_view(*ws)),
{
    let mut out: Vec<char> = Vec::new();
    let mut i: usize = 0;
    assert(words_view(*ws).take(0) =~= Seq::<Seq<char>>::empty());
    while i < ws.len()
        invariant
            i <= ws.len(),
            out@ == join_space(words_view(*ws).take(i as int)),
        decreases ws.len() - i,
    {
        let ghost all = words_view(*ws);
        assert(all.take(i + 1).drop_last() =~= all.take(i as int));
        assert(all.take(i + 1).last() == ws@[i as int]@);
        if i > 0 {
            out.push(' ');
        } else {
            assert(all.take(1) =~= seq![ws@[0]@]);
        }
        append_chars(&mut out, &ws[i]);
        i += 1;
    }
    assert(words_view(*ws).take(ws.len() as int) =~= words_view(*ws));
    out
}

/// The index of the first `c`.
pub fn find_char_exec(s: &[char], c: char) -> (r: Option<usize>)
    ensures
        match r {
            Some(i) => find_char(s@, c, 0) == Some(i as int) && i < s@.len(),
            None => find_char(s@, c, 0) == None::<int>,
        },
{
    let mut i: usize = 0;
    while i < s.len()
        invariant
            i <= s.len(),
            find_char(s@, c, 0) == find_char(s@, c, i as int),
        decreases s.len() - i,
    {
        if s[i] == c {
            return Some(i);
        }
        i += 1;
    }
    None
}

/// The index of the first word equal to `w`.
pub fn find_word_exec(ws: &Vec<Vec<char>>, w: &[char]) -> (r: Option<usize>)
    ensures
        match r {
            Some(i) => find_word(words_view(*ws), w@, 0) == Some(i as int) && i < ws.len(),
            None => find_word(words_view(*ws), w@, 0) == None::<int>,
        },
{
    let mut i: usize = 0;
    while i < ws.len()
        invariant
            i <= ws.len(),
            find_word(words_view(*ws), w@, 0) == find_word(words_view(*ws), w@, i as int),
        decreases ws.len() - i,
    {
        if chars_eq(&ws[i], w) {
            return Some(i);
        }
        i += 1;
    }
    None
}

/// The word after the first occurrence of `flag` in `raw`.
pub fn flag_value_exec(raw: &[char], flag: &[char]) -> (r: Vec<char>)
    ensures
        r@ == flag_value(raw@, flag@),
{
    let ws = split_char_exec(raw, ' ');
    match find_word_exec(&ws, flag) {
        Some(i) => if i + 1 < ws.len() { copy_chars(&ws[i + 1]) } else { Vec::new() },
        None => Vec::new(),
    }
}

/// `s` without trailing newlines.
pub fn trim_newlines_end_exec(s: &[char]) -> (r: Vec<char>)
    ensures
        r@ == trim_newlines_end(s@),
{
    let mut n = s.len();
    assert(s@.take(n as int) =~= s@);
    while n > 0 && s[n - 1] == '\n'
        invariant
            n <= s.len(),
            trim_newlines_end(s@) == trim_newlines_end(s@.take(n as int)),
        decreases n,
    {
        assert(s@.take(n as int).drop_last() =~= s@.take(n - 1));
        n -= 1;
    }
    slice_chars(s, 0, n)
}

/// The value of a string of ASCII digits that fits in a `usize`.
pub fn parse_dec_exec(s: &[char]) -> (r: Option<usize>)
    ensures
        match r {
            Some(v) => parse_dec(s@) == Some(v as nat),
            None => parse_dec(s@) == None::<nat>,
        },
{
    if s.len() == 0 {
        return None;
    }
    let mut v: usize = 0;
    let mut i: usize = 0;
    while i < s.len()
        invariant
            0 <= i <= s.len(),
            s.len() > 0,
            i == 0 ==> v == 0,
            i > 0 ==> parse_dec(s@.take(i as int)) == Some(v as nat),
        decreases s.len() - i,
    {
        let c = s[i];
        assert(s@.take(i + 1).drop_last() =~= s@.take(i as int));
        assert(s@.take(i + 1).last() == c);
        if !('0' <= c && c <= '9') {
            proof { lemma_parse_dec_bad(s@, i as int); }
            return None;
        }
        let d = (c as u32 - '0' as u32) as usize;
        if v > (usize::MAX - d) / 10 {
            proof { lemma_parse_dec_overflow(s@, i as int, v as nat, d as nat); }
            return None;
        }
        v = v * 10 + d;
        i += 1;
    }
    assert(s@.take(s.len() as int) =~= s@);
    Some(v)
}

proof fn lemma_parse_dec_bad(s: Seq<char>, i: int)
    requires
        0 <= i < s.len(),
        !('0' <= s[i] && s[i] <= '9'),
    ensures
        parse_dec(s) == None::<nat>,
    decreases s.len(),
{
    if i == s.len() - 1 {
    } else {
        lemma_parse_dec_bad(s.drop_last(), i);
    }
}

proof fn lemma_parse_dec_none_ext(s: Seq<char>, n: int)
    requires
        0 < n <= s.len(),
        parse_dec(s.take(n)) == None::<nat>,
    ensures
        parse_dec(s) == None::<nat>,
    decreases s.len() - n,
{
    if n < s.len() {
        assert(s.drop_last().take(n) =~= s.take(n));
        lemma_parse_dec_none_ext(s.drop_last(), n);
    } else {
        assert(s.take(n) =~= s);
    }
}

proof fn lemma_parse_dec_overflow(s: Seq<char>, i: int, v: nat, d: nat)
    requires
        0 <= i < s.len(),
        '0' <= s[i] && s[i] <= '9',
        d == s[i] as int - '0' as int,
        i == 0 ==> v == 0,
        i > 0 ==> parse_dec(s.take(i)) == Some(v),
        v > (usize::MAX - d) / 10,
    ensures
        parse_dec(s) == None::<nat>,
{
    assert(v * 10 + d > usize::MAX) by (nonlinear_arith)
        requires
            v > (usize::MAX - d) / 10,
            0 <= d <= 9,
    ;
    assert(s.take(i + 1).drop_last() =~= s.take(i));
    assert(s.take(i + 1).last() == s[i]);
    if i == 0 {
        assert(v == 0);
        assert(false) by (nonlinear_arith)
            requires
                v == 0,
                v > (usize::MAX - d) / 10,
                0 <= d <= 9,
        ;
    }
    assert(parse_dec(s.take(i + 1)) == None::<nat>);
    lemma_parse_dec_none_ext(s, i + 1);
}

/// The end of the run of numeric characters from `i`.
pub fn numeric_end_exec(s: &[char], i: usize) -> (r: usize)
    requires
        i <= s.len(),
    ensures
        r as int == numeric_end(s@, i as int),
        i <= r <= s.len(),
{
    let mut j = i;
    while j < s.len() && is_numeric(s[j])
        invariant
            i <= j <= s.len(),
            numeric_end(s@, i as int) == numeric_end(s@, j as int),
        decreases s.len() - j,
    {
        j += 1;
    }
    j
}

/// Whether the name takes two bytes with an ASCII second character.
pub fn two_bytes_exec(s: &[char]) -> (r: bool)
    ensures
        r == two_bytes(s@),
{
    s.len() == 2 && s[0] < '\u{80}' && s[1] < '\u{80}'
}

/// The text for an undefined macro used with `!`.
pub fn undefined_text_exec(braced: bool, name: &[char]) -> (r: Vec<char>)
    ensures
        r@ == undefined_text(braced, name@),
{
    let mut r: Vec<char> = Vec::new();
    r.push('%');
    if !braced {
        append_chars(&mut r, name);
        assert(r@ =~= seq!['%'] + name@);
    } else {
        r.push('{');
        r.push('!');
        append_chars(&mut r, name);
        r.push('}');
        assert(r@ =~= seq!['%', '{', '!'] + name@ + seq!['}']);
    }
    r
}

/// The name and body of a `%define` line.
pub fn define_of_exec(line: &[char]) -> (r: Option<(Vec<char>, Vec<char>)>)
    ensures
        match r {
            Some((n, b)) => define_of(line@) == Some((n@, b@)),
            None => define_of(line@) == None::<(Seq<char>, Seq<char>)>,
        },
{
    let d = trim_chars(line);
    match find_char_exec(d.as_slice(), ' ') {
        Some(i) => {
            let dl = d.len();
            assert(i < dl);
            let n = slice_chars(&d, 0, i);
            let b = slice_chars(&d, i + 1, dl);
            assert(n@ =~= d@.take(i as int));
            assert(b@ =~= d@.skip(i + 1));
            Some((n, b))
        },
        None => None,
    }
}

/// Whether a name ends with `()`.
fn ends_with_parens(n: &[char]) -> (r: bool)
    ensures
        r == (n@.len() >= 2 && n@[n@.len() - 2] == '(' && n@.last() == ')'),
{
    n.len() >= 2 && n[n.len() - 2] == '(' && n[n.len() - 1] == ')'
}

/// Adds a `%define` definition to the table.
pub fn add_define_exec(t: &mut MacroTable, name: Vec<char>, body: Vec<char>)
    ensures
        final(t)@ == add_define(old(t)@, name@, body@),
{
    if ends_with_parens(&name) {
        let n = slice_chars(&name, 0, name.len() - 2);
        let mut b = body;
        b.push(' ');
        t.insert_chars(n, b);
    } else {
        t.insert_chars(name, body);
    }
}

/// Adds a definition found in a macro file to the table.
pub fn add_file_def_exec(t: &mut MacroTable, name: Vec<char>, body: Vec<char>)
    ensures
        final(t)@ == add_file_def(old(t)@, name@, body@),
{
    if t.contains(&name) {
    } else if ends_with_parens(&name) {
        let n = slice_chars(&name, 0, name.len() - 2);
        let mut b = body;
        b.push(' ');
        t.insert_chars(n, b);
    } else {
        let b = trim_chars(&body);
        t.insert_chars(name, b);
    }
}

/// Adds definitions of a macro file to the table, given the matches of the
/// macro-file pattern (name and body of each), in turn.
pub fn add_file_defs(t: &mut MacroTable, caps: &Vec<(String, String)>)
    ensures
        final(t)@ == file_defs(old(t)@, caps@.map_values(|c: (String, String)| (c.0@, c.1@))),
{
    let ghost cv = caps@.map_values(|c: (String, String)| (c.0@, c.1@));
    let mut i: usize = 0;
    assert(cv.take(0) =~= Seq::<(Seq<char>, Seq<char>)>::empty());
    while i < caps.len()
        invariant
            i <= caps.len(),
            cv == caps@.map_values(|c: (String, String)| (c.0@, c.1@)),
            t@ == file_defs(old(t)@, cv.take(i as int)),
        decreases caps.len() - i,
    {
        assert(cv.take(i + 1).drop_last() =~= cv.take(i as int));
        assert(cv.take(i + 1).last() == (caps@[i as int].0@, caps@[i as int].1@));
        add_file_def_exec(t, chars_of(caps[i].0.as_str()), chars_of(caps[i].1.as_str()));
        i += 1;
    }
    assert(cv.take(caps.len() as int) =~= cv);
}

/// Adds the definitions of a macro file to the table: the macro-file
/// pattern is matched over the text, and each match is added in turn.
pub fn load_file_defs(t: &mut MacroTable, text: &str)
    ensures
        final(t)@ == file_defs(old(t)@, crate::rpmspec::patterns::macro_file_caps(text@)),
{
    let caps = crate::rpmspec::patterns::macro_file_captures(text);
    add_file_defs(t, &caps);
}

} // verus!
