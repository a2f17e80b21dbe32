//! Building command lines: flags with their values, macro definitions.
use crate::build::defs::Defs;
use crate::text::{append_chars, chars_of, string_of, strings_view};
use vstd::prelude::*;

verus! {

/// `flag item` for every item, in order.
pub open spec fn flag_pairs(flag: Seq<char>, items: Seq<Seq<char>>) -> Seq<Seq<char>>
    decreases items.len(),
{
    if items.len() == 0 {
        seq![]
    } else {
        flag_pairs(flag, items.drop_last()) + seq![flag, items.last()]
    }
}

/// Whether a command line passes `value` right after `flag`.
pub open spec fn passes(args: Seq<Seq<char>>, flag: Seq<char>, value: Seq<char>) -> bool {
    exists|i: int| 0 <= i && i + 1 < args.len() && #[trigger] args[i] == flag && args[i + 1] == value
}

/// The length of a flag's pairs: two arguments for each item.
pub proof fn lemma_flag_pairs_len(flag: Seq<char>, items: Seq<Seq<char>>)
    ensures
        flag_pairs(flag, items).len() == 2 * items.len(),
    decreases items.len(),
{
    if items.len() > 0 {
        lemma_flag_pairs_len(flag, items.drop_last());
    }
}

/// The pairs alternate: the flag stands at each even place, the items in
/// their order at the odd places after it.
pub proof fn lemma_flag_pairs_index(flag: Seq<char>, items: Seq<Seq<char>>, j: int)
    requires
        0 <= j < items.len(),
    ensures
        flag_pairs(flag, items).len() == 2 * items.len(),
        flag_pairs(flag, items)[2 * j] == flag,
        flag_pairs(flag, items)[2 * j + 1] == items[j],
    decreases items.len(),
{
    lemma_flag_pairs_len(flag, items);
    let p = flag_pairs(flag, items.drop_last());
    lemma_flag_pairs_len(flag, items.drop_last());
    assert(flag_pairs(flag, items) == p + seq![flag, items.last()]);
    if j < items.len() - 1 {
        lemma_flag_pairs_index(flag, items.drop_last(), j);
    }
}

/// Within a longer command line, each item of a flag's pairs directly
/// follows that flag.
pub proof fn lemma_flag_pairs_within(a: Seq<Seq<char>>, flag: Seq<char>, items: Seq<Seq<char>>, b: Seq<Seq<char>>, j: int)
    requires
        0 <= j < items.len(),
    ensures
        passes(a + flag_pairs(flag, items) + b, flag, items[j]),
{
    lemma_flag_pairs_index(flag, items, j);
    let s = a + flag_pairs(flag, items) + b;
    let i = a.len() + 2 * j;
    assert(s[i] == flag && s[i + 1] == items[j]);
}

/// Each argument of a flag's pairs is either one of the items, or the flag
/// itself with one of the items right after it.
pub proof fn lemma_flag_pairs_elem(flag: Seq<char>, items: Seq<Seq<char>>, i: int)
    requires
        0 <= i < flag_pairs(flag, items).len(),
    ensures
        items.contains(flag_pairs(flag, items)[i]) || (flag_pairs(flag, items)[i] == flag
            && i + 1 < flag_pairs(flag, items).len() && items.contains(flag_pairs(flag, items)[i + 1])),
    decreases items.len(),
{
    lemma_flag_pairs_len(flag, items);
    let s = flag_pairs(flag, items);
    let d = items.drop_last();
    let p = flag_pairs(flag, d);
    lemma_flag_pairs_len(flag, d);
    assert(s == p + seq![flag, items.last()]);
    let n = items.len() - 1;
    if i < p.len() {
        lemma_flag_pairs_elem(flag, d, i);
        if d.contains(p[i]) {
            let k = choose|k: int| 0 <= k < d.len() && d[k] == p[i];
            assert(items[k] == s[i]);
        } else {
            let k = choose|k: int| 0 <= k < d.len() && d[k] == p[i + 1];
            assert(items[k] == s[i + 1]);
        }
    } else if i == p.len() {
        assert(s[i] == flag && s[i + 1] == items[n]);
    } else {
        assert(s[i] == items[n]);
    }
}

/// `flag value` when there is a value.
pub open spec fn opt_pair(flag: Seq<char>, o: Option<Seq<char>>) -> Seq<Seq<char>> {
    match o {
        Some(v) => seq![flag, v],
        None => seq![],
    }
}

/// The argument that defines a macro: `'name value'`.
pub open spec fn macro_arg(name: Seq<char>, value: Seq<char>) -> Seq<char> {
    seq!['\''] + name + seq![' '] + value + seq!['\'']
}

/// `-D 'name value'` for every definition, in order.
pub open spec fn macro_args(defs: Seq<(Seq<char>, Seq<char>)>) -> Seq<Seq<char>>
    decreases defs.len(),
{
    if defs.len() == 0 {
        seq![]
    } else {
        macro_args(defs.drop_last()) + seq!["-D"@, macro_arg(defs.last().0, defs.last().1)]
    }
}

/// Each argument of the macro definitions is `-D` or a quoted definition.
pub proof fn lemma_macro_args_elem(defs: Seq<(Seq<char>, Seq<char>)>, i: int)
    requires
        0 <= i < macro_args(defs).len(),
    ensures
        macro_args(defs)[i] == "-D"@ || (macro_args(defs)[i].len() > 0 && macro_args(defs)[i][0] == '\''),
    decreases defs.len(),
{
    let d = defs.drop_last();
    let p = macro_args(d);
    assert(macro_args(defs) == p + seq!["-D"@, macro_arg(defs.last().0, defs.last().1)]);
    if i < p.len() {
        lemma_macro_args_elem(d, i);
    } else if i > p.len() {
        let q = macro_arg(defs.last().0, defs.last().1);
        assert(q[0] == '\'');
    }
}

/// Appends one argument.
pub fn push_arg(out: &mut Vec<String>, s: &str)
    ensures
        strings_view(*final(out)) == strings_view(*old(out)).push(s@),
{
    let ghost before = strings_view(*out);
    out.push(s.to_owned());
    assert(strings_view(*out) =~= before.push(s@));
}

/// Appends one argument given as a string.
pub fn push_string(out: &mut Vec<String>, s: String)
    ensures
        strings_view(*final(out)) == strings_view(*old(out)).push(s@),
{
    let ghost before = strings_view(*out);
    let ghost sv = s@;
    out.push(s);
    assert(strings_view(*out) =~= before.push(sv));
}

/// Appends `flag item` for every item.
pub fn push_pairs(out: &mut Vec<String>, flag: &str, items: &Vec<String>)
    ensures
        strings_view(*final(out)) == strings_view(*old(out)) + flag_pairs(flag@, strings_view(*items)),
{
    let mut i: usize = 0;
    while i < items.len()
        invariant
            i <= items.len(),
            strings_view(*out) == strings_view(*old(out)) + flag_pairs(flag@, strings_view(*items).take(i as int)),
        decreases items.len() - i,
    {
        let ghost before = strings_view(*out);
        push_arg(out, flag);
        push_string(out, items[i].clone());
        let ghost t = strings_view(*items).take(i + 1);
        assert(t.drop_last() =~= strings_view(*items).take(i as int));
        assert(t.last() == items@[i as int]@);
        assert(strings_view(*out) =~= before + seq![flag@, items@[i as int]@]);
        i += 1;
    }
    assert(strings_view(*items).take(items.len() as int) =~= strings_view(*items));
}

/// Appends `flag value` when there is a value.
pub fn push_opt(out: &mut Vec<String>, flag: &str, o: &Option<String>)
    ensures
        strings_view(*final(out)) == strings_view(*old(out)) + opt_pair(flag@, crate::text::opt_view(*o)),
{
    match o {
        Some(v) => {
            let ghost before = strings_view(*out);
            push_arg(out, flag);
            push_string(out, v.clone());
            assert(strings_view(*out) =~= before + seq![flag@, v@]);
        },
        None => {
            assert(strings_view(*out) =~= strings_view(*out) + Seq::<Seq<char>>::empty());
        },
    }
}

/// `'name value'`.
pub fn macro_arg_exec(name: &String, value: &String) -> (r: String)
    ensures
        r@ == macro_arg(name@, value@),
{
    let mut v: Vec<char> = Vec::new();
    v.push('\'');
    append_chars(&mut v, &chars_of(name.as_str()));
    v.push(' ');
    append_chars(&mut v, &chars_of(value.as_str()));
    v.push('\'');
    assert(v@ =~= macro_arg(name@, value@));
    string_of(&v)
}

/// Appends `-D 'name value'` for every definition.
pub fn push_macros(out: &mut Vec<String>, defs: &Defs)
    ensures
        strings_view(*final(out)) == strings_view(*old(out)) + macro_args(defs.view()),
{
    let mut i: usize = 0;
    while i < defs.entries.len()
        invariant
            i <= defs.entries.len(),
            strings_view(*out) == strings_view(*old(out)) + macro_args(defs.view().take(i as int)),
        decreases defs.entries.len() - i,
    {
        let ghost before = strings_view(*out);
        push_arg(out, "-D");
        let a = macro_arg_exec(&defs.entries[i].0, &defs.entries[i].1);
        push_string(out, a);
        let ghost t = defs.view().take(i + 1);
        assert(t.drop_last() =~= defs.view().take(i as int));
        assert(t.last() == defs.view()[i as int]);
        assert(strings_view(*out) =~= before + seq!["-D"@, macro_arg(defs.view()[i as int].0, defs.view()[i as int].1)]);
        i += 1;
    }
    assert(defs.view().take(defs.entries.len() as int) =~= defs.view());
}

/// Whether `s` ends with `suffix`.
pub open spec fn ends_with(s: Seq<char>, suffix: Seq<char>) -> bool {
    s.len() >= suffix.len() && s.skip(s.len() - suffix.len()) == suffix
}

/// `str::ends_with` with a string suffix.
pub fn ends_with_exec(s: &str, suffix: &str) -> (r: bool)
    ensures
        r == ends_with(s@, suffix@),
{
    let a = chars_of(s);
    let b = chars_of(suffix);
    if a.len() < b.len() {
        return false;
    }
    let off = a.len() - b.len();
    let mut i: usize = 0;
    while i < b.len()
        invariant
            i <= b.len(),
            off + b.len() == a.len(),
            a@ == s@,
            b@ == suffix@,
            forall|j: int| 0 <= j < i ==> a@[off + j] == b@[j],
        decreases b.len() - i,
    {
        if a[off + i] != b[i] {
            assert(a@.skip(off as int)[i as int] != b@[i as int]);
            return false;
        }
        i += 1;
    }
    assert(a@.skip(off as int) =~= b@);
    true
}

} // verus!
