//! Running the update scripts of projects: which projects take part, the
//! name of each task, and the summary printed when all have run.
use crate::build::defs::{defs_get, lemma_sorted_insert_get, sorted_defs, sorted_insert, str_lt, Defs};
use crate::text::{append_chars, chars_of, decimal, format_decimal, format_decimal_u64, string_of, utf8_len, utf8_len_exec};
use vstd::prelude::*;

verus! {

broadcast use vstd::seq_lib::to_multiset_insert, vstd::seq_lib::to_multiset_build;

/// A project's own labels with the global labels put over them, one after
/// the other in the order of the global labels.
pub open spec fn merged_labels(own: Seq<(Seq<char>, Seq<char>)>, global: Seq<(Seq<char>, Seq<char>)>) -> Seq<
    (Seq<char>, Seq<char>),
>
    decreases global.len(),
{
    if global.len() == 0 {
        own
    } else {
        sorted_insert(merged_labels(own, global.drop_last()), global.last().0, global.last().1)
    }
}

/// The labels of a project's update: its own, with the global labels put
/// over them (`BTreeMap::extend`).
pub fn merge_labels(own: &Defs, global: &Defs) -> (r: Defs)
    ensures
        r.view() == merged_labels(own.view(), global.view()),
{
    let mut r = own.copy();
    let mut i: usize = 0;
    while i < global.entries.len()
        invariant
            i <= global.entries.len(),
            r.view() == merged_labels(own.view(), global.view().take(i as int)),
        decreases global.entries.len() - i,
    {
        let ghost t = global.view().take(i + 1);
        assert(t.drop_last() =~= global.view().take(i as int));
        assert(t.last() == (global.entries@[i as int].0@, global.entries@[i as int].1@));
        r.insert(global.entries[i].0.clone(), global.entries[i].1.clone());
        i += 1;
    }
    assert(global.view().take(global.entries.len() as int) =~= global.view());
    r
}

/// The value of the last entry named `k`.
pub open spec fn last_get(s: Seq<(Seq<char>, Seq<char>)>, k: Seq<char>) -> Option<Seq<char>>
    decreases s.len(),
{
    if s.len() == 0 {
        None
    } else if s.last().0 == k {
        Some(s.last().1)
    } else {
        last_get(s.drop_last(), k)
    }
}

/// A global label is what the merged labels say of its name; any other name
/// keeps the project's own label.
pub proof fn lemma_merged_labels_get(own: Seq<(Seq<char>, Seq<char>)>, global: Seq<(Seq<char>, Seq<char>)>, k: Seq<char>)
    ensures
        defs_get(merged_labels(own, global), k) == match last_get(global, k) {
            Some(v) => Some(v),
            None => defs_get(own, k),
        },
    decreases global.len(),
{
    if global.len() > 0 {
        lemma_merged_labels_get(own, global.drop_last(), k);
        lemma_sorted_insert_get(merged_labels(own, global.drop_last()), global.last().0, global.last().1, k);
    }
}

/// In labels whose names are in order (as a map keeps them), the last entry
/// of a name is its only one.
pub proof fn lemma_last_get_sorted(s: Seq<(Seq<char>, Seq<char>)>, k: Seq<char>)
    requires
        sorted_defs(s),
    ensures
        last_get(s, k) == defs_get(s, k),
    decreases s.len(),
{
    if s.len() > 0 {
        let t = s.drop_last();
        assert(sorted_defs(t)) by {
            assert forall|i: int, j: int| 0 <= i < j < t.len() implies str_lt(#[trigger] t[i].0, #[trigger] t[j].0) by {
                assert(t[i] == s[i] && t[j] == s[j]);
            }
        }
        lemma_last_get_sorted(t, k);
        lemma_defs_get_push(t, s.last(), k);
        assert(t.push(s.last()) =~= s);
        if s.last().0 == k {
            lemma_defs_get_none_below(s, k);
        }
    }
}

proof fn lemma_defs_get_push(t: Seq<(Seq<char>, Seq<char>)>, x: (Seq<char>, Seq<char>), k: Seq<char>)
    ensures
        defs_get(t.push(x), k) == match defs_get(t, k) {
            Some(v) => Some(v),
            None => if x.0 == k {
                Some(x.1)
            } else {
                None
            },
        },
    decreases t.len(),
{
    reveal_with_fuel(defs_get, 2);
    if t.len() > 0 {
        assert(t.push(x)[0] == t[0]);
        assert(t.push(x).drop_first() =~= t.drop_first().push(x));
        lemma_defs_get_push(t.drop_first(), x, k);
    } else {
        assert(t.push(x)[0] == x);
        assert(t.push(x).drop_first() =~= Seq::<(Seq<char>, Seq<char>)>::empty());
    }
}

/// In sorted labels, no entry before the last has the last one's name.
proof fn lemma_defs_get_none_below(s: Seq<(Seq<char>, Seq<char>)>, k: Seq<char>)
    requires
        sorted_defs(s),
        s.len() > 0,
        s.last().0 == k,
    ensures
        defs_get(s.drop_last(), k) is None,
    decreases s.len(),
{
    let t = s.drop_last();
    if t.len() > 0 {
        assert(str_lt(s[0].0, s[s.len() - 1].0));
        crate::build::defs::lemma_str_lt_irreflexive(k);
        assert(t[0].0 != k);
        let s2 = s.drop_first();
        assert(sorted_defs(s2)) by {
            assert forall|i: int, j: int| 0 <= i < j < s2.len() implies str_lt(#[trigger] s2[i].0, #[trigger] s2[j].0) by {
                assert(s2[i] == s[i + 1] && s2[j] == s[j + 1]);
            }
        }
        lemma_defs_get_none_below(s2, k);
        assert(s2.drop_last() =~= t.drop_first());
    }
}

/// Whether the filters reject the labels: some filter names a label that is
/// set to another value.
pub open spec fn filtered_out(labels: Seq<(Seq<char>, Seq<char>)>, filters: Seq<(Seq<char>, Seq<char>)>) -> bool {
    exists|i: int|
        0 <= i < filters.len() && match defs_get(labels, (#[trigger] filters[i]).0) {
            Some(v) => v != filters[i].1,
            None => false,
        }
}

/// Whether the filters reject the labels.
pub fn is_filtered_out(labels: &Defs, filters: &Defs) -> (r: bool)
    ensures
        r == filtered_out(labels.view(), filters.view()),
{
    let mut i: usize = 0;
    while i < filters.entries.len()
        invariant
            i <= filters.entries.len(),
            forall|j: int|
                0 <= j < i ==> match defs_get(labels.view(), (#[trigger] filters.view()[j]).0) {
                    Some(v) => v == filters.view()[j].1,
                    None => true,
                },
        decreases filters.entries.len() - i,
    {
        let ghost f = filters.view()[i as int];
        assert(f == (filters.entries@[i as int].0@, filters.entries@[i as int].1@));
        match labels.get(filters.entries[i].0.as_str()) {
            Some(v) => {
                if !crate::text::chars_eq(&chars_of(v.as_str()), &chars_of(filters.entries[i].1.as_str())) {
                    assert(match defs_get(labels.view(), filters.view()[i as int].0) {
                        Some(v) => v != filters.view()[i as int].1,
                        None => false,
                    });
                    return true;
                }
            },
            None => {},
        }
        i += 1;
    }
    false
}

/// Whether a project's update runs: it has an update script, and the
/// filters do not reject its labels (its own with the global ones over
/// them).
pub fn runs_update(has_script: bool, own: &Defs, global: &Defs, filters: &Defs) -> (r: bool)
    ensures
        r == (has_script && !filtered_out(merged_labels(own.view(), global.view()), filters.view())),
{
    if !has_script {
        return false;
    }
    let labels = merge_labels(own, global);
    !is_filtered_out(&labels, filters)
}

/// The name of a project's update task: its first alias, or its own name
/// when it has none.
pub open spec fn task_name_of(name: Seq<char>, aliases: Option<Seq<Seq<char>>>) -> Seq<char> {
    match aliases {
        Some(a) => if a.len() > 0 {
            a[0]
        } else {
            name
        },
        None => name,
    }
}

/// The name of a project's update task.
pub fn task_name(name: &str, aliases: &Option<Vec<String>>) -> (r: String)
    ensures
        r@ == task_name_of(
            name@,
            match aliases {
                Some(a) => Some(crate::text::strings_view(*a)),
                None => None,
            },
        ),
{
    match aliases {
        Some(a) => {
            if a.len() > 0 {
                a[0].clone()
            } else {
                name.to_owned()
            }
        },
        None => name.to_owned(),
    }
}

/// The tasks as names and durations.
pub open spec fn tasks_view(v: Vec<(String, u64)>) -> Seq<(Seq<char>, u64)> {
    v@.map_values(|t: (String, u64)| (t.0@, t.1))
}

/// Longest first.
pub open spec fn sorted_desc(t: Seq<(Seq<char>, u64)>) -> bool {
    forall|i: int, j: int| 0 <= i < j < t.len() ==> (#[trigger] t[i]).1 >= (#[trigger] t[j]).1
}

/// The tasks ordered by duration, longest first.
pub fn sort_tasks(tasks: Vec<(String, u64)>) -> (r: Vec<(String, u64)>)
    ensures
        sorted_desc(tasks_view(r)),
        tasks_view(r).to_multiset() == tasks_view(tasks).to_multiset(),
{
    let ghost tv = tasks_view(tasks);
    let mut out: Vec<(String, u64)> = Vec::new();
    let mut i: usize = 0;
    assert(tasks_view(out) =~= tv.take(0));
    while i < tasks.len()
        invariant
            i <= tasks.len(),
            tv == tasks_view(tasks),
            sorted_desc(tasks_view(out)),
            tasks_view(out).to_multiset() == tv.take(i as int).to_multiset(),
        decreases tasks.len() - i,
    {
        let d = tasks[i].1;
        let mut p: usize = 0;
        while p < out.len() && out[p].1 >= d
            invariant
                p <= out.len(),
                forall|j: int| 0 <= j < p ==> out@[j].1 >= d,
            decreases out.len() - p,
        {
            p += 1;
        }
        let ghost before = tasks_view(out);
        let item = (tasks[i].0.clone(), d);
        let ghost iv = (item.0@, item.1);
        out.insert(p, item);
        assert(tasks_view(out) =~= before.insert(p as int, iv));
        assert(forall|j: int| 0 <= j < before.len() ==> before[j].1 == out@[if j < p { j } else { j + 1 }].1);
        assert forall|a: int, b: int| 0 <= a < b < tasks_view(out).len() implies (#[trigger] tasks_view(out)[a]).1
            >= (#[trigger] tasks_view(out)[b]).1 by {
            let s = tasks_view(out);
            if b < p {
                assert(s[a] == before[a] && s[b] == before[b]);
            } else if b == p {
                assert(s[a] == before[a]);
            } else if a == p {
                assert(s[b] == before[b - 1]);
                assert(before[p as int].1 < d);
                assert(before[p as int].1 >= before[b - 1].1 || p as int == b - 1);
            } else if a < p {
                assert(s[a] == before[a] && s[b] == before[b - 1]);
            } else {
                assert(s[a] == before[a - 1] && s[b] == before[b - 1]);
            }
        }
        assert(tv.take(i + 1) =~= tv.take(i as int).push(tv[i as int]));
        assert(tv[i as int] == iv);
        i += 1;
    }
    assert(tv.take(tasks.len() as int) =~= tv);
    out
}

/// `c` repeated `n` times.
pub open spec fn repeat_char(c: char, n: nat) -> Seq<char> {
    Seq::new(n, |_i: int| c)
}

/// `s` followed by spaces up to `w` characters (`{:<w}`).
pub open spec fn pad_right(s: Seq<char>, w: nat) -> Seq<char> {
    if s.len() >= w {
        s
    } else {
        s + repeat_char(' ', (w - s.len()) as nat)
    }
}

/// Spaces up to `w` characters, followed by `s` (`{:>w}`).
pub open spec fn pad_left(s: Seq<char>, w: nat) -> Seq<char> {
    if s.len() >= w {
        s
    } else {
        repeat_char(' ', (w - s.len()) as nat) + s
    }
}

/// The width of the name column: the longest name, in bytes, and at least
/// thirteen.
pub open spec fn name_width(t: Seq<(Seq<char>, u64)>) -> nat
    decreases t.len(),
{
    if t.len() == 0 {
        13
    } else {
        let w = name_width(t.drop_last());
        let l = utf8_len(t.last().0);
        if l > w {
            l
        } else {
            w
        }
    }
}

/// The row of the `n`th task (from zero): its number, its duration and its
/// name, the separators alternating between heavy and light.
pub open spec fn task_row(n: nat, name: Seq<char>, ms: u64) -> Seq<char> {
    let sep = if n % 2 == 0 {
        '┃'
    } else {
        '│'
    };
    pad_right(decimal(n + 1), 5) + seq![sep] + pad_left(decimal(ms as nat), 7) + seq![' ', sep, ' '] + name + seq!['\n']
}

/// The rows of the first `k` tasks.
pub open spec fn task_rows(t: Seq<(Seq<char>, u64)>, k: nat) -> Seq<char>
    decreases k,
{
    if k == 0 || k > t.len() {
        seq![]
    } else {
        task_rows(t, (k - 1) as nat) + task_row((k - 1) as nat, t[k - 1].0, t[k - 1].1)
    }
}

/// The summary of an update: how many of the projects' tasks finished and
/// how many of those started failed, then a table of the finished tasks in
/// the given order.
pub open spec fn update_summary(t: Seq<(Seq<char>, u64)>, project_count: nat, started: nat) -> Seq<char> {
    "\nFinished running "@ + decimal(t.len()) + seq!['/'] + decimal(project_count) + " tasks, "@ + decimal(
        (started - t.len()) as nat,
    ) + " failed fatally.\n"@ + "Here is a list of unfiltered tasks:\n\n"@ + "No.    Time/ms Project/alias\n"@
        + "═════╤════════╤═"@ + repeat_char('═', name_width(t)) + seq!['\n'] + task_rows(t, t.len())
}

fn push_repeat(v: &mut Vec<char>, c: char, n: usize)
    ensures
        final(v)@ == old(v)@ + repeat_char(c, n as nat),
{
    let mut k: usize = 0;
    while k < n
        invariant
            k <= n,
            v@ == old(v)@ + repeat_char(c, k as nat),
        decreases n - k,
    {
        v.push(c);
        k += 1;
        assert(v@ =~= old(v)@ + repeat_char(c, k as nat));
    }
}

fn push_padded_right(v: &mut Vec<char>, s: &Vec<char>, w: usize)
    ensures
        final(v)@ == old(v)@ + pad_right(s@, w as nat),
{
    append_chars(v, s);
    if s.len() < w {
        push_repeat(v, ' ', w - s.len());
    }
    assert(v@ =~= old(v)@ + pad_right(s@, w as nat));
}

fn push_padded_left(v: &mut Vec<char>, s: &Vec<char>, w: usize)
    ensures
        final(v)@ == old(v)@ + pad_left(s@, w as nat),
{
    if s.len() < w {
        push_repeat(v, ' ', w - s.len());
    }
    append_chars(v, s);
    assert(v@ =~= old(v)@ + pad_left(s@, w as nat));
}

/// The summary printed after the update tasks have run: `tasks` are the
/// finished ones with their durations in milliseconds, in the order to
/// list them; `started` counts the tasks started.
pub fn update_report(tasks: &Vec<(String, u64)>, project_count: usize, started: usize) -> (r: String)
    requires
        tasks.len() <= started,
        forall|i: int| 0 <= i < tasks@.len() ==> utf8_len((#[trigger] tasks@[i]).0@) <= usize::MAX,
    ensures
        r@ == update_summary(tasks_view(*tasks), project_count as nat, started as nat),
{
    let ghost t = tasks_view(*tasks);
    let mut v = chars_of("\nFinished running ");
    append_chars(&mut v, &format_decimal(tasks.len()));
    v.push('/');
    append_chars(&mut v, &format_decimal(project_count));
    append_chars(&mut v, &chars_of(" tasks, "));
    append_chars(&mut v, &format_decimal(started - tasks.len()));
    append_chars(&mut v, &chars_of(" failed fatally.\n"));
    append_chars(&mut v, &chars_of("Here is a list of unfiltered tasks:\n\n"));
    append_chars(&mut v, &chars_of("No.    Time/ms Project/alias\n"));
    append_chars(&mut v, &chars_of("═════╤════════╤═"));
    let mut width: usize = 13;
    let mut i: usize = 0;
    while i < tasks.len()
        invariant
            i <= tasks.len(),
            t == tasks_view(*tasks),
            forall|j: int| 0 <= j < tasks@.len() ==> utf8_len((#[trigger] tasks@[j]).0@) <= usize::MAX,
            width == name_width(t.take(i as int)),
        decreases tasks.len() - i,
    {
        assert(t.take(i + 1).drop_last() =~= t.take(i as int));
        assert(t.take(i + 1).last() == t[i as int]);
        assert(t[i as int].0 == tasks@[i as int].0@);
        let l = utf8_len_exec(tasks[i].0.as_str());
        if l > width {
            width = l;
        }
        i += 1;
    }
    assert(t.take(tasks.len() as int) =~= t);
    push_repeat(&mut v, '═', width);
    v.push('\n');
    let ghost head = v@;
    let mut k: usize = 0;
    while k < tasks.len()
        invariant
            k <= tasks.len(),
            t == tasks_view(*tasks),
            v@ == head + task_rows(t, k as nat),
        decreases tasks.len() - k,
    {
        let sep = if k % 2 == 0 {
            '┃'
        } else {
            '│'
        };
        let ghost before = v@;
        push_padded_right(&mut v, &format_decimal(k + 1), 5);
        v.push(sep);
        push_padded_left(&mut v, &format_decimal_u64(tasks[k].1), 7);
        v.push(' ');
        v.push(sep);
        v.push(' ');
        append_chars(&mut v, &chars_of(tasks[k].0.as_str()));
        v.push('\n');
        assert(t[k as int] == (tasks@[k as int].0@, tasks@[k as int].1));
        assert(v@ =~= before + task_row(k as nat, t[k as int].0, t[k as int].1));
        k += 1;
    }
    proof {
        reveal_strlit("\nFinished running ");
        reveal_strlit(" tasks, ");
        reveal_strlit(" failed fatally.\n");
        reveal_strlit("Here is a list of unfiltered tasks:\n\n");
        reveal_strlit("No.    Time/ms Project/alias\n");
        reveal_strlit("═════╤════════╤═");
    }
    assert(v@ =~= update_summary(t, project_count as nat, started as nat));
    string_of(&v)
}

} // verus!
