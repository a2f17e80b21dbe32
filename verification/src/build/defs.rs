//! Macro definitions for a build: names mapped to values, kept in the
//! order of their names (as a sorted map iterates).
use crate::text::chars_of;
use vstd::prelude::*;

verus! {

/// Lexicographic order on character sequences (the order of `str`).
pub open spec fn str_lt(a: Seq<char>, b: Seq<char>) -> bool
    decreases a.len(),
{
    if a.len() == 0 {
        b.len() > 0
    } else if b.len() == 0 {
        false
    } else if a[0] != b[0] {
        a[0] < b[0]
    } else {
        str_lt(a.drop_first(), b.drop_first())
    }
}

/// Entries in strictly increasing order of names.
pub open spec fn sorted_defs(s: Seq<(Seq<char>, Seq<char>)>) -> bool {
    forall|i: int, j: int| 0 <= i < j < s.len() ==> str_lt(#[trigger] s[i].0, #[trigger] s[j].0)
}

/// The entries after defining `k` as `v`: an entry named `k` gets the new
/// value; otherwise the new entry goes before the first entry whose name is
/// greater.
pub open spec fn sorted_insert(s: Seq<(Seq<char>, Seq<char>)>, k: Seq<char>, v: Seq<char>) -> Seq<(Seq<char>, Seq<char>)>
    decreases s.len(),
{
    if s.len() == 0 {
        seq![(k, v)]
    } else if s[0].0 == k {
        seq![(k, v)] + s.drop_first()
    } else if str_lt(k, s[0].0) {
        seq![(k, v)] + s
    } else {
        seq![s[0]] + sorted_insert(s.drop_first(), k, v)
    }
}


/// The value of the first entry named `k`.
pub open spec fn defs_get(s: Seq<(Seq<char>, Seq<char>)>, k: Seq<char>) -> Option<Seq<char>>
    decreases s.len(),
{
    if s.len() == 0 {
        None
    } else if s[0].0 == k {
        Some(s[0].1)
    } else {
        defs_get(s.drop_first(), k)
    }
}

pub(crate) proof fn lemma_str_lt_irreflexive(a: Seq<char>)
    ensures
        !str_lt(a, a),
    decreases a.len(),
{
    if a.len() > 0 {
        lemma_str_lt_irreflexive(a.drop_first());
    }
}

proof fn lemma_str_lt_transitive(a: Seq<char>, b: Seq<char>, c: Seq<char>)
    requires
        str_lt(a, b),
        str_lt(b, c),
    ensures
        str_lt(a, c),
    decreases a.len(),
{
    if a.len() > 0 && b.len() > 0 && c.len() > 0 && a[0] == b[0] && b[0] == c[0] {
        lemma_str_lt_transitive(a.drop_first(), b.drop_first(), c.drop_first());
    }
}

proof fn lemma_str_lt_total(a: Seq<char>, b: Seq<char>)
    ensures
        a == b || str_lt(a, b) || str_lt(b, a),
    decreases a.len(),
{
    if a.len() > 0 && b.len() > 0 && a[0] == b[0] {
        lemma_str_lt_total(a.drop_first(), b.drop_first());
        if a.drop_first() == b.drop_first() {
            assert(a =~= seq![a[0]] + a.drop_first());
            assert(b =~= seq![b[0]] + b.drop_first());
        }
    } else if a.len() == 0 && b.len() == 0 {
        assert(a =~= b);
    }
}

/// Every name in the entries after an insertion is the inserted name or a
/// name that was there before.
proof fn lemma_sorted_insert_names(s: Seq<(Seq<char>, Seq<char>)>, k: Seq<char>, v: Seq<char>, j: int)
    requires
        0 <= j < sorted_insert(s, k, v).len(),
    ensures
        sorted_insert(s, k, v)[j].0 == k || exists|i: int| 0 <= i < s.len() && s[i].0 == #[trigger] sorted_insert(s, k, v)[j].0,
    decreases s.len(),
{
    if s.len() == 0 {
    } else if s[0].0 == k {
        if j > 0 {
            assert(sorted_insert(s, k, v)[j] == s[j]);
        }
    } else if str_lt(k, s[0].0) {
        if j > 0 {
            assert(sorted_insert(s, k, v)[j] == s[j - 1]);
        }
    } else {
        if j > 0 {
            lemma_sorted_insert_names(s.drop_first(), k, v, j - 1);
            let t = sorted_insert(s.drop_first(), k, v);
            assert(sorted_insert(s, k, v)[j] == t[j - 1]);
            if t[j - 1].0 != k {
                let i = choose|i: int| 0 <= i < s.drop_first().len() && s.drop_first()[i].0 == t[j - 1].0;
                assert(s[i + 1].0 == t[j - 1].0);
            }
        } else {
            assert(sorted_insert(s, k, v)[0] == s[0]);
        }
    }
}

/// Defining a name keeps the definitions in increasing order of names
/// (as a sorted map keeps its keys).
pub proof fn lemma_sorted_insert_sorted(s: Seq<(Seq<char>, Seq<char>)>, k: Seq<char>, v: Seq<char>)
    requires
        sorted_defs(s),
    ensures
        sorted_defs(sorted_insert(s, k, v)),
    decreases s.len(),
{
    let r = sorted_insert(s, k, v);
    if s.len() == 0 {
    } else if s[0].0 == k {
        assert forall|i: int, j: int| 0 <= i < j < r.len() implies str_lt(#[trigger] r[i].0, #[trigger] r[j].0) by {
            assert(r[j] == s[j]);
            if i > 0 {
                assert(r[i] == s[i]);
            } else {
                assert(str_lt(s[0].0, s[j].0));
            }
        }
    } else if str_lt(k, s[0].0) {
        assert forall|i: int, j: int| 0 <= i < j < r.len() implies str_lt(#[trigger] r[i].0, #[trigger] r[j].0) by {
            assert(r[j] == s[j - 1]);
            if i > 0 {
                assert(r[i] == s[i - 1]);
            } else if j > 1 {
                assert(str_lt(s[0].0, s[j - 1].0));
                lemma_str_lt_transitive(k, s[0].0, s[j - 1].0);
            }
        }
    } else {
        let rest = s.drop_first();
        assert(sorted_defs(rest)) by {
            assert forall|i: int, j: int| 0 <= i < j < rest.len() implies str_lt(#[trigger] rest[i].0, #[trigger] rest[j].0) by {
                assert(rest[i] == s[i + 1] && rest[j] == s[j + 1]);
            }
        }
        lemma_sorted_insert_sorted(rest, k, v);
        lemma_str_lt_total(k, s[0].0);
        let t = sorted_insert(rest, k, v);
        assert(r == seq![s[0]] + t);
        assert forall|i: int, j: int| 0 <= i < j < r.len() implies str_lt(#[trigger] r[i].0, #[trigger] r[j].0) by {
            assert(r[j] == t[j - 1]);
            if i > 0 {
                assert(r[i] == t[i - 1]);
            } else {
                assert(r[0] == s[0]);
                lemma_sorted_insert_names(rest, k, v, j - 1);
                if t[j - 1].0 != k {
                    let m = choose|m: int| 0 <= m < rest.len() && rest[m].0 == t[j - 1].0;
                    assert(rest[m] == s[m + 1]);
                    assert(str_lt(s[0].0, s[m + 1].0));
                }
            }
        }
    }
}

/// After defining `k` as `v`, looking `k` up gives `v`, and every other
/// name gives what it gave before.
pub proof fn lemma_sorted_insert_get(s: Seq<(Seq<char>, Seq<char>)>, k: Seq<char>, v: Seq<char>, k2: Seq<char>)
    ensures
        defs_get(sorted_insert(s, k, v), k) == Some(v),
        k2 != k ==> defs_get(sorted_insert(s, k, v), k2) == defs_get(s, k2),
    decreases s.len(),
{
    let r = sorted_insert(s, k, v);
    if s.len() == 0 {
        assert(r[0] == (k, v));
        assert(r.drop_first() =~= Seq::<(Seq<char>, Seq<char>)>::empty());
        assert(k2 != k ==> defs_get(r, k2) == defs_get(r.drop_first(), k2));
    } else if s[0].0 == k {
        assert(r[0] == (k, v));
        assert(r.drop_first() =~= s.drop_first());
        assert(k2 != k ==> defs_get(r, k2) == defs_get(r.drop_first(), k2));
    } else if str_lt(k, s[0].0) {
        assert(r[0] == (k, v));
        assert(r.drop_first() =~= s);
        assert(k2 != k ==> defs_get(r, k2) == defs_get(r.drop_first(), k2));
    } else {
        lemma_sorted_insert_get(s.drop_first(), k, v, k2);
        assert(r[0] == s[0]);
        assert(r.drop_first() =~= sorted_insert(s.drop_first(), k, v));
        assert(s[0].0 != k2 ==> defs_get(r, k2) == defs_get(r.drop_first(), k2));
    }
}

/// Compares two character sequences: negative, zero or positive as `a` is
/// less than, equal to or greater than `b`.
pub fn str_compare(a: &[char], b: &[char]) -> (r: i8)
    ensures
        r < 0 <==> str_lt(a@, b@),
        r == 0 <==> a@ == b@,
        r > 0 <==> str_lt(b@, a@),
{
    let mut i: usize = 0;
    assert(a@.skip(0) =~= a@);
    assert(b@.skip(0) =~= b@);
    while i < a.len() && i < b.len()
        invariant
            i <= a.len(),
            i <= b.len(),
            a@.take(i as int) == b@.take(i as int),
            str_lt(a@, b@) == str_lt(a@.skip(i as int), b@.skip(i as int)),
            str_lt(b@, a@) == str_lt(b@.skip(i as int), a@.skip(i as int)),
            (a@ == b@) == (a@.skip(i as int) == b@.skip(i as int)),
        decreases a.len() - i,
    {
        let ghost sa = a@.skip(i as int);
        let ghost sb = b@.skip(i as int);
        assert(sa[0] == a@[i as int]);
        assert(sb[0] == b@[i as int]);
        if a[i] != b[i] {
            assert(sa != sb);
            if a[i] < b[i] {
                return -1;
            } else {
                return 1;
            }
        }
        assert(sa.drop_first() =~= a@.skip(i + 1));
        assert(sb.drop_first() =~= b@.skip(i + 1));
        assert(a@.take(i + 1) =~= a@.take(i as int).push(a@[i as int]));
        assert(b@.take(i + 1) =~= b@.take(i as int).push(b@[i as int]));
        proof {
            if sa == sb {
                assert(sa.drop_first() == sb.drop_first());
            }
            if sa.drop_first() == sb.drop_first() {
                assert(sa =~= seq![sa[0]] + sa.drop_first());
                assert(sb =~= seq![sb[0]] + sb.drop_first());
            }
        }
        i += 1;
    }
    let ghost sa = a@.skip(i as int);
    let ghost sb = b@.skip(i as int);
    if i < a.len() {
        assert(sb.len() == 0 && sa.len() > 0);
        1
    } else if i < b.len() {
        assert(sa.len() == 0 && sb.len() > 0);
        -1
    } else {
        assert(sa.len() == 0 && sb.len() == 0);
        assert(sa =~= sb);
        0
    }
}

/// Names mapped to values, in the order of their names.
#[derive(Debug)]
pub struct Defs {
    pub entries: Vec<(String, String)>,
}

/// The entries as pairs of character sequences.
pub open spec fn defs_view(v: Vec<(String, String)>) -> Seq<(Seq<char>, Seq<char>)> {
    v@.map_values(|e: (String, String)| (e.0@, e.1@))
}

impl Defs {
    pub open spec fn view(&self) -> Seq<(Seq<char>, Seq<char>)> {
        defs_view(self.entries)
    }

    /// No definitions.
    pub fn new() -> (d: Defs)
        ensures
            d.view() == Seq::<(Seq<char>, Seq<char>)>::empty(),
    {
        let d = Defs { entries: Vec::new() };
        assert(d.view() =~= Seq::<(Seq<char>, Seq<char>)>::empty());
        d
    }

    /// A copy of these definitions.
    pub fn copy(&self) -> (d: Defs)
        ensures
            d.view() == self.view(),
    {
        let mut out: Vec<(String, String)> = Vec::new();
        let mut i: usize = 0;
        while i < self.entries.len()
            invariant
                i <= self.entries.len(),
                defs_view(out) == self.view().take(i as int),
            decreases self.entries.len() - i,
        {
            let ghost before = defs_view(out);
            let k = self.entries[i].0.clone();
            let v = self.entries[i].1.clone();
            out.push((k, v));
            assert(defs_view(out) =~= before.push(self.view()[i as int]));
            assert(self.view().take(i + 1) =~= self.view().take(i as int).push(self.view()[i as int]));
            i += 1;
        }
        assert(self.view().take(self.entries.len() as int) =~= self.view());
        Defs { entries: out }
    }

    /// The value of `k`, if it is defined (`BTreeMap::get`).
    pub fn get(&self, k: &str) -> (r: Option<String>)
        ensures
            crate::text::opt_view(r) == defs_get(self.view(), k@),
    {
        let kc = chars_of(k);
        let mut i: usize = 0;
        assert(self.view().skip(0) =~= self.view());
        while i < self.entries.len()
            invariant
                i <= self.entries.len(),
                kc@ == k@,
                defs_get(self.view(), k@) == defs_get(self.view().skip(i as int), k@),
            decreases self.entries.len() - i,
        {
            let ghost rest = self.view().skip(i as int);
            assert(rest[0] == (self.entries@[i as int].0@, self.entries@[i as int].1@));
            assert(rest.drop_first() =~= self.view().skip(i + 1));
            if crate::text::chars_eq(&chars_of(self.entries[i].0.as_str()), &kc) {
                return Some(self.entries[i].1.clone());
            }
            i += 1;
        }
        None
    }

    /// Defines `name` as `value` (`BTreeMap::insert`).
    pub fn insert(&mut self, name: String, value: String)
        ensures
            final(self).view() == sorted_insert(old(self).view(), name@, value@),
    {
        let ghost s = self.view();
        let ghost goal = sorted_insert(s, name@, value@);
        let key = chars_of(name.as_str());
        let mut out: Vec<(String, String)> = Vec::new();
        let mut i: usize = 0;
        let n = self.entries.len();
        let mut c: i8 = 1;
        assert(s.skip(0) =~= s);
        assert(s.take(0) + sorted_insert(s, name@, value@) =~= sorted_insert(s, name@, value@));
        while i < n
            invariant_except_break
                c > 0,
            invariant
                i <= n,
                n == self.entries.len(),
                key@ == name@,
                s == self.view(),
                goal == sorted_insert(s, name@, value@),
                defs_view(out) == s.take(i as int),
                goal == s.take(i as int) + sorted_insert(s.skip(i as int), name@, value@),
            ensures
                i <= n,
                defs_view(out) == s.take(i as int),
                goal == s.take(i as int) + sorted_insert(s.skip(i as int), name@, value@),
                c > 0 ==> i == n,
                c <= 0 ==> i < n && (c == 0 <==> s[i as int].0 == name@) && (c < 0 <==> str_lt(name@, s[i as int].0)),
            decreases n - i,
        {
            let ghost rest = s.skip(i as int);
            assert(rest[0] == s[i as int]);
            let here = chars_of(self.entries[i].0.as_str());
            c = str_compare(&key, &here);
            if c <= 0 {
                break;
            }
            assert(rest.drop_first() =~= s.skip(i + 1));
            assert(s.take(i + 1) =~= s.take(i as int).push(s[i as int]));
            assert(s.take(i as int) + sorted_insert(rest, name@, value@) =~= s.take(i + 1) + sorted_insert(s.skip(i + 1), name@, value@));
            let ghost before = defs_view(out);
            let k = self.entries[i].0.clone();
            let v = self.entries[i].1.clone();
            out.push((k, v));
            assert(defs_view(out) =~= before.push(s[i as int]));
            i += 1;
        }
        let ghost mid = defs_view(out);
        out.push((name, value));
        assert(defs_view(out) =~= mid.push((name@, value@)));
        let mut j = if c == 0 { i + 1 } else { i };
        proof {
            if i == n {
                assert(s.skip(i as int) =~= Seq::<(Seq<char>, Seq<char>)>::empty());
            } else {
                assert(s.skip(i as int)[0] == s[i as int]);
                assert(s.skip(i as int).drop_first() =~= s.skip(i + 1));
            }
        }
        assert(goal == defs_view(out) + s.skip(j as int));
        while j < n
            invariant
                j <= n,
                n == self.entries.len(),
                s == self.view(),
                goal == defs_view(out) + s.skip(j as int),
            decreases n - j,
        {
            let ghost before = defs_view(out);
            let k = self.entries[j].0.clone();
            let v = self.entries[j].1.clone();
            out.push((k, v));
            assert(defs_view(out) =~= before.push(s[j as int]));
            assert(s.skip(j as int) =~= seq![s[j as int]] + s.skip(j + 1));
            j += 1;
        }
        assert(s.skip(n as int) =~= Seq::<(Seq<char>, Seq<char>)>::empty());
        assert(goal =~= defs_view(out));
        self.entries = out;
    }
}

} // verus!
