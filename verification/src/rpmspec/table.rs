//! The macro table: names mapped to macro bodies.
//!
//! A body that ends with a space marks a parametric macro (as written by
//! `%define name() body`); any other body is plain text.
use crate::text::{chars_eq, chars_of, copy_chars};
use vstd::prelude::*;

verus! {

/// The map described by a list of definitions, later ones overriding earlier ones.
pub open spec fn defs_map(s: Seq<(Seq<char>, Seq<char>)>) -> Map<Seq<char>, Seq<char>>
    decreases s.len(),
{
    if s.len() == 0 {
        Map::empty()
    } else {
        defs_map(s.drop_last()).insert(s.last().0, s.last().1)
    }
}

/// Names mapped to macro bodies.
#[derive(Clone)]
pub struct MacroTable {
    entries: Vec<(Vec<char>, Vec<char>)>,
}

impl View for MacroTable {
    type V = Map<Seq<char>, Seq<char>>;

    open spec fn view(&self) -> Map<Seq<char>, Seq<char>> {
        defs_map(self.defs())
    }
}

proof fn lemma_defs_map_suffix(s: Seq<(Seq<char>, Seq<char>)>, n: int, k: Seq<char>)
    requires
        0 <= n <= s.len(),
        forall|j: int| n <= j < s.len() ==> (#[trigger] s[j]).0 != k,
    ensures
        defs_map(s).contains_key(k) == defs_map(s.take(n)).contains_key(k),
        defs_map(s).contains_key(k) ==> defs_map(s)[k] == defs_map(s.take(n))[k],
    decreases s.len() - n,
{
    if n < s.len() {
        assert(s.drop_last() =~= s.take(s.len() - 1));
        lemma_defs_map_suffix(s.drop_last(), n, k);
        assert(s.drop_last().take(n) =~= s.take(n));
    } else {
        assert(s.take(n) =~= s);
    }
}

impl MacroTable {
    /// The definitions in order of insertion.
    pub closed spec fn defs(&self) -> Seq<(Seq<char>, Seq<char>)> {
        self.entries@.map_values(|e: (Vec<char>, Vec<char>)| (e.0@, e.1@))
    }

    /// An empty table.
    pub fn new() -> (t: Self)
        ensures
            t@ == Map::<Seq<char>, Seq<char>>::empty(),
    {
        let t = MacroTable { entries: Vec::new() };
        assert(t.defs() =~= Seq::<(Seq<char>, Seq<char>)>::empty());
        t
    }

    /// Defines (or redefines) a macro.
    pub fn insert(&mut self, name: String, body: String)
        ensures
            final(self)@ == old(self)@.insert(name@, body@),
    {
        let n = chars_of(name.as_str());
        let b = chars_of(body.as_str());
        self.insert_chars(n, b);
    }

    /// Defines (or redefines) a macro given as characters.
    pub fn insert_chars(&mut self, name: Vec<char>, body: Vec<char>)
        ensures
            final(self)@ == old(self)@.insert(name@, body@),
    {
        let ghost d = self.defs();
        let ghost e = (name@, body@);
        self.entries.push((name, body));
        assert(self.defs() =~= d.push(e));
        assert(self.defs().drop_last() =~= d);
    }

    /// The index of the last definition of `name`.
    fn find(&self, name: &[char]) -> (r: Option<usize>)
        ensures
            match r {
                Some(i) => i < self.defs().len() && self@.contains_key(name@)
                    && self@[name@] == self.defs()[i as int].1,
                None => !self@.contains_key(name@),
            },
    {
        let mut i = self.entries.len();
        while i > 0
            invariant
                i <= self.entries.len(),
                forall|j: int| i <= j < self.defs().len() ==> (#[trigger] self.defs()[j]).0 != name@,
            decreases i,
        {
            if chars_eq(&self.entries[i - 1].0, name) {
                proof {
                    let s = self.defs();
                    lemma_defs_map_suffix(s, i as int, name@);
                    assert(s.take(i as int).drop_last() =~= s.take(i - 1));
                }
                return Some(i - 1);
            }
            i -= 1;
        }
        proof {
            lemma_defs_map_suffix(self.defs(), 0, name@);
        }
        None
    }

    /// Whether `name` is defined.
    pub fn contains(&self, name: &[char]) -> (r: bool)
        ensures
            r == self@.contains_key(name@),
    {
        self.find(name).is_some()
    }

    /// The body of `name`, if it is defined.
    pub fn get(&self, name: &[char]) -> (r: Option<Vec<char>>)
        ensures
            match r {
                Some(b) => self@.contains_key(name@) && b@ == self@[name@],
                None => !self@.contains_key(name@),
            },
    {
        match self.find(name) {
            Some(i) => Some(copy_chars(&self.entries[i].1)),
            None => None,
        }
    }

    /// Removes every definition of `name`.
    pub fn remove(&mut self, name: &[char])
        ensures
            final(self)@ == old(self)@.remove(name@),
    {
        let ghost s = self.defs();
        let mut kept: Vec<(Vec<char>, Vec<char>)> = Vec::new();
        let mut i: usize = 0;
        while i < self.entries.len()
            invariant
                i <= self.entries.len(),
                s == self.defs(),
                defs_map(kept@.map_values(|e: (Vec<char>, Vec<char>)| (e.0@, e.1@)))
                    == defs_map(s.take(i as int)).remove(name@),
            decreases self.entries.len() - i,
        {
            let ghost before = kept@.map_values(|e: (Vec<char>, Vec<char>)| (e.0@, e.1@));
            assert(s.take(i + 1).drop_last() =~= s.take(i as int));
            if !chars_eq(&self.entries[i].0, name) {
                let k = copy_chars(&self.entries[i].0);
                let b = copy_chars(&self.entries[i].1);
                kept.push((k, b));
                let ghost after = kept@.map_values(|e: (Vec<char>, Vec<char>)| (e.0@, e.1@));
                assert(after.drop_last() =~= before);
                assert(defs_map(after) =~= defs_map(s.take(i + 1)).remove(name@));
            } else {
                assert(defs_map(before) =~= defs_map(s.take(i + 1)).remove(name@));
            }
            i += 1;
        }
        assert(s.take(s.len() as int) =~= s);
        self.entries = kept;
    }
}

} // verus!

verus! {

/// What outside work answered: keys whose work succeeded (with its output)
/// and keys whose work failed.
#[derive(Clone)]
pub struct Replies {
    pub ok: MacroTable,
    pub failed: MacroTable,
}

/// A recorded answer.
pub enum Reply {
    Success(Vec<char>),
    Failure,
    Unknown,
}

impl Replies {
    /// No answers recorded.
    pub fn new() -> (r: Self)
        ensures
            r.ok@ == Map::<Seq<char>, Seq<char>>::empty(),
            r.failed@ == Map::<Seq<char>, Seq<char>>::empty(),
    {
        Replies { ok: MacroTable::new(), failed: MacroTable::new() }
    }

    /// Records that the work for `key` succeeded with `output`.
    pub fn record_success(&mut self, key: String, output: String)
        ensures
            final(self).ok@ == old(self).ok@.insert(key@, output@),
            final(self).failed@ == old(self).failed@,
    {
        self.ok.insert(key, output);
    }

    /// Records that the work for `key` failed.
    pub fn record_failure(&mut self, key: String)
        ensures
            final(self).failed@ == old(self).failed@.insert(key@, Seq::empty()),
            final(self).ok@ == old(self).ok@,
    {
        self.failed.insert(key, String::new());
    }

    /// The answer recorded for `key`; a success wins over a failure.
    pub fn lookup(&self, key: &[char]) -> (r: Reply)
        ensures
            match r {
                Reply::Success(v) => self.ok@.contains_key(key@) && v@ == self.ok@[key@],
                Reply::Failure => !self.ok@.contains_key(key@) && self.failed@.contains_key(key@),
                Reply::Unknown => !self.ok@.contains_key(key@) && !self.failed@.contains_key(key@),
            },
    {
        match self.ok.get(key) {
            Some(v) => Reply::Success(v),
            None => if self.failed.contains(key) { Reply::Failure } else { Reply::Unknown },
        }
    }
}

} // verus!
