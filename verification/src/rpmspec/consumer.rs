//! A character source that the macro reader consumes from, with push-back.
use crate::rpmspec::reader::{read_line, read_line_exec};
use crate::text::{chars_of, string_of};
use vstd::prelude::*;

verus! {

/// Characters to be read: `text` from position `pos` on.
#[derive(Debug)]
pub struct Consumer {
    pub text: Vec<char>,
    pub pos: usize,
}

impl Consumer {
    /// The position is within the text.
    pub open spec fn wf(&self) -> bool {
        self.pos <= self.text.len()
    }

    /// The characters not read yet.
    pub open spec fn rest(&self) -> Seq<char> {
        self.text@.skip(self.pos as int)
    }

    /// A consumer of the characters of `s`.
    pub fn new(s: String) -> (c: Consumer)
        ensures
            c.wf(),
            c.text@ == s@,
            c.pos == 0,
    {
        Consumer { text: chars_of(s.as_str()), pos: 0 }
    }

    /// Puts `c` back in front of the characters not read yet.
    pub fn push(&mut self, c: char)
        requires
            old(self).wf(),
        ensures
            final(self).wf(),
            final(self).rest() == seq![c] + old(self).rest(),
    {
        if self.pos > 0 && self.text[self.pos - 1] == c {
            self.pos = self.pos - 1;
            assert(self.rest() =~= seq![c] + old(self).rest());
        } else {
            let mut t: Vec<char> = Vec::new();
            t.push(c);
            let mut i = self.pos;
            while i < self.text.len()
                invariant
                    self.pos <= i <= self.text.len(),
                    t@ == seq![c] + self.text@.subrange(self.pos as int, i as int),
                decreases self.text.len() - i,
            {
                t.push(self.text[i]);
                i += 1;
                assert(self.text@.subrange(self.pos as int, i as int)
                    =~= self.text@.subrange(self.pos as int, i - 1).push(self.text@[i - 1]));
            }
            assert(self.text@.subrange(self.pos as int, self.text.len() as int) =~= old(self).rest());
            self.text = t;
            self.pos = 0;
            assert(self.rest() =~= self.text@);
        }
    }

    /// The next character, if any.
    pub fn next(&mut self) -> (r: Option<char>)
        requires
            old(self).wf(),
        ensures
            final(self).wf(),
            final(self).text == old(self).text,
            old(self).rest().len() == 0 ==> r is None && final(self).pos == old(self).pos,
            old(self).rest().len() > 0 ==> r == Some(old(self).rest()[0])
                && final(self).pos == old(self).pos + 1,
    {
        if self.pos < self.text.len() {
            let c = self.text[self.pos];
            self.pos = self.pos + 1;
            Some(c)
        } else {
            None
        }
    }

    /// Reads up to the end of the line: see [`read_line`].
    pub fn read_til_eol(&mut self) -> (r: Option<String>)
        requires
            old(self).wf(),
        ensures
            final(self).wf(),
            final(self).text == old(self).text,
            final(self).pos as int == read_line(old(self).text@, old(self).pos as int, seq![], seq![]).1,
            match r {
                Some(s) => read_line(old(self).text@, old(self).pos as int, seq![], seq![]).0 == Some(s@),
                None => read_line(old(self).text@, old(self).pos as int, seq![], seq![]).0 is None,
            },
    {
        let (l, p) = read_line_exec(&self.text, self.pos);
        self.pos = p;
        match l {
            Some(v) => Some(string_of(&v)),
            None => None,
        }
    }
}

impl<'a> From<&'a str> for Consumer {
    fn from(value: &'a str) -> (c: Consumer)
        ensures
            c.wf(),
            c.text@ == value@,
            c.pos == 0,
    {
        Consumer { text: chars_of(value), pos: 0 }
    }
}

impl<'a> vstd::std_specs::convert::FromSpecImpl<&'a str> for Consumer {
    open spec fn obeys_from_spec() -> bool {
        false
    }

    open spec fn from_spec(v: &'a str) -> Consumer {
        choose|c: Consumer| c.text@ == v@ && c.pos == 0
    }
}

/// Reading right after putting a character back gives that character and
/// leaves the characters as they were before: `after_push` is what `push`
/// leaves of `before`, and `after_next` what `next` then leaves.
pub proof fn lemma_push_then_next(before: Consumer, after_push: Consumer, after_next: Consumer, c: char)
    requires
        before.wf(),
        after_push.wf(),
        after_push.rest() == seq![c] + before.rest(),
        after_next.text == after_push.text,
        after_next.pos == after_push.pos + 1,
    ensures
        after_push.rest().len() > 0,
        after_push.rest()[0] == c,
        after_next.rest() == before.rest(),
{
    assert(after_push.rest()[0] == c);
    assert(after_next.rest() =~= after_push.rest().skip(1));
    assert(after_push.rest().skip(1) =~= before.rest());
}

} // verus!
