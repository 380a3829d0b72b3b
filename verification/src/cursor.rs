//! The cursor over the current line: the characters not yet consumed.
use crate::chars::{
    drop_front, front, lemma_run_len, lemma_run_len_split, run_len, starts_with, CharClass,
};
use vstd::prelude::*;

verus! {

/// The character `k` places into `s`, if there is one.
pub open spec fn peek_at(s: Seq<char>, k: nat) -> Option<char> {
    if k < s.len() {
        Some(s[k as int])
    } else {
        None
    }
}

/// `s` with every `from` replaced by `to`.
pub open spec fn replace_char(s: Seq<char>, from: char, to: char) -> Seq<char> {
    Seq::new(
        s.len(),
        |i: int|
            if s[i] == from {
                to
            } else {
                s[i]
            },
    )
}

/// A line and a position in it. What lies before the position has been
/// consumed; what lies at and after it is still to be read.
pub struct Cursor {
    chars: Vec<char>,
    pos: usize,
}

impl Cursor {
    /// The characters not yet consumed.
    pub closed spec fn rest(&self) -> Seq<char> {
        if self.pos <= self.chars.len() {
            self.chars@.subrange(self.pos as int, self.chars.len() as int)
        } else {
            Seq::empty()
        }
    }

    /// A cursor at the start of `chars`.
    pub fn new(chars: Vec<char>) -> (c: Cursor)
        ensures
            c.rest() == chars@,
    {
        let c = Cursor { chars, pos: 0 };
        assert(c.rest() =~= chars@);
        c
    }

    /// How many characters are left.
    pub fn len(&self) -> (n: usize)
        ensures
            n == self.rest().len(),
    {
        if self.pos <= self.chars.len() {
            self.chars.len() - self.pos
        } else {
            0
        }
    }

    /// Whether nothing is left.
    pub fn is_empty(&self) -> (b: bool)
        ensures
            b == (self.rest().len() == 0),
    {
        self.len() == 0
    }

    /// The character `k` places ahead, or `None` past the end of the line.
    pub fn peek(&self, k: usize) -> (r: Option<char>)
        ensures
            r == peek_at(self.rest(), k as nat),
    {
        if k < self.len() {
            Some(self.chars[self.pos + k])
        } else {
            None
        }
    }

    /// Whether the character `k` places ahead is `c`.
    pub fn at(&self, k: usize, c: char) -> (b: bool)
        ensures
            b == (peek_at(self.rest(), k as nat) == Some(c)),
    {
        match self.peek(k) {
            Some(x) => x == c,
            None => false,
        }
    }

    /// Whether a character stands `k` places ahead and belongs to `class`.
    pub fn in_class(&self, k: usize, class: CharClass) -> (b: bool)
        ensures
            b == match peek_at(self.rest(), k as nat) {
                Some(c) => class.has(c),
                None => false,
            },
    {
        match self.peek(k) {
            Some(x) => class.contains(x),
            None => false,
        }
    }

    /// Consumes `n` characters, or all that are left where they are fewer.
    pub fn advance(&mut self, n: usize)
        ensures
            final(self).rest() == drop_front(old(self).rest(), n as nat),
    {
        let left = self.len();
        if n >= left {
            self.pos = self.chars.len();
            assert(self.rest() =~= Seq::<char>::empty());
        } else {
            self.pos = self.pos + n;
            assert(self.rest() =~= old(self).rest().skip(n as int));
        }
    }

    /// The length of the run of `class` that starts `from` places ahead.
    pub fn run(&self, from: usize, class: CharClass) -> (n: usize)
        ensures
            n == run_len(drop_front(self.rest(), from as nat), class),
            from + n <= self.rest().len() || n == 0,
            self.rest().len() <= usize::MAX,
    {
        let left = self.len();
        if from >= left {
            return 0;
        }
        let ghost s = self.rest().skip(from as int);
        let mut n: usize = 0;
        while from + n < left && class.contains(self.chars[self.pos + from + n])
            invariant
                left == self.rest().len(),
                from < left,
                s == self.rest().skip(from as int),
                from + n <= left,
                self.pos + left == self.chars.len(),
                forall|i: int| 0 <= i < n ==> class.has(#[trigger] s[i]),
            decreases left - from - n,
        {
            n = n + 1;
        }
        proof {
            lemma_run_len_split(s, class, n as nat);
            lemma_run_len(s.skip(n as int), class);
            if from + n < left {
                assert(s.skip(n as int)[0] == s[n as int]);
            }
        }
        n
    }

    /// A copy of `n` characters that start `from` places ahead, cut short at
    /// the end of the line.
    pub fn copy(&self, from: usize, n: usize) -> (v: Vec<char>)
        ensures
            v@ == front(drop_front(self.rest(), from as nat), n as nat),
    {
        let mut v: Vec<char> = Vec::new();
        let left = self.len();
        if from >= left {
            return v;
        }
        let ghost s = self.rest().skip(from as int);
        let avail = left - from;
        let m = if n >= avail {
            avail
        } else {
            n
        };
        let mut i: usize = 0;
        while i < m
            invariant
                left == self.rest().len(),
                from < left,
                s == self.rest().skip(from as int),
                m <= left - from,
                i <= m,
                self.pos + left == self.chars.len(),
                v@ == s.take(i as int),
            decreases m - i,
        {
            v.push(self.chars[self.pos + from + i]);
            i = i + 1;
            assert(s.take(i as int) =~= s.take(i - 1).push(s[i - 1]));
        }
        assert(s.take(s.len() as int) =~= s);
        v
    }

    /// Whether what stands `from` places ahead starts with `p`.
    pub fn has_prefix(&self, from: usize, p: &Vec<char>) -> (b: bool)
        ensures
            b == starts_with(drop_front(self.rest(), from as nat), p@),
    {
        let head = self.copy(from, p.len());
        proof {
            let t = drop_front(self.rest(), from as nat);
            if p.len() == t.len() {
                assert(t.take(p.len() as int) =~= t);
            }
        }
        crate::chars::same_chars(&head, p)
    }

    /// Puts `value` in front of what is left.
    pub fn splice(&mut self, value: &Vec<char>)
        ensures
            final(self).rest() == value@ + old(self).rest(),
    {
        let left = self.len();
        let mut next: Vec<char> = Vec::new();
        let mut i: usize = 0;
        while i < value.len()
            invariant
                i <= value.len(),
                next@ == value@.take(i as int),
            decreases value.len() - i,
        {
            next.push(value[i]);
            i = i + 1;
            assert(value@.take(i as int) =~= value@.take(i - 1).push(value@[i - 1]));
        }
        assert(value@.take(value.len() as int) =~= value@);
        let ghost s = self.rest();
        let mut j: usize = 0;
        while j < left
            invariant
                left == self.rest().len(),
                s == self.rest(),
                j <= left,
                left > 0 ==> self.pos + left == self.chars.len(),
                next@ == value@ + s.take(j as int),
            decreases left - j,
        {
            next.push(self.chars[self.pos + j]);
            j = j + 1;
            assert(value@ + s.take(j as int) =~= (value@ + s.take(j - 1)).push(s[j - 1]));
        }
        assert(s.take(left as int) =~= s);
        self.pos = 0;
        self.chars = next;
        assert(self.rest() =~= value@ + s);
    }

    /// Replaces every `from` in what is left by `to`.
    pub fn replace(&mut self, from: char, to: char)
        ensures
            final(self).rest() == replace_char(old(self).rest(), from, to),
    {
        let left = self.len();
        let ghost s = self.rest();
        let mut j: usize = 0;
        while j < left
            invariant
                left == s.len(),
                j <= left,
                self.pos == old(self).pos,
                self.chars.len() == old(self).chars.len(),
                left > 0 ==> self.pos + left == self.chars.len(),
                forall|k: int|
                    self.pos <= k < self.pos + j ==> #[trigger] self.chars@[k] == replace_char(
                        s,
                        from,
                        to,
                    )[k - self.pos],
                forall|k: int|
                    self.pos + j <= k < self.pos + left ==> #[trigger] self.chars@[k] == s[k
                        - self.pos],
            decreases left - j,
        {
            if self.chars[self.pos + j] == from {
                let k = self.pos + j;
                self.chars.set(k, to);
            }
            j = j + 1;
        }
        assert(self.rest() =~= replace_char(s, from, to));
    }
}

} // verus!
