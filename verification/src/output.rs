//! The last pass over the output: long runs of newlines become one newline.
use crate::chars::{
    drop_front, lemma_run_len, lemma_run_len_split, run_from, run_len, CharClass,
};
use vstd::prelude::*;

verus! {

/// `s` with every run of three or more newlines replaced by one newline.
/// Shorter runs, and everything else, stay as they are.
pub open spec fn collapse(s: Seq<char>) -> Seq<char>
    decreases s.len(),
{
    if s.len() == 0 {
        Seq::empty()
    } else if s[0] != '\n' {
        seq![s[0]] + collapse(s.skip(1))
    } else {
        let n = run_len(s, CharClass::Only('\n'));
        newlines(n) + collapse(drop_front(s, n))
    }
}

/// What a run of `n` newlines becomes: itself where `n` is below three, else
/// one newline.
pub open spec fn newlines(n: nat) -> Seq<char> {
    if n == 1 || n >= 3 {
        seq!['\n']
    } else if n == 2 {
        seq!['\n', '\n']
    } else {
        Seq::empty()
    }
}

/// What is left of a sequence that does not start with a newline does not
/// start with one either.
proof fn lemma_collapse_head(s: Seq<char>)
    requires
        s.len() == 0 || s[0] != '\n',
    ensures
        collapse(s).len() == 0 || collapse(s)[0] != '\n',
{
}

/// Collapsing twice gives what collapsing once gives.
pub proof fn lemma_collapse_idempotent(s: Seq<char>)
    ensures
        collapse(collapse(s)) == collapse(s),
    decreases s.len(),
{
    let class = CharClass::Only('\n');
    if s.len() == 0 {
    } else if s[0] != '\n' {
        let r = s.skip(1);
        let once = seq![s[0]] + collapse(r);
        lemma_collapse_idempotent(r);
        assert(once.skip(1) =~= collapse(r));
    } else {
        let n = run_len(s, class);
        lemma_run_len(s, class);
        let t = s.skip(n as int);
        assert(t =~= drop_front(s, n));
        let b = newlines(n);
        let u = collapse(t);
        lemma_collapse_idempotent(t);
        if t.len() > 0 {
            assert(t[0] == s[n as int]);
        }
        lemma_collapse_head(t);
        let once = b + u;
        assert(collapse(s) == once);
        lemma_run_len_split(once, class, b.len());
        assert(once.skip(b.len() as int) =~= u);
        assert(run_len(u, class) == 0);
        assert(newlines(b.len()) =~= b);
    }
}

/// The characters of `v` with every run of three or more newlines replaced by
/// one newline.
pub fn collapse_newlines(v: &Vec<char>) -> (r: Vec<char>)
    ensures
        r@ == collapse(v@),
{
    let mut r: Vec<char> = Vec::new();
    let mut i: usize = 0;
    assert(v@.skip(0) =~= v@);
    while i < v.len()
        invariant
            i <= v.len(),
            r@ + collapse(v@.skip(i as int)) == collapse(v@),
        decreases v.len() - i,
    {
        let ghost s = v@.skip(i as int);
        let ghost before = r@;
        if v[i] != '\n' {
            r.push(v[i]);
            i = i + 1;
            assert(s.skip(1) =~= v@.skip(i as int));
            assert(r@ + collapse(v@.skip(i as int)) =~= before + collapse(s));
        } else {
            let n = run_from(v, i, CharClass::Only('\n'));
            r.push('\n');
            if n == 2 {
                r.push('\n');
            }
            assert(r@ =~= before + newlines(n as nat));
            i = i + n;
            assert(drop_front(s, n as nat) =~= v@.skip(i as int));
            assert(r@ + collapse(v@.skip(i as int)) =~= before + collapse(s));
        }
    }
    assert(collapse(v@.skip(v.len() as int)) =~= Seq::<char>::empty());
    assert(r@ + Seq::<char>::empty() =~= r@);
    r
}

} // verus!
