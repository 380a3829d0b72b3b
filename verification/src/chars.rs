//! Character classes, runs of characters, and conversions between strings
//! and character vectors.
use vstd::prelude::*;

verus! {

/// Whether `c` is white space: the code points that carry the Unicode
/// `White_Space` property.
#[verifier::opaque]
pub open spec fn is_space(c: char) -> bool {
    ||| ('\u{9}' <= c && c <= '\u{d}')
    ||| c == ' '
    ||| c == '\u{85}'
    ||| c == '\u{a0}'
    ||| c == '\u{1680}'
    ||| ('\u{2000}' <= c && c <= '\u{200a}')
    ||| c == '\u{2028}'
    ||| c == '\u{2029}'
    ||| c == '\u{202f}'
    ||| c == '\u{205f}'
    ||| c == '\u{3000}'
}

/// Whether `c` is a decimal digit `0` to `9`.
pub open spec fn is_digit(c: char) -> bool {
    '0' <= c && c <= '9'
}

/// Whether `c` may stand in a word: an ASCII letter or an underscore.
pub open spec fn is_word_char(c: char) -> bool {
    ('a' <= c && c <= 'z') || ('A' <= c && c <= 'Z') || c == '_'
}

/// Whether `c` ends a run of argument text: one of the six ASCII white space
/// characters, or a backslash.
pub open spec fn is_arg_stop(c: char) -> bool {
    c == ' ' || c == '\t' || c == '\n' || c == '\r' || c == '\u{c}' || c == '\u{b}' || c == '\\'
}

/// Whether `c` is printable in the narrow sense of the scanner: anything but a
/// space, a tab or a newline.
pub open spec fn is_printable(c: char) -> bool {
    c != ' ' && c != '\t' && c != '\n'
}

/// Whether `c` carries the Unicode `Alphabetic` property, as
/// `char::is_alphabetic` reports it.
pub uninterp spec fn alphabetic(c: char) -> bool;

/// `char::is_alphabetic`: the answer is a fixed property of the code point,
/// named [`alphabetic`].
#[verifier::external_body]
fn is_alphabetic(c: char) -> (b: bool)
    ensures
        b == alphabetic(c),
{
    c.is_alphabetic()
}

/// `String::push`: appends one character to the end of the string.
#[verifier::external_body]
fn push_char(s: &mut String, c: char)
    ensures
        final(s)@ == old(s)@.push(c),
{
    s.push(c)
}

pub fn space(c: char) -> (b: bool)
    ensures
        b == is_space(c),
{
    reveal(is_space);
    (c >= '\u{9}' && c <= '\u{d}') || c == ' ' || c == '\u{85}' || c == '\u{a0}' || c == '\u{1680}'
        || (c >= '\u{2000}' && c <= '\u{200a}') || c == '\u{2028}' || c == '\u{2029}' || c
        == '\u{202f}' || c == '\u{205f}' || c == '\u{3000}'
}

pub fn digit(c: char) -> (b: bool)
    ensures
        b == is_digit(c),
{
    c >= '0' && c <= '9'
}

pub fn word_char(c: char) -> (b: bool)
    ensures
        b == is_word_char(c),
{
    (c >= 'a' && c <= 'z') || (c >= 'A' && c <= 'Z') || c == '_'
}

pub fn arg_stop(c: char) -> (b: bool)
    ensures
        b == is_arg_stop(c),
{
    c == ' ' || c == '\t' || c == '\n' || c == '\r' || c == '\u{c}' || c == '\u{b}' || c == '\\'
}

pub fn printable(c: char) -> (b: bool)
    ensures
        b == is_printable(c),
{
    c != ' ' && c != '\t' && c != '\n'
}

/// A set of characters that a scanner may run over.
#[derive(Clone, Copy)]
pub enum CharClass {
    /// White space.
    Space,
    /// Anything but white space.
    NonSpace,
    /// Decimal digits.
    Digit,
    /// ASCII letters and the underscore.
    Word,
    /// Alphabetic characters.
    Alpha,
    /// Anything that does not end a run of argument text.
    ArgText,
    /// Anything but the given character.
    Except(char),
    /// Anything but the two given characters.
    Except2(char, char),
    /// Anything but white space and the given character.
    NonSpaceExcept(char),
    /// The given character alone.
    Only(char),
}

impl CharClass {
    /// Whether `c` belongs to the class.
    pub open spec fn has(self, c: char) -> bool {
        match self {
            CharClass::Space => is_space(c),
            CharClass::NonSpace => !is_space(c),
            CharClass::Digit => is_digit(c),
            CharClass::Word => is_word_char(c),
            CharClass::Alpha => alphabetic(c),
            CharClass::ArgText => !is_arg_stop(c),
            CharClass::Except(x) => c != x,
            CharClass::Except2(x, y) => c != x && c != y,
            CharClass::NonSpaceExcept(x) => !is_space(c) && c != x,
            CharClass::Only(x) => c == x,
        }
    }

    pub fn contains(self, c: char) -> (b: bool)
        ensures
            b == self.has(c),
    {
        match self {
            CharClass::Space => space(c),
            CharClass::NonSpace => !space(c),
            CharClass::Digit => digit(c),
            CharClass::Word => word_char(c),
            CharClass::Alpha => is_alphabetic(c),
            CharClass::ArgText => !arg_stop(c),
            CharClass::Except(x) => c != x,
            CharClass::Except2(x, y) => c != x && c != y,
            CharClass::NonSpaceExcept(x) => !space(c) && c != x,
            CharClass::Only(x) => c == x,
        }
    }
}

/// The length of the longest prefix of `s` whose characters all belong to
/// `class`.
pub open spec fn run_len(s: Seq<char>, class: CharClass) -> nat
    decreases s.len(),
{
    if s.len() > 0 && class.has(s[0]) {
        1 + run_len(s.skip(1), class)
    } else {
        0
    }
}

/// The length of the longest suffix of `s` whose characters all belong to
/// `class`.
pub open spec fn tail_len(s: Seq<char>, class: CharClass) -> nat
    decreases s.len(),
{
    if s.len() > 0 && class.has(s.last()) {
        1 + tail_len(s.drop_last(), class)
    } else {
        0
    }
}

/// `s` without its first `n` characters; empty where `s` has no more than `n`.
pub open spec fn drop_front(s: Seq<char>, n: nat) -> Seq<char> {
    if n >= s.len() {
        Seq::empty()
    } else {
        s.skip(n as int)
    }
}

/// The first `n` characters of `s`; all of `s` where it has no more than `n`.
pub open spec fn front(s: Seq<char>, n: nat) -> Seq<char> {
    if n >= s.len() {
        s
    } else {
        s.take(n as int)
    }
}

/// Whether `s` starts with `p`.
pub open spec fn starts_with(s: Seq<char>, p: Seq<char>) -> bool {
    p.len() <= s.len() && s.take(p.len() as int) == p
}

/// `s` without leading white space.
pub open spec fn trim_start(s: Seq<char>) -> Seq<char> {
    drop_front(s, run_len(s, CharClass::Space))
}

/// `s` without trailing white space.
pub open spec fn trim_end(s: Seq<char>) -> Seq<char> {
    s.take(s.len() - tail_len(s, CharClass::Space))
}

/// Dropping nothing leaves a sequence as it is, and so does taking all of it.
pub proof fn lemma_drop_none(s: Seq<char>)
    ensures
        drop_front(s, 0) == s,
        front(s, s.len()) == s,
{
    assert(drop_front(s, 0) =~= s);
}

/// A run is a prefix: it is no longer than the sequence, every character in it
/// belongs to the class, and the character after it, if any, does not.
pub proof fn lemma_run_len(s: Seq<char>, class: CharClass)
    ensures
        run_len(s, class) <= s.len(),
        forall|i: int| 0 <= i < run_len(s, class) ==> class.has(#[trigger] s[i]),
        run_len(s, class) < s.len() ==> !class.has(s[run_len(s, class) as int]),
    decreases s.len(),
{
    if s.len() > 0 && class.has(s[0]) {
        let t = s.skip(1);
        lemma_run_len(t, class);
        assert forall|i: int| 0 <= i < run_len(s, class) implies class.has(#[trigger] s[i]) by {
            if i > 0 {
                assert(s[i] == t[i - 1]);
            }
        }
    }
}

/// A run that is cut after `k` of its characters goes on for the rest.
pub proof fn lemma_run_len_split(s: Seq<char>, class: CharClass, k: nat)
    requires
        k <= s.len(),
        forall|i: int| 0 <= i < k ==> class.has(#[trigger] s[i]),
    ensures
        run_len(s, class) == k + run_len(s.skip(k as int), class),
    decreases k,
{
    if k == 0 {
        assert(s.skip(0) =~= s);
    } else {
        let t = s.skip(1);
        assert forall|i: int| 0 <= i < k - 1 implies class.has(#[trigger] t[i]) by {
            assert(t[i] == s[i + 1]);
        }
        lemma_run_len_split(t, class, (k - 1) as nat);
        assert(t.skip(k - 1) =~= s.skip(k as int));
    }
}

/// The length of the run of `class` in `v` that starts at `from`.
pub fn run_from(v: &Vec<char>, from: usize, class: CharClass) -> (n: usize)
    requires
        from <= v.len(),
    ensures
        n == run_len(v@.skip(from as int), class),
        from + n <= v.len(),
{
    let ghost s = v@.skip(from as int);
    let mut n: usize = 0;
    while from + n < v.len() && class.contains(v[from + n])
        invariant
            from + n <= v.len(),
            s == v@.skip(from as int),
            forall|i: int| 0 <= i < n ==> class.has(#[trigger] s[i]),
        decreases v.len() - from - n,
    {
        n = n + 1;
    }
    proof {
        lemma_run_len_split(s, class, n as nat);
        lemma_run_len(s.skip(n as int), class);
        if from + n < v.len() {
            assert(s.skip(n as int)[0] == s[n as int]);
        }
    }
    n
}

/// The length of the trailing run of `class` in `v`.
pub fn tail_run(v: &Vec<char>, class: CharClass) -> (n: usize)
    ensures
        n == tail_len(v@, class),
        n <= v.len(),
{
    let mut n: usize = 0;
    assert(v@.take(v.len() as int) =~= v@);
    while n < v.len() && class.contains(v[v.len() - 1 - n])
        invariant
            n <= v.len(),
            tail_len(v@, class) == n + tail_len(v@.take(v.len() - n), class),
        decreases v.len() - n,
    {
        proof {
            let s = v@.take(v.len() - n);
            assert(s.last() == v@[v.len() - 1 - n]);
            assert(s.drop_last() =~= v@.take(v.len() - n - 1));
        }
        n = n + 1;
    }
    proof {
        let s = v@.take(v.len() - n);
        if n < v.len() {
            assert(s.last() == v@[v.len() - 1 - n]);
        }
    }
    n
}

/// A copy of the characters of `v` from `from` up to `to`.
pub fn slice(v: &Vec<char>, from: usize, to: usize) -> (r: Vec<char>)
    requires
        from <= to <= v.len(),
    ensures
        r@ == v@.subrange(from as int, to as int),
{
    let mut r: Vec<char> = Vec::new();
    let mut i: usize = from;
    while i < to
        invariant
            from <= i <= to,
            to <= v.len(),
            r@ == v@.subrange(from as int, i as int),
        decreases to - i,
    {
        r.push(v[i]);
        i = i + 1;
        assert(v@.subrange(from as int, i as int) =~= v@.subrange(from as int, i - 1).push(
            v@[i - 1],
        ));
    }
    r
}

/// The characters of `s`, in order.
pub fn to_chars(s: &str) -> (v: Vec<char>)
    ensures
        v@ == s@,
{
    let mut v: Vec<char> = Vec::new();
    for c in it: s.chars()
        invariant
            it.seq() == s@,
            v@ == s@.take(it.index() as int),
    {
        v.push(c);
    }
    v
}

/// The string made of the characters of `v`, in order.
pub fn to_string(v: &Vec<char>) -> (s: String)
    ensures
        s@ == v@,
{
    let mut s = String::new();
    let mut i: usize = 0;
    while i < v.len()
        invariant
            i <= v.len(),
            s@ == v@.take(i as int),
        decreases v.len() - i,
    {
        push_char(&mut s, v[i]);
        i = i + 1;
        assert(v@.take(i as int) =~= v@.take(i - 1).push(v@[i - 1]));
    }
    assert(v@.take(v.len() as int) =~= v@);
    s
}

/// Whether two character vectors hold the same characters.
pub fn same_chars(a: &Vec<char>, b: &Vec<char>) -> (r: bool)
    ensures
        r == (a@ == b@),
{
    if a.len() != b.len() {
        return false;
    }
    let mut i: usize = 0;
    while i < a.len()
        invariant
            a.len() == b.len(),
            i <= a.len(),
            a@.take(i as int) == b@.take(i as int),
        decreases a.len() - i,
    {
        if a[i] != b[i] {
            return false;
        }
        i = i + 1;
        assert(a@.take(i as int) =~= a@.take(i - 1).push(a@[i - 1]));
        assert(b@.take(i as int) =~= b@.take(i - 1).push(b@[i - 1]));
    }
    assert(a@.take(a.len() as int) =~= a@);
    assert(b@.take(b.len() as int) =~= b@);
    true
}

} // verus!
