//! The character translation table, and the decoding of raw bytes into text.
use crate::chars::{to_chars, to_string};
use encoding_rs_io::DecodeReaderBytes;
use std::collections::HashMap;
use std::io::Read;
use vstd::prelude::*;
use vstd::utf8::{decode_utf8, valid_utf8};

verus! {

/// The error of a reader.
#[verifier::external_type_specification]
#[verifier::external_body]
pub struct ExIoError(std::io::Error);

/// Whether `bytes` start with a byte order mark: that of UTF-8, or one of the
/// two of UTF-16. Fewer than three bytes never do.
pub open spec fn starts_with_mark(bytes: Seq<u8>) -> bool {
    &&& bytes.len() >= 3
    &&& {
        ||| (bytes[0] == 0xEF && bytes[1] == 0xBB && bytes[2] == 0xBF)
        ||| (bytes[0] == 0xFF && bytes[1] == 0xFE)
        ||| (bytes[0] == 0xFE && bytes[1] == 0xFF)
    }
}

/// The text that `bytes` decode to, or `None` where they decode to no text.
///
/// Bytes that start with a byte order mark are read in the encoding that the
/// mark stands for; all others are taken to be UTF-8 as they stand.
pub uninterp spec fn decoded(bytes: Seq<u8>) -> Option<Seq<char>>;

/// Decodes a document that was read as raw bytes.
///
/// `encoding_rs_io::DecodeReaderBytes::new` over the bytes, read to its end
/// with `Read::read_to_string`. The outcome depends on the bytes alone, and
/// is named [`decoded`]. Bytes without a byte order mark pass through the
/// decoder unchanged, so that they give the text that they encode in UTF-8,
/// and an error where they encode none. Of bytes with a mark nothing more
/// than the name is claimed here.
#[verifier::external_body]
pub fn decode_bytes(bytes: &[u8]) -> (r: std::io::Result<String>)
    ensures
        match r {
            Ok(text) => decoded(bytes@) == Some(text@),
            Err(_) => decoded(bytes@) is None,
        },
        !starts_with_mark(bytes@) ==> match r {
            Ok(text) => valid_utf8(bytes@) && text@ == decode_utf8(bytes@),
            Err(_) => !valid_utf8(bytes@),
        },
{
    let mut decoder = DecodeReaderBytes::new(bytes);
    let mut dest = String::new();
    decoder.read_to_string(&mut dest)?;
    Ok(dest)
}

/// The map that sends `f[i]` to `t[i]` for each `i` below `n`. Where a
/// character stands at several places of `f`, the last of them counts.
pub open spec fn table_upto(f: Seq<char>, t: Seq<char>, n: nat) -> Map<char, char>
    decreases n,
{
    if n == 0 {
        Map::empty()
    } else {
        table_upto(f, t, (n - 1) as nat).insert(f[n - 1], t[n - 1])
    }
}

/// The map that pairs the characters of `f` with those of `t`, place by place,
/// as far as both reach.
pub open spec fn pairs_table(f: Seq<char>, t: Seq<char>) -> Map<char, char> {
    table_upto(
        f,
        t,
        if f.len() <= t.len() {
            f.len()
        } else {
            t.len()
        },
    )
}

/// What `m` makes of `c`: its image where `m` has one, else `c` itself.
pub open spec fn translate_char(m: Map<char, char>, c: char) -> char {
    if m.contains_key(c) {
        m[c]
    } else {
        c
    }
}

/// `s` with each character translated by `m`.
pub open spec fn translate_seq(m: Map<char, char>, s: Seq<char>) -> Seq<char> {
    Seq::new(s.len(), |i: int| translate_char(m, s[i]))
}

/// The message of the error that [`TranslationTable::new`] returns.
pub open spec fn length_error() -> Seq<char> {
    "Arguments passed to `TranslationTable::new` must have equal character length"@
}

/// A character-to-character substitution.
pub struct TranslationTable {
    table: HashMap<u32, char>,
}

impl View for TranslationTable {
    type V = Map<char, char>;

    closed spec fn view(&self) -> Map<char, char> {
        Map::new(
            |c: char| self.table@.contains_key(c as u32),
            |c: char| self.table@[c as u32],
        )
    }
}

impl TranslationTable {
    /// The table without any pair.
    pub fn empty() -> (r: Self)
        ensures
            r@ == Map::<char, char>::empty(),
    {
        let r = TranslationTable { table: HashMap::new() };
        assert(r@ =~= Map::<char, char>::empty());
        r
    }

    /// Makes `from` translate to `to`, in place of what it translated to
    /// before.
    pub fn set(&mut self, from: char, to: char)
        ensures
            final(self)@ == old(self)@.insert(from, to),
    {
        self.table.insert(from as u32, to);
        assert forall|c: char|
            self@.contains_key(c) == #[trigger] old(self)@.insert(from, to).contains_key(
                c,
            ) && (self@.contains_key(c) ==> self@[c] == old(self)@.insert(from, to)[c]) by {
            if c as u32 == from as u32 {
                lemma_same_code(c, from);
            }
        }
        assert(self@.dom() =~= old(self)@.insert(from, to).dom());
        assert(self@ =~= old(self)@.insert(from, to));
    }

    /// The table that pairs the characters of `f` with those of `t`, place by
    /// place, as far as both reach.
    pub fn from_chars(f: &Vec<char>, t: &Vec<char>) -> (r: Self)
        ensures
            r@ == pairs_table(f@, t@),
    {
        let n = if f.len() <= t.len() {
            f.len()
        } else {
            t.len()
        };
        let mut r = TranslationTable::empty();
        let mut i: usize = 0;
        while i < n
            invariant
                i <= n,
                n <= f.len(),
                n <= t.len(),
                r@ == table_upto(f@, t@, i as nat),
            decreases n - i,
        {
            r.set(f[i], t[i]);
            i = i + 1;
        }
        r
    }

    /// The table that sends each character of `f` to the character at the
    /// same place of `t`. The two must have as many characters as each other;
    /// otherwise this is an error.
    pub fn new(f: &str, t: &str) -> (r: Result<Self, &'static str>)
        ensures
            r is Ok <==> f@.len() == t@.len(),
            r matches Ok(table) ==> table@ == pairs_table(f@, t@),
            r matches Err(message) ==> message@ == length_error(),
    {
        let from = to_chars(f);
        let to = to_chars(t);
        if from.len() != to.len() {
            Err("Arguments passed to `TranslationTable::new` must have equal character length")
        } else {
            Ok(TranslationTable::from_chars(&from, &to))
        }
    }

    /// What the table makes of `c`.
    pub fn get(&self, c: char) -> (r: Option<char>)
        ensures
            r == if self@.contains_key(c) {
                Some(self@[c])
            } else {
                None::<char>
            },
    {
        let key = c as u32;
        match self.table.get(&key) {
            Some(x) => Some(*x),
            None => None,
        }
    }

    /// `c` translated: its image where the table has one, else `c` itself.
    pub fn translate_char(&self, c: char) -> (r: char)
        ensures
            r == translate_char(self@, c),
    {
        match self.get(c) {
            Some(x) => x,
            None => c,
        }
    }

    /// `s` with each character translated.
    pub fn translate(&self, s: &str) -> (r: String)
        ensures
            r@ == translate_seq(self@, s@),
    {
        let chars = to_chars(s);
        let mut out: Vec<char> = Vec::new();
        let mut i: usize = 0;
        while i < chars.len()
            invariant
                i <= chars.len(),
                chars@ == s@,
                out@ == translate_seq(self@, s@.take(i as int)),
            decreases chars.len() - i,
        {
            out.push(self.translate_char(chars[i]));
            i = i + 1;
            assert(translate_seq(self@, s@.take(i as int)) =~= translate_seq(
                self@,
                s@.take(i - 1),
            ).push(translate_char(self@, s@[i - 1])));
        }
        assert(s@.take(chars.len() as int) =~= s@);
        to_string(&out)
    }
}

/// Two characters with the same code are the same character.
proof fn lemma_same_code(a: char, b: char)
    requires
        a as u32 == b as u32,
    ensures
        a == b,
{
}

/// A table built from `f` and `t` translates a character of `f` to the
/// character at the same place of `t`, provided that it does not stand again
/// later in `f`; where it does, its last place counts.
pub proof fn lemma_translates_listed(f: Seq<char>, t: Seq<char>, i: int)
    requires
        f.len() == t.len(),
        0 <= i < f.len(),
        forall|j: int| i < j < f.len() ==> f[j] != f[i],
    ensures
        translate_char(pairs_table(f, t), f[i]) == t[i],
{
    lemma_table_hit(f, t, f.len(), i);
}

/// A table built from `f` and `t` leaves a character that does not stand in
/// `f` as it is.
pub proof fn lemma_translates_unlisted(f: Seq<char>, t: Seq<char>, c: char)
    requires
        f.len() == t.len(),
        forall|j: int| 0 <= j < f.len() ==> f[j] != c,
    ensures
        translate_char(pairs_table(f, t), c) == c,
{
    lemma_table_miss(f, t, f.len(), c);
}

/// A character at a place of `f` after which it does not stand again is
/// translated to the character at the same place of `t`.
pub proof fn lemma_table_hit(f: Seq<char>, t: Seq<char>, n: nat, i: int)
    requires
        n <= f.len(),
        n <= t.len(),
        0 <= i < n,
        forall|j: int| i < j < n ==> f[j] != f[i],
    ensures
        table_upto(f, t, n).contains_key(f[i]),
        table_upto(f, t, n)[f[i]] == t[i],
    decreases n,
{
    if i < n - 1 {
        lemma_table_hit(f, t, (n - 1) as nat, i);
    }
}

/// A character that stands nowhere in `f` has no image.
pub proof fn lemma_table_miss(f: Seq<char>, t: Seq<char>, n: nat, c: char)
    requires
        n <= f.len(),
        forall|j: int| 0 <= j < n ==> f[j] != c,
    ensures
        !table_upto(f, t, n).contains_key(c),
    decreases n,
{
    if n > 0 {
        lemma_table_miss(f, t, (n - 1) as nat, c);
    }
}

} // verus!
