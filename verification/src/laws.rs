//! What holds of the scanner whatever the document: laws that relate its
//! parts to one another.
use crate::chars::{
    drop_front, is_printable, is_space, lemma_drop_none, lemma_run_len_split, run_len, trim_end,
    CharClass,
};
use crate::glyphs::{letter_text, symbol_text};
use crate::model::Env;
use vstd::prelude::*;

verus! {

/// While output is switched off, as it is inside a picture, writing changes
/// nothing. Once it is on again, what is written is appended to the output,
/// translated where a translation is in force. Writing never touches
/// anything but the output.
pub proof fn lemma_emit_gated(e: Env, text: Seq<char>)
    ensures
        e.pic ==> e.emit(text) == e,
        e.suppressed() ==> e.emit(text) == e,
        !e.suppressed() ==> e.emit(text).out == e.out + e.translated(text),
        e.emit(text) == (Env { out: e.emit(text).out, ..e }),
{
    reveal(Env::emit);
}

/// A special character `\(ab` of the letter class writes its text, is
/// consumed, and leaves the mark of its class.
pub proof fn lemma_letter_code(e: Env, a: char, b: char, tail: Seq<char>)
    requires
        e.rest == seq!['\\', '(', a, b] + tail,
        is_printable(a),
        is_printable(b),
        letter_text(a, b) is Some,
    ensures
        e.special_char() == (
            true,
            Env { specletter: true, rest: tail, ..e.emit(letter_text(a, b)->0) },
        ),
{
    reveal(Env::special_char);
    reveal(Env::emit);
    assert(drop_front(e.rest, 4) =~= tail);
    assert(e.rest[2] == a && e.rest[3] == b);
}

/// A special character `\(ab` that is not of the letter class is consumed all
/// the same, and leaves no mark. It writes the text of a symbol code, and
/// nothing where no table knows the code.
pub proof fn lemma_other_code(e: Env, a: char, b: char, tail: Seq<char>)
    requires
        e.rest == seq!['\\', '(', a, b] + tail,
        is_printable(a),
        is_printable(b),
        letter_text(a, b) is None,
    ensures
        e.special_char() == (
            true,
            Env {
                specletter: false,
                rest: tail,
                ..match symbol_text(a, b) {
                    Some(text) => e.emit(text),
                    None => e,
                }
            },
        ),
{
    reveal(Env::special_char);
    reveal(Env::emit);
    assert(drop_front(e.rest, 4) =~= tail);
    assert(e.rest[2] == a && e.rest[3] == b);
}

/// After a special character of the letter class the chain goes on with
/// what follows it.
pub proof fn lemma_chain_goes_on(e: Env)
    requires
        e.special_char().0,
        e.special_char().1.specletter,
    ensures
        e.chain() == e.special_char().1.chain(),
{
    reveal(Env::special_char);
    reveal(Env::emit);
    reveal(Env::chain);
}

/// The chain ends with the first special character that is not of the letter
/// class, and where no special character follows.
pub proof fn lemma_chain_stops(e: Env)
    requires
        !e.special_char().0 || !e.special_char().1.specletter,
    ensures
        e.chain() == e.special_char().1,
{
    reveal(Env::chain);
}

/// The request `ds NAME VALUE` defines the register `NAME` as `VALUE` without
/// its trailing white space. `raw` is all that follows the space after the
/// name, the newline included.
pub proof fn lemma_define_string(e: Env, name: Seq<char>, raw: Seq<char>)
    requires
        e.rest == seq!['d', 's', ' '] + name + seq![' '] + raw,
        name.len() > 0,
        forall|i: int| 0 <= i < name.len() ==> !is_space(#[trigger] name[i]),
    ensures
        e.macro_ds().0,
        e.macro_ds().1.regs == e.regs.insert(name, trim_end(raw)),
{
    reveal(is_space);
    reveal(Env::emit);
    let r1 = seq![' '] + name + seq![' '] + raw;
    let r2 = name + seq![' '] + raw;
    assert(e.advance(2).rest =~= r1);
    assert(r1.skip(1) =~= r2);
    assert(r2[0] == name[0]);
    lemma_run_len_split(r1, CharClass::Space, 1);
    assert(run_len(r2, CharClass::Space) == 0);
    assert(e.advance(2).trim().rest =~= r2);
    lemma_drop_none(r2);
    assert forall|i: int| 0 <= i < name.len() implies CharClass::Except(' ').has(
        #[trigger] r2[i],
    ) by {
        assert(r2[i] == name[i]);
    }
    lemma_run_len_split(r2, CharClass::Except(' '), name.len());
    let r3 = r2.skip(name.len() as int);
    assert(r3 =~= seq![' '] + raw);
    assert(r3[0] == ' ');
    assert(run_len(r3, CharClass::Except(' ')) == 0);
    assert(r2.take(name.len() as int) =~= name);
    assert(drop_front(r2, name.len() + 1) =~= raw);
}

/// A reference `\*[NAME]` to a defined register, on a line that has an
/// expansion left, is replaced by the value of the register, and the scanner
/// goes on there with one argument: the value is scanned, so that the escapes
/// in it do what they ask for.
pub proof fn lemma_reference_expands(e: Env, name: Seq<char>, tail: Seq<char>)
    requires
        e.rest == seq!['\\', '*', '['] + name + seq![']'] + tail,
        name.len() > 0,
        is_printable(name[0]),
        forall|i: int| 0 <= i < name.len() ==> #[trigger] name[i] != ']',
        e.regs.contains_key(name),
        e.budget > 0,
    ensures
        e.var() == (
            true,
            Env {
                rest: e.regs[name] + tail,
                budget: (e.budget - 1) as nat,
                ..e
            }.text_arg().1,
        ),
{
    let r1 = name + seq![']'] + tail;
    assert(e.rest[3] == name[0]);
    assert(e.advance(3).rest =~= r1);
    lemma_drop_none(r1);
    assert forall|i: int| 0 <= i < name.len() implies CharClass::Except(']').has(
        #[trigger] r1[i],
    ) by {
        assert(r1[i] == name[i]);
    }
    lemma_run_len_split(r1, CharClass::Except(']'), name.len());
    let r2 = r1.skip(name.len() as int);
    assert(r2 =~= seq![']'] + tail);
    assert(r2[0] == ']');
    assert(run_len(r2, CharClass::Except(']')) == 0);
    assert(r1.take(name.len() as int) =~= name);
    let named = e.advance(3).advance(name.len());
    assert(named.rest =~= r2);
    assert(named.advance(1).rest =~= tail);
    assert(named.advance(1) == Env { rest: tail, ..e });
}

/// A register defined by the request `ds NAME VALUE` and referred to later as
/// `\*[NAME]` gives back `VALUE`, scanned as an argument where it now stands.
/// `VALUE` is what the request holds after the name, without the white space
/// at its end.
pub proof fn lemma_register_round_trip(
    define: Env,
    name: Seq<char>,
    raw: Seq<char>,
    later: Env,
    tail: Seq<char>,
)
    requires
        define.rest == seq!['d', 's', ' '] + name + seq![' '] + raw,
        name.len() > 0,
        forall|i: int| 0 <= i < name.len() ==> !is_space(#[trigger] name[i]),
        forall|i: int| 0 <= i < name.len() ==> #[trigger] name[i] != ']',
        later.regs == define.macro_ds().1.regs,
        later.rest == seq!['\\', '*', '['] + name + seq![']'] + tail,
        later.budget > 0,
    ensures
        later.var() == (
            true,
            Env {
                rest: trim_end(raw) + tail,
                budget: (later.budget - 1) as nat,
                ..later
            }.text_arg().1,
        ),
{
    lemma_define_string(define, name, raw);
    assert(is_printable(name[0])) by {
        reveal(is_space);
    }
    lemma_reference_expands(later, name, tail);
}

} // verus!
