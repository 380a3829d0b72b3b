//! Scanning comes to an end: a recognizer that finds its construct moves the
//! scanner towards the end of the line, and one that does not never moves it
//! away from there.
//!
//! The distance to the end of the line is counted in expansions first and in
//! characters second ([`Env::less`]): the expansion of a string register may
//! make the line longer, but it uses up one of the expansions that the line
//! has.
use crate::chars::{lemma_drop_none, lemma_run_len, CharClass};
use crate::model::Env;
use vstd::prelude::*;

verus! {

/// The recognizers that call no other: each consumes at least one character
/// where it finds its construct, and leaves the line alone where it does not.
/// None of them expands anything.
pub proof fn lemma_plain_progress(e: Env)
    ensures
        e.number().0 ==> e.number().1.less(e),
        !e.number().0 ==> e.number().1 == e,
        e.font().0 ==> e.font().1.less(e),
        !e.font().0 ==> e.font().1 == e,
        e.comment().0 ==> e.comment().1.less(e),
        !e.comment().0 ==> e.comment().1 == e,
        e.size().0 ==> e.size().1.less(e),
        !e.size().0 ==> e.size().1 == e,
        e.esc().0 ==> e.esc().1.less(e),
        !e.esc().0 ==> e.esc().1 == e,
        e.number_register().0 && e.rest.len() > 0 ==> e.number_register().1.less(e),
        !e.number_register().0 ==> e.number_register().1 == e,
{
    reveal(Env::emit);
    reveal(Env::number);
    reveal(Env::font);
    reveal(Env::comment);
    reveal(Env::size);
    reveal(Env::esc);
    reveal(Env::number_register);
    lemma_drop_none(e.rest);
    lemma_run_len(e.rest, CharClass::Except('\n'));
}

/// A special character consumes two or four characters where one stands at
/// the cursor, and nothing where none does.
pub proof fn lemma_special_char_progress(e: Env)
    ensures
        e.special_char().0 ==> e.special_char().1.less(e),
        e.special_char().1.budget == e.budget,
        !e.special_char().0 ==> e.special_char().1.rest == e.rest,
{
    reveal(Env::emit);
    reveal(Env::special_char);
}

/// A chain of special characters only consumes.
pub proof fn lemma_chain_progress(e: Env)
    ensures
        e.chain().rest.len() <= e.rest.len(),
        e.chain().budget == e.budget,
    decreases e.rest.len(),
{
    reveal(Env::chain);
    lemma_special_char_progress(e);
    let (found, e1) = e.special_char();
    if found && e1.specletter && e1.rest.len() < e.rest.len() {
        lemma_chain_progress(e1);
    }
}

/// A word consumes at least one character where one is found, and leaves
/// the state alone where none is.
pub proof fn lemma_word_progress(e: Env, got: bool)
    ensures
        e.word_loop(got).1.rest.len() <= e.rest.len(),
        e.word_loop(got).1.budget == e.budget,
        e.word_loop(got).0 && !got ==> e.word_loop(got).1.rest.len() < e.rest.len(),
        !e.word_loop(got).0 ==> e.word_loop(got).1 == e,
        got ==> e.word_loop(got).0,
    decreases e.rest.len(),
{
    reveal(Env::emit);
    reveal(Env::word_loop);
    lemma_drop_none(e.rest);
    let n = e.run(0, CharClass::Word);
    if n != 0 {
        let e1 = e.emit_front(n).chain();
        lemma_chain_progress(e.emit_front(n));
        if e1.rest.len() < e.rest.len() {
            lemma_word_progress(e1, true);
        }
    }
}

/// The expansion of a register uses up an expansion where it takes place,
/// and changes nothing where it does not.
pub proof fn lemma_expand_progress(e: Env, name: Seq<char>)
    ensures
        e.expand(name).0 ==> e.expand(name).1.less(e),
        !e.expand(name).0 ==> e.expand(name).1 == e,
    decreases e.budget, e.rest.len(), 6nat,
{
    if e.regs.contains_key(name) && e.budget > 0 {
        lemma_text_arg_progress(e.spliced(name));
    }
}

/// A reference to a string register moves towards the end of the line where
/// the register is expanded. Where it is not, the name may be consumed all
/// the same.
pub proof fn lemma_string_register_progress(e: Env)
    ensures
        e.string_register().0 ==> e.string_register().1.less(e),
        e.string_register().1.no_more(e),
    decreases e.budget, e.rest.len(), 7nat,
{
    if e.at(2, '(') && e.printable_at(3) && e.printable_at(4) {
        lemma_expand_progress(e.advance(5), e.rest.subrange(3, 5));
    } else if e.at(2, '[') && e.printable_at(3) {
        let opened = e.advance(3);
        let n = opened.run(0, CharClass::Except(']'));
        let named = opened.advance(n);
        if named.at(0, ']') {
            lemma_expand_progress(named.advance(1), crate::chars::front(opened.rest, n));
        }
    } else if e.printable_at(2) {
        lemma_expand_progress(e.advance(3), seq![e.rest[2]]);
    }
}

/// A reference to a register moves towards the end of the line where it is
/// found, and never away from it.
pub proof fn lemma_var_progress(e: Env)
    ensures
        e.var().0 ==> e.var().1.less(e),
        e.var().1.no_more(e),
    decreases e.budget, e.rest.len(), 8nat,
{
    if e.at(0, '\\') && e.at(1, 'n') {
        lemma_plain_progress(e);
    } else if e.at(0, '\\') && e.at(1, '*') {
        lemma_string_register_progress(e);
    }
}

/// The body of a motion escape never moves away from the end of the line.
pub proof fn lemma_numreq_body_progress(e: Env)
    ensures
        e.numreq_body().no_more(e),
    decreases e.budget, e.rest.len(), 11nat,
{
    if !(e.rest.len() == 0 || e.rest[0] == '\'') {
        lemma_esc_char_progress(e);
        let (found, e1) = e.esc_char();
        if found && e1.less(e) {
            lemma_numreq_body_progress(e1);
        }
    }
}

/// A motion escape consumes at least its first two characters.
pub proof fn lemma_numreq_progress(e: Env)
    ensures
        e.numreq().0 ==> e.numreq().1.less(e),
        !e.numreq().0 ==> e.numreq().1 == e,
    decreases e.budget, e.rest.len(), 8nat,
{
    if e.at(0, '\\') && e.rest.len() >= 2 && crate::model::is_motion(e.rest[1]) {
        lemma_numreq_body_progress(Env { in_macro: true, ..e.advance(3) });
    }
}

/// An escape moves towards the end of the line where it is found, and never
/// away from it.
pub proof fn lemma_esc_char_backslash_progress(e: Env)
    ensures
        e.esc_char_backslash().0 ==> e.esc_char_backslash().1.less(e),
        e.esc_char_backslash().1.no_more(e),
    decreases e.budget, e.rest.len(), 9nat,
{
    if e.at(0, '\\') && e.rest.len() >= 2 {
        let c = e.rest[1];
        if c == '"' || c == 'f' || c == 's' {
            lemma_plain_progress(e);
        } else if crate::model::is_motion(c) {
            lemma_numreq_progress(e);
        } else if c == 'n' || c == '*' {
            lemma_var_progress(e);
        } else if c == '(' {
            lemma_special_char_progress(e);
        } else {
            lemma_plain_progress(e);
        }
    }
}

/// An escape, a word or a number moves towards the end of the line where it
/// is found, and never away from it.
pub proof fn lemma_esc_char_progress(e: Env)
    ensures
        e.esc_char().0 ==> e.esc_char().1.less(e),
        e.esc_char().1.no_more(e),
    decreases e.budget, e.rest.len(), 10nat,
{
    if e.rest.len() == 0 {
    } else if e.rest[0] == '\\' {
        lemma_esc_char_backslash_progress(e);
    } else {
        lemma_word_progress(e, false);
        reveal(Env::word_loop);
        lemma_plain_progress(e.word().1);
    }
}

/// The rounds of an argument never move away from the end of the line, and
/// move towards it where anything but escapes is found.
pub proof fn lemma_text_arg_loop_progress(e: Env, got: bool)
    ensures
        e.text_arg_loop(got).1.no_more(e),
        e.text_arg_loop(got).0 && !got ==> e.text_arg_loop(got).1.less(e),
    decreases e.budget, e.rest.len(), 11nat,
{
    lemma_drop_none(e.rest);
    let n = e.run(0, CharClass::ArgText);
    if n > 0 {
        let e1 = e.emit_front(n);
        assert(e1.less(e)) by {
            reveal(Env::emit);
        }
        lemma_text_arg_loop_progress(e1, true);
        assert(e.text_arg_loop(got) == e1.text_arg_loop(true));
    } else if e.rest.len() == 0 || e.rest[0] != '\\' {
        assert(e.text_arg_loop(got) == (got, e));
    } else {
        lemma_esc_char_progress(e);
        let (found, e1) = e.esc_char();
        if found {
            lemma_text_arg_loop_progress(e1, got);
            assert(e.text_arg_loop(got) == e1.text_arg_loop(got));
        } else {
            let e2 = e1.emit_front(1);
            assert(e2.less(e)) by {
                reveal(Env::emit);
            }
            lemma_text_arg_loop_progress(e2, true);
            assert(e.text_arg_loop(got) == e2.text_arg_loop(true));
        }
    }
}

/// An argument never moves away from the end of the line, and moves towards
/// it where anything but escapes is found.
pub proof fn lemma_text_arg_progress(e: Env)
    ensures
        e.text_arg().1.no_more(e),
        e.text_arg().0 ==> e.text_arg().1.less(e),
    decreases e.budget, e.rest.len(), 12nat,
{
    lemma_text_arg_loop_progress(e, false);
}

/// What stands between two quotes never moves the scanner away from the end
/// of the line.
pub proof fn lemma_quoted_body_progress(e: Env)
    ensures
        e.quoted_body().no_more(e),
    decreases e.budget, e.rest.len(), 11nat,
{
    reveal(Env::quoted_body);
    if !(e.rest.len() == 0 || e.rest[0] == '"') {
        lemma_esc_char_progress(e);
        let (found, e1) = e.esc_char();
        let e2 = if found {
            e1
        } else {
            e1.emit_front(1)
        };
        assert(e2.less(e)) by {
            reveal(Env::emit);
        }
        lemma_quoted_body_progress(e2);
    }
}

/// A quoted argument consumes at least its opening quote.
pub proof fn lemma_quoted_arg_progress(e: Env)
    ensures
        e.quoted_arg().0 ==> e.quoted_arg().1.less(e),
        !e.quoted_arg().0 ==> e.quoted_arg().1 == e,
{
    reveal(Env::quoted_arg);
    if e.at(0, '"') {
        lemma_quoted_body_progress(e.advance(1));
    }
}

/// A line of text never moves the scanner away from the end of the line.
pub proof fn lemma_text_progress(e: Env)
    ensures
        e.text().no_more(e),
    decreases e.budget, e.rest.len(), 11nat,
{
    reveal(Env::text_loop);
    reveal(Env::emit);
    lemma_drop_none(e.rest);
    let n = e.run(0, CharClass::Except('\\'));
    if n < e.rest.len() {
        let e1 = e.emit_front(n);
        lemma_esc_char_backslash_progress(e1);
        let (found, e2) = e1.esc_char_backslash();
        let e3 = if found {
            e2
        } else {
            e2.emit_front(1)
        };
        lemma_run_len(e.rest, CharClass::Except('\\'));
        assert(e3.less(e));
        lemma_text_progress(e3);
    }
}

/// The arguments of a request never move the scanner away from the end of
/// the line.
pub proof fn lemma_args_progress(e: Env)
    ensures
        e.args_loop().no_more(e),
    decreases e.budget, e.rest.len(), 13nat,
{
    reveal(Env::args_loop);
    lemma_quoted_arg_progress(e);
    let (quoted, e1) = e.quoted_arg();
    if quoted {
        lemma_args_progress(e1);
    } else {
        lemma_text_arg_progress(e);
        let (plain, e2) = e.text_arg();
        if plain {
            lemma_args_progress(e2);
        } else if e2.rest.len() > 0 {
            let e3 = e2.emit_front(1);
            assert(e3.less(e)) by {
                reveal(Env::emit);
            }
            lemma_args_progress(e3);
        }
    }
}

} // verus!
