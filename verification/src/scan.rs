//! The recognizers: each looks for one construct at the cursor, consumes it
//! where it is found, and says whether it was.
use crate::chars::{lemma_drop_none, CharClass};
use crate::deroff::Deroffer;
use crate::glyphs::{g_specs, g_specs_specletter};
use crate::model::{esc_text, Env, Flag};
use vstd::prelude::*;

verus! {

/// What the escape `\c` stands for.
fn esc_chars(c: char) -> (text: Vec<char>)
    ensures
        text@ == esc_text(c),
{
    let mut text: Vec<char> = Vec::new();
    if c == 'e' || c == 'E' {
        text.push('\\');
    } else if c == 't' {
        text.push('\t');
    } else if c == '0' || c == '~' {
        text.push(' ');
    } else if c == '|' || c == '^' || c == '&' || c == ':' {
    } else {
        text.push(c);
    }
    assert(text@ =~= esc_text(c));
    text
}

impl Deroffer {
    /// Scans a number: an optional sign and digits. It is written as it
    /// stands.
    pub fn number(&mut self) -> (r: bool)
        ensures
            (r, final(self)@) == old(self)@.number(),
            r ==> final(self)@.less(old(self)@),
            !r ==> final(self)@ == old(self)@,
    {
        reveal(Env::number);
        let sign: usize = if self.at(0, '+') || self.at(0, '-') {
            1
        } else {
            0
        };
        let digits = self.run(sign, CharClass::Digit);
        if digits > 0 {
            self.emit_front(sign + digits);
            true
        } else {
            false
        }
    }

    /// Scans a font escape, `\f(XY`, `\f[...]` or `\fX`, and drops it.
    pub fn font(&mut self) -> (r: bool)
        ensures
            (r, final(self)@) == old(self)@.font(),
            r ==> final(self)@.less(old(self)@),
            !r ==> final(self)@ == old(self)@,
    {
        reveal(Env::font);
        if !(self.at(0, '\\') && self.at(1, 'f')) {
            return false;
        }
        let c = match self.peek(2) {
            Some(c) => c,
            None => {
                return false;
            },
        };
        if c == '(' && self.in_class(3, CharClass::NonSpace) && self.in_class(
            4,
            CharClass::NonSpace,
        ) {
            self.skip_char(5);
            return true;
        }
        let inside = self.run(3, CharClass::NonSpaceExcept(']'));
        if c == '[' && self.at(3 + inside, ']') {
            self.skip_char(3 + inside + 1);
            true
        } else if !crate::chars::space(c) {
            self.skip_char(3);
            true
        } else {
            false
        }
    }

    /// Scans a comment, `\"` and what follows it on the line, and drops it.
    /// The newline stays.
    pub fn comment(&mut self) -> (r: bool)
        ensures
            (r, final(self)@) == old(self)@.comment(),
            r ==> final(self)@.less(old(self)@),
            !r ==> final(self)@ == old(self)@,
    {
        reveal(Env::comment);
        if self.at(0, '\\') && self.at(1, '"') {
            let n = self.run(0, CharClass::Except('\n'));
            proof {
                lemma_drop_none(self@.rest);
            }
            self.skip_char(n);
            true
        } else {
            false
        }
    }

    /// Scans a change of type size, `\s` with an optional sign and digits,
    /// and drops it.
    pub fn size(&mut self) -> (r: bool)
        ensures
            (r, final(self)@) == old(self)@.size(),
            r ==> final(self)@.less(old(self)@),
            !r ==> final(self)@ == old(self)@,
    {
        reveal(Env::size);
        if self.at(0, '\\') && self.at(1, 's') && (self.digit(2) || ((self.at(2, '-')
            || self.at(2, '+')) && self.digit(3))) {
            self.skip_char(3);
            let n = self.run(0, CharClass::Digit);
            proof {
                lemma_drop_none(self@.rest);
            }
            self.skip_char(n);
            true
        } else {
            false
        }
    }

    /// Scans a backslash and the character after it, and writes what the two
    /// stand for: a backslash for `\e`, a tab for `\t`, a space for `\0` and
    /// `\~`, nothing for `\|`, `\^`, `\&` and `\:`, and else the character
    /// itself.
    pub fn esc(&mut self) -> (r: bool)
        ensures
            (r, final(self)@) == old(self)@.esc(),
            r ==> final(self)@.less(old(self)@),
            !r ==> final(self)@ == old(self)@,
    {
        reveal(Env::esc);
        if !self.at(0, '\\') {
            return false;
        }
        match self.peek(1) {
            Some(c) => {
                let text = esc_chars(c);
                self.emit(&text);
                self.skip_char(2);
                true
            },
            None => false,
        }
    }

    /// Scans a special character: `\(XY` for two printable characters, or the
    /// soft hyphen `\%`. A code of the letter class, and after it a symbol
    /// code, is looked up and its text written; a code that neither table
    /// knows is consumed and nothing is written. Notes whether the code was
    /// of the letter class.
    pub fn special_char(&mut self) -> (r: bool)
        ensures
            (r, final(self)@) == old(self)@.special_char(),
            r ==> final(self)@.less(old(self)@),
            !r ==> final(self)@.rest == old(self)@.rest,
            final(self)@.budget == old(self)@.budget,
    {
        reveal(Env::special_char);
        self.set_flag(Flag::Specletter, false);
        if self.at(0, '\\') && self.at(1, '(') && self.not_whitespace(2)
            && self.not_whitespace(3) {
            let a = match self.peek(2) {
                Some(c) => c,
                None => ' ',
            };
            let b = match self.peek(3) {
                Some(c) => c,
                None => ' ',
            };
            match g_specs_specletter(a, b) {
                Some(text) => {
                    self.condputs(text);
                    self.set_flag(Flag::Specletter, true);
                },
                None => match g_specs(a, b) {
                    Some(text) => {
                        self.condputs(text);
                    },
                    None => {},
                },
            }
            self.skip_char(4);
            true
        } else if self.at(0, '\\') && self.at(1, '%') {
            self.set_flag(Flag::Specletter, true);
            self.skip_char(2);
            true
        } else {
            false
        }
    }

    /// Scans the special characters that follow one another at the cursor, as
    /// long as each is of the letter class.
    fn chain(&mut self)
        ensures
            final(self)@ == old(self)@.chain(),
            final(self)@.rest.len() <= old(self)@.rest.len(),
            final(self)@.budget == old(self)@.budget,
    {
        let mut done = false;
        while !done
            invariant
                done ==> self@ == old(self)@.chain(),
                !done ==> self@.chain() == old(self)@.chain(),
                self@.rest.len() <= old(self)@.rest.len(),
                self@.budget == old(self)@.budget,
            decreases
                    if done {
                        0
                    } else {
                        1 + self@.rest.len()
                    },
        {
            reveal(Env::chain);
            let found = self.special_char();
            if !(found && self.flag(Flag::Specletter)) {
                done = true;
            }
        }
    }

    /// Scans a word: runs of letters and underscores, each followed by the
    /// special characters of the letter class that stand right after it. The
    /// word is written.
    pub fn word(&mut self) -> (r: bool)
        ensures
            (r, final(self)@) == old(self)@.word(),
            r ==> final(self)@.less(old(self)@),
            !r ==> final(self)@ == old(self)@,
            final(self)@.budget == old(self)@.budget,
    {
        let mut got = false;
        let mut done = false;
        while !done
            invariant
                done ==> (got, self@) == old(self)@.word(),
                !done ==> self@.word_loop(got) == old(self)@.word(),
                self@.rest.len() <= old(self)@.rest.len(),
                got ==> self@.rest.len() < old(self)@.rest.len(),
                !got ==> self@ == old(self)@,
                self@.budget == old(self)@.budget,
            decreases
                    if done {
                        0
                    } else {
                        1 + self@.rest.len()
                    },
        {
            reveal(Env::word_loop);
            let n = self.run(0, CharClass::Word);
            proof {
                lemma_drop_none(self@.rest);
            }
            if n == 0 {
                done = true;
            } else {
                self.emit_front(n);
                self.chain();
                got = true;
            }
        }
        got
    }
}

impl Deroffer {
    /// Scans a reference to a number register, `\n?dy`, `\n(XY`, `\n[NAME`
    /// or `\nX`, and drops it, the backslash and the `n` included. Of the
    /// third form the `]` stays.
    fn number_register(&mut self) -> (r: bool)
        ensures
            (r, final(self)@) == old(self)@.number_register(),
            r && old(self)@.rest.len() > 0 ==> final(self)@.less(old(self)@),
            !r ==> final(self)@ == old(self)@,
            final(self)@.no_more(old(self)@),
    {
        reveal(Env::number_register);
        if (self.at(3, 'd') && self.at(4, 'y')) || (self.at(2, '(')
            && self.not_whitespace(3) && self.not_whitespace(4)) {
            self.skip_char(5);
            true
        } else if self.at(2, '[') && self.not_whitespace(3) {
            self.skip_char(3);
            let n = self.run(0, CharClass::Except(']'));
            proof {
                lemma_drop_none(self@.rest);
            }
            self.skip_char(n);
            true
        } else if self.not_whitespace(2) {
            self.skip_char(3);
            true
        } else {
            false
        }
    }

    /// Expands the string register `name`: its value is put in front of what
    /// is left of the line, and one argument is scanned there. Fails, and
    /// changes nothing, where the register is not defined or the line has
    /// used up its expansions.
    fn expand(&mut self, name: &Vec<char>) -> (r: bool)
        ensures
            (r, final(self)@) == old(self)@.expand(name@),
            r ==> final(self)@.less(old(self)@),
            !r ==> final(self)@ == old(self)@,
        decreases old(self)@.budget, old(self)@.rest.len(), 6nat,
    {
        if self.splice_register(name) {
            self.text_arg();
            true
        } else {
            false
        }
    }

    /// Scans a reference to a string register, `\*(XY`, `\*[NAME]` or `\*X`,
    /// and expands the register. The name is consumed even where the register
    /// turns out not to be defined, and a bracketed name without its `]`
    /// takes the rest of the line with it.
    fn string_register(&mut self) -> (r: bool)
        ensures
            (r, final(self)@) == old(self)@.string_register(),
            r ==> final(self)@.less(old(self)@),
            final(self)@.no_more(old(self)@),
        decreases old(self)@.budget, old(self)@.rest.len(), 7nat,
    {
        if self.at(2, '(') && self.not_whitespace(3) && self.not_whitespace(4) {
            let ghost start = self@;
            let name = self.copy(3, 2);
            assert(name@ =~= self@.rest.subrange(3, 5));
            self.skip_char(5);
            assert(self@ == start.advance(5));
            self.expand(&name)
        } else if self.at(2, '[') && self.not_whitespace(3) {
            let ghost start = self@;
            self.skip_char(3);
            let ghost opened = self@;
            assert(opened == start.advance(3));
            let n = self.run(0, CharClass::Except(']'));
            let name = self.copy(0, n);
            proof {
                lemma_drop_none(self@.rest);
            }
            self.skip_char(n);
            let ghost named = self@;
            assert(named == opened.advance(n as nat));
            if self.at(0, ']') {
                self.skip_char(1);
                assert(self@ == named.advance(1));
                self.expand(&name)
            } else {
                false
            }
        } else if self.not_whitespace(2) {
            let ghost start = self@;
            let name = self.copy(2, 1);
            assert(name@ =~= seq![self@.rest[2]]);
            self.skip_char(3);
            assert(self@ == start.advance(3));
            self.expand(&name)
        } else {
            false
        }
    }

    /// Scans a reference to a register. One to a number register, `\n`, is
    /// dropped. One to a string register, `\*`, is replaced by the value of
    /// the register, and one argument is scanned at once where the value now
    /// stands; where the register is not defined the verdict is `false`, with
    /// the name already consumed.
    pub fn var(&mut self) -> (r: bool)
        ensures
            (r, final(self)@) == old(self)@.var(),
            r ==> final(self)@.less(old(self)@),
            final(self)@.no_more(old(self)@),
            !r && !old(self)@.at(1, '*') ==> final(self)@ == old(self)@,
        decreases old(self)@.budget, old(self)@.rest.len(), 8nat,
    {
        if self.at(0, '\\') && self.at(1, 'n') {
            self.number_register()
        } else if self.at(0, '\\') && self.at(1, '*') {
            self.string_register()
        } else {
            false
        }
    }

    /// Scans what stands between the quotes of a motion or width escape.
    fn numreq_body(&mut self)
        ensures
            final(self)@ == old(self)@.numreq_body(),
            final(self)@.no_more(old(self)@),
        decreases old(self)@.budget, old(self)@.rest.len(), 11nat,
    {
        let mut done = false;
        while !done
            invariant
                done ==> self@ == old(self)@.numreq_body(),
                !done ==> self@.numreq_body() == old(self)@.numreq_body(),
                self@.no_more(old(self)@),
            decreases
                    self@.budget,
                    self@.rest.len(),
                    if done {
                        0nat
                    } else {
                        1nat
                    },
        {
                if self.remaining() == 0 || self.at(0, '\'') {
                done = true;
            } else {
                let found = self.esc_char();
                if !found {
                    done = true;
                }
            }
        }
    }

    /// Scans a motion or width escape: a backslash, one of `h v w u d`, a
    /// quote, and a body that runs to the closing quote. Output is switched
    /// off while the body is scanned, so that nothing of it is written.
    pub fn numreq(&mut self) -> (r: bool)
        ensures
            (r, final(self)@) == old(self)@.numreq(),
            r ==> final(self)@.less(old(self)@),
            !r ==> final(self)@ == old(self)@,
        decreases old(self)@.budget, old(self)@.rest.len(), 8nat,
    {
        let motion = match self.peek(1) {
            Some(c) => c == 'h' || c == 'v' || c == 'w' || c == 'u' || c == 'd',
            None => false,
        };
        if !(self.at(0, '\\') && motion) {
            return false;
        }
        let ghost start = self@;
        let saved = self.flag(Flag::InMacro);
        self.skip_char(3);
        self.set_flag(Flag::InMacro, true);
        let ghost opened = self@;
        assert(opened == Env { in_macro: true, ..start.advance(3) });
        assert(opened.less(start));
        self.numreq_body();
        let ghost body = self@;
        assert(body == opened.numreq_body());
        if self.at(0, '\'') {
            self.skip_char(1);
            assert(self@ == body.advance(1));
        }
        let ghost closed = self@;
        assert(closed.no_more(body));
        self.set_flag(Flag::InMacro, saved);
        assert(self@ == Env { in_macro: start.in_macro, ..closed });
        assert(self@.less(start));
        true
    }

    /// Scans an escape: a backslash and what the character after it asks
    /// for. `"` opens a comment, `f` a font escape, `s` a size, one of
    /// `h v w u d` a motion, `n` and `*` a register, `(` a special
    /// character; any other character stands for itself or for a blank.
    pub fn esc_char_backslash(&mut self) -> (r: bool)
        ensures
            (r, final(self)@) == old(self)@.esc_char_backslash(),
            r ==> final(self)@.less(old(self)@),
            final(self)@.no_more(old(self)@),
            !r && !old(self)@.at(1, '*') ==> final(self)@.rest == old(self)@.rest,
        decreases old(self)@.budget, old(self)@.rest.len(), 9nat,
    {
        if !self.at(0, '\\') {
            return false;
        }
        match self.peek(1) {
            Some(c) => {
                if c == '"' {
                    self.comment()
                } else if c == 'f' {
                    self.font()
                } else if c == 's' {
                    self.size()
                } else if c == 'h' || c == 'v' || c == 'w' || c == 'u' || c == 'd' {
                    self.numreq()
                } else if c == 'n' || c == '*' {
                    self.var()
                } else if c == '(' {
                    self.special_char()
                } else {
                    self.esc()
                }
            },
            None => false,
        }
    }

    /// Scans an escape where the cursor stands at a backslash, and else a
    /// word or a number.
    pub fn esc_char(&mut self) -> (r: bool)
        ensures
            (r, final(self)@) == old(self)@.esc_char(),
            r ==> final(self)@.less(old(self)@),
            final(self)@.no_more(old(self)@),
            !r && !old(self)@.at(1, '*') ==> final(self)@.rest == old(self)@.rest,
        decreases old(self)@.budget, old(self)@.rest.len(), 10nat,
    {
        if self.remaining() == 0 {
            false
        } else if self.at(0, '\\') {
            self.esc_char_backslash()
        } else if self.word() {
            true
        } else {
            self.number()
        }
    }

    /// Scans an argument: all up to the next white space or the end of the
    /// line. Runs of ordinary characters are written; each escape does what
    /// it asks for; a backslash that opens no escape is written as it stands.
    /// The verdict says whether anything but escapes was found.
    pub fn text_arg(&mut self) -> (r: bool)
        ensures
            (r, final(self)@) == old(self)@.text_arg(),
            r ==> final(self)@.less(old(self)@),
            final(self)@.no_more(old(self)@),
        decreases old(self)@.budget, old(self)@.rest.len(), 12nat,
    {
        let mut got = false;
        let mut done = false;
        while !done
            invariant
                done ==> (got, self@) == old(self)@.text_arg(),
                !done ==> self@.text_arg_loop(got) == old(self)@.text_arg(),
                self@.no_more(old(self)@),
                got ==> self@.less(old(self)@),
            decreases
                    self@.budget,
                    self@.rest.len(),
                    if done {
                        0nat
                    } else {
                        1nat
                    },
        {
                let n = self.run(0, CharClass::ArgText);
            proof {
                lemma_drop_none(self@.rest);
            }
            if n > 0 {
                self.emit_front(n);
                got = true;
            } else if self.remaining() == 0 || !self.at(0, '\\') {
                done = true;
            } else {
                let found = self.esc_char();
                if !found {
                    self.emit_front(1);
                    got = true;
                }
            }
        }
        got
    }

    /// Scans what stands between two quotes.
    fn quoted_body(&mut self)
        ensures
            final(self)@ == old(self)@.quoted_body(),
            final(self)@.no_more(old(self)@),
        decreases old(self)@.budget, old(self)@.rest.len(), 11nat,
    {
        let mut done = false;
        while !done
            invariant
                done ==> self@ == old(self)@.quoted_body(),
                !done ==> self@.quoted_body() == old(self)@.quoted_body(),
                self@.no_more(old(self)@),
            decreases
                    self@.budget,
                    self@.rest.len(),
                    if done {
                        0nat
                    } else {
                        1nat
                    },
        {
            reveal(Env::quoted_body);
            if self.remaining() == 0 || self.at(0, '"') {
                done = true;
            } else {
                let found = self.esc_char();
                if !found {
                    self.emit_front(1);
                }
            }
        }
    }

    /// Scans an argument in quotes: escapes, words and numbers are scanned as
    /// such, and any other character is written as it stands. The quotes are
    /// dropped. A quote that is not closed runs to the end of the line.
    pub fn quoted_arg(&mut self) -> (r: bool)
        ensures
            (r, final(self)@) == old(self)@.quoted_arg(),
            r ==> final(self)@.less(old(self)@),
            !r ==> final(self)@ == old(self)@,
        decreases old(self)@.budget, old(self)@.rest.len(), 12nat,
    {
        reveal(Env::quoted_arg);
        if self.at(0, '"') {
            let ghost start = self@;
            self.skip_char(1);
            assert(self@ == start.advance(1));
            self.quoted_body();
            let ghost body = self@;
            if self.at(0, '"') {
                self.skip_char(1);
                assert(self@ == body.advance(1));
            }
            true
        } else {
            false
        }
    }

    /// Scans a line of plain text to its end. What stands between escapes is
    /// written, each escape does what it asks for, and a backslash that opens
    /// no escape is written as it stands.
    pub fn text(&mut self) -> (r: bool)
        ensures
            r,
            final(self)@ == old(self)@.text(),
            final(self)@.no_more(old(self)@),
        decreases old(self)@.budget, old(self)@.rest.len(), 12nat,
    {
        let mut done = false;
        while !done
            invariant
                done ==> self@ == old(self)@.text(),
                !done ==> self@.text_loop() == old(self)@.text(),
                self@.no_more(old(self)@),
            decreases
                    self@.budget,
                    self@.rest.len(),
                    if done {
                        0nat
                    } else {
                        1nat
                    },
        {
            reveal(Env::text_loop);
            let n = self.run(0, CharClass::Except('\\'));
            proof {
                lemma_drop_none(self@.rest);
            }
            let at_end = n >= self.remaining();
            self.emit_front(n);
            if at_end {
                done = true;
            } else {
                let found = self.esc_char_backslash();
                if !found {
                    self.emit_front(1);
                }
            }
        }
        true
    }

    /// Scans the arguments of a request to the end of the line: quoted ones,
    /// plain ones, and the single characters between them.
    pub fn args_loop(&mut self)
        ensures
            final(self)@ == old(self)@.args_loop(),
            final(self)@.no_more(old(self)@),
        decreases old(self)@.budget, old(self)@.rest.len(), 13nat,
    {
        let mut done = false;
        while !done
            invariant
                done ==> self@ == old(self)@.args_loop(),
                !done ==> self@.args_loop() == old(self)@.args_loop(),
                self@.no_more(old(self)@),
            decreases
                    self@.budget,
                    self@.rest.len(),
                    if done {
                        0nat
                    } else {
                        1nat
                    },
        {
            reveal(Env::args_loop);
            let ghost before = self@;
            let quoted = self.quoted_arg();
            if quoted {
                assert(self@.less(before));
                assert(before.args_loop() == self@.args_loop());
            } else {
                assert(self@ == before);
                let plain = self.text_arg();
                let ghost e1 = self@;
                assert((plain, e1) == before.text_arg());
                if plain {
                    assert(e1.less(before));
                    assert(before.args_loop() == e1.args_loop());
                } else if self.remaining() != 0 {
                    self.emit_front(1);
                    assert(self@ == e1.emit_front(1));
                    assert(self@.less(before));
                    assert(before.args_loop() == self@.args_loop());
                } else {
                    done = true;
                    assert(before.args_loop() == e1);
                }
            }
        }
    }
}

} // verus!
