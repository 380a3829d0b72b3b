//! The scanner as mathematics: the state of a run and what each recognizer
//! makes of it.
//!
//! A recognizer is a function from a state to a verdict and the state that
//! follows. The verdict says whether the recognizer found its construct at the
//! cursor.
//!
//! Several recognizers go round: they call another recognizer and go on from
//! the state that it leaves. Each such definition goes on only where that state
//! is nearer the end of the line than the one it started from
//! ([`Env::less`]). That is what makes the definitions well founded, and it is
//! no restriction: the module `progress` proves that the state is always
//! nearer.
use crate::chars::{
    alphabetic, drop_front, front, is_digit, is_printable, is_space, run_len, trim_start,
    CharClass,
};
use crate::cursor::peek_at;
use crate::glyphs::{letter_text, symbol_text};
use crate::util::translate_seq;
use vstd::prelude::*;

verus! {

/// How many string registers may be expanded while one line is scanned. A
/// reference met after that many expansions is left unexpanded, so that a
/// register defined in terms of itself cannot keep the scanner busy for ever.
pub const EXPANSION_LIMIT: usize = 256;

/// Where the scanner stands in a table.
#[derive(Clone, Copy, PartialEq, Eq, Structural, Debug)]
pub enum TblState {
    /// At the line of options that may open a table.
    Options,
    /// In the lines that describe the layout of the columns.
    Format,
    /// In the rows of the table.
    Data,
}

/// The switches of the scanner.
#[derive(Clone, Copy, PartialEq, Eq, Structural, Debug)]
pub enum Flag {
    /// A bibliographic reference is being skipped.
    Refer,
    /// A macro definition is being skipped.
    InMacro,
    /// The last request opened a section or a paragraph with a title of its
    /// own.
    Nobody,
    /// A list is open.
    Inlist,
    /// The synopsis is being read.
    Inheader,
    /// A picture is being skipped.
    Pic,
    /// A table is open.
    Tbl,
    /// An equation is being skipped.
    Eqn,
    /// The special character read last was of the letter class.
    Specletter,
}

/// The state of a run over a document.
pub struct Env {
    /// What is left of the current line.
    pub rest: Seq<char>,
    /// The text produced so far.
    pub out: Seq<char>,
    /// The string registers.
    pub regs: Map<Seq<char>, Seq<char>>,
    /// The characters that translation requests have asked to replace.
    pub tr_from: Seq<char>,
    /// Their replacements, place by place.
    pub tr_to: Seq<char>,
    /// The translation in force, if any.
    pub table: Option<Map<char, char>>,
    /// Whether the special character read last was of the letter class.
    pub specletter: bool,
    /// Whether a bibliographic reference is being skipped.
    pub refer: bool,
    /// Whether a macro definition is being skipped.
    pub in_macro: bool,
    /// Whether the last request opened a section or a paragraph with a title
    /// of its own.
    pub nobody: bool,
    /// Whether a list is open.
    pub inlist: bool,
    /// Whether the synopsis is being read.
    pub inheader: bool,
    /// Whether a picture is being skipped.
    pub pic: bool,
    /// Whether a table is open.
    pub tbl: bool,
    /// Where the scanner stands in that table.
    pub tblstate: TblState,
    /// The character that separates the fields of a row, if the table names
    /// one.
    pub tbl_tab: Option<char>,
    /// Whether an equation is being skipped.
    pub eqn: bool,
    /// The name of the program that the page documents, once it is known.
    pub name: Seq<char>,
    /// How many string registers may still be expanded on this line.
    pub budget: nat,
}

/// The length of the number at the start of `s`: a sign, if there is one, and
/// the digits after it. Zero where no digit follows.
pub open spec fn number_len(s: Seq<char>) -> nat {
    let sign: nat = if s.len() > 0 && (s[0] == '+' || s[0] == '-') {
        1
    } else {
        0
    };
    let digits = run_len(drop_front(s, sign), CharClass::Digit);
    if digits > 0 {
        sign + digits
    } else {
        0
    }
}

/// The length of the font escape at the start of `s`: `\f(XY`, `\f[...]` or
/// `\fX`, where `X` and `Y` are not white space and the brackets hold no white
/// space. Zero where `s` starts with none of them.
pub open spec fn font_len(s: Seq<char>) -> nat {
    if s.len() < 3 || s[0] != '\\' || s[1] != 'f' {
        0
    } else if s[2] == '(' && s.len() >= 5 && !is_space(s[3]) && !is_space(s[4]) {
        5
    } else {
        let inside = run_len(drop_front(s, 3), CharClass::NonSpaceExcept(']'));
        if s[2] == '[' && peek_at(s, 3 + inside) == Some(']') {
            3 + inside + 1
        } else if !is_space(s[2]) {
            3
        } else {
            0
        }
    }
}

/// What the escape `\c` stands for, for a `c` that opens no longer escape.
pub open spec fn esc_text(c: char) -> Seq<char> {
    if c == 'e' || c == 'E' {
        seq!['\\']
    } else if c == 't' {
        seq!['\t']
    } else if c == '0' || c == '~' {
        seq![' ']
    } else if c == '|' || c == '^' || c == '&' || c == ':' {
        Seq::empty()
    } else {
        seq![c]
    }
}

/// Whether `c` opens an escape that asks for a motion or a width: one of
/// `h`, `v`, `w`, `u`, `d`.
pub open spec fn is_motion(c: char) -> bool {
    c == 'h' || c == 'v' || c == 'w' || c == 'u' || c == 'd'
}

/// Whether `name` is the option that names the field separator of a table,
/// in any mix of upper and lower case.
pub open spec fn is_tab_keyword(name: Seq<char>) -> bool {
    &&& name.len() == 3
    &&& (name[0] == 't' || name[0] == 'T')
    &&& (name[1] == 'a' || name[1] == 'A')
    &&& (name[2] == 'b' || name[2] == 'B')
}

/// The field separator that the options in `s` leave, `tab` being the one in
/// force before them. Options run to the first `;` or newline; each is a name,
/// with or without an argument in round brackets; the last `tab(x)` counts.
pub open spec fn options_tab(s: Seq<char>, tab: Option<char>) -> Option<char>
    decreases s.len(),
{
    if s.len() == 0 || s[0] == ';' || s[0] == '\n' {
        tab
    } else if !alphabetic(s[0]) {
        options_tab(drop_front(s, 1), tab)
    } else {
        let n = run_len(s, CharClass::Alpha);
        if peek_at(s, n) == Some('(') {
            let inner = drop_front(s, n + 1);
            let k = run_len(inner, CharClass::Except(')'));
            let next = if is_tab_keyword(front(s, n)) && k > 0 {
                Some(inner[0])
            } else {
                tab
            };
            options_tab(drop_front(inner, k + 1), next)
        } else {
            options_tab(drop_front(s, n), tab)
        }
    }
}

/// Whether a line of column layout is the last one: a `.` stands in it.
pub open spec fn ends_format(s: Seq<char>) -> bool {
    peek_at(s, run_len(s, CharClass::Except2('.', '\n'))) == Some('.')
}

/// The characters that a translation request with the arguments `s` asks to
/// replace: every other character, up to the newline.
pub open spec fn tr_sources(s: Seq<char>) -> Seq<char>
    decreases s.len(),
{
    if s.len() == 0 || s[0] == '\n' {
        Seq::empty()
    } else {
        seq![s[0]] + tr_sources(drop_front(s, 2))
    }
}

/// Their replacements: the character after each, or a space where the line
/// ends first.
pub open spec fn tr_targets(s: Seq<char>) -> Seq<char>
    decreases s.len(),
{
    if s.len() == 0 || s[0] == '\n' {
        Seq::empty()
    } else {
        seq![
            if s.len() > 1 && s[1] != '\n' {
                s[1]
            } else {
                ' '
            },
        ] + tr_targets(drop_front(s, 2))
    }
}

/// What a translation request leaves of its line.
pub open spec fn tr_rest(s: Seq<char>) -> Seq<char>
    decreases s.len(),
{
    if s.len() == 0 || s[0] == '\n' {
        s
    } else {
        tr_rest(drop_front(s, 2))
    }
}

impl Env {
    /// The state before the first line of a document.
    pub open spec fn initial() -> Env {
        Env {
            rest: Seq::empty(),
            out: Seq::empty(),
            regs: Map::empty(),
            tr_from: Seq::empty(),
            tr_to: Seq::empty(),
            table: None,
            specletter: false,
            refer: false,
            in_macro: false,
            nobody: false,
            inlist: false,
            inheader: false,
            pic: false,
            tbl: false,
            tblstate: TblState::Options,
            tbl_tab: None,
            eqn: false,
            name: Seq::empty(),
            budget: EXPANSION_LIMIT as nat,
        }
    }

    /// Whether the switch `which` is on.
    pub open spec fn flag(self, which: Flag) -> bool {
        match which {
            Flag::Refer => self.refer,
            Flag::InMacro => self.in_macro,
            Flag::Nobody => self.nobody,
            Flag::Inlist => self.inlist,
            Flag::Inheader => self.inheader,
            Flag::Pic => self.pic,
            Flag::Tbl => self.tbl,
            Flag::Eqn => self.eqn,
            Flag::Specletter => self.specletter,
        }
    }

    /// The state with the switch `which` turned on or off.
    pub open spec fn with_flag(self, which: Flag, value: bool) -> Env {
        match which {
            Flag::Refer => Env { refer: value, ..self },
            Flag::InMacro => Env { in_macro: value, ..self },
            Flag::Nobody => Env { nobody: value, ..self },
            Flag::Inlist => Env { inlist: value, ..self },
            Flag::Inheader => Env { inheader: value, ..self },
            Flag::Pic => Env { pic: value, ..self },
            Flag::Tbl => Env { tbl: value, ..self },
            Flag::Eqn => Env { eqn: value, ..self },
            Flag::Specletter => Env { specletter: value, ..self },
        }
    }

    /// The state at the start of `line`, with a full allowance of expansions.
    pub open spec fn feed(self, line: Seq<char>) -> Env {
        Env { rest: line, budget: EXPANSION_LIMIT as nat, ..self }
    }

    /// Whether output is switched off: inside a picture, an equation, a
    /// reference or a macro definition, and inside a list within the synopsis.
    pub open spec fn suppressed(self) -> bool {
        self.pic || self.eqn || self.refer || self.in_macro || (self.inlist && self.inheader)
    }

    /// `text` as it would be written now: translated where a translation is
    /// in force.
    pub open spec fn translated(self, text: Seq<char>) -> Seq<char> {
        match self.table {
            Some(m) => translate_seq(m, text),
            None => text,
        }
    }

    /// Writes `text`, unless output is switched off.
    #[verifier::opaque]
    pub open spec fn emit(self, text: Seq<char>) -> Env {
        if self.suppressed() {
            self
        } else {
            Env { out: self.out + self.translated(text), ..self }
        }
    }

    /// Writes a newline, unless output is switched off.
    pub open spec fn newline(self) -> Env {
        self.emit(seq!['\n'])
    }

    /// The character `k` places ahead, if the line reaches that far.
    pub open spec fn peek(self, k: nat) -> Option<char> {
        peek_at(self.rest, k)
    }

    /// Whether the character `k` places ahead is `c`.
    pub open spec fn at(self, k: nat, c: char) -> bool {
        self.peek(k) == Some(c)
    }

    /// Whether white space stands `k` places ahead.
    pub open spec fn white_at(self, k: nat) -> bool {
        match self.peek(k) {
            Some(c) => is_space(c),
            None => false,
        }
    }

    /// Whether a character other than space, tab and newline stands `k` places
    /// ahead.
    pub open spec fn printable_at(self, k: nat) -> bool {
        match self.peek(k) {
            Some(c) => is_printable(c),
            None => false,
        }
    }

    /// Whether a digit stands `k` places ahead.
    pub open spec fn digit_at(self, k: nat) -> bool {
        match self.peek(k) {
            Some(c) => is_digit(c),
            None => false,
        }
    }

    /// The character `k` places ahead as a sequence: empty past the end.
    pub open spec fn str_at(self, k: nat) -> Seq<char> {
        match self.peek(k) {
            Some(c) => seq![c],
            None => Seq::empty(),
        }
    }

    /// Consumes `n` characters, or what is left where that is less.
    pub open spec fn advance(self, n: nat) -> Env {
        Env { rest: drop_front(self.rest, n), ..self }
    }

    /// Consumes leading white space.
    pub open spec fn trim(self) -> Env {
        Env { rest: trim_start(self.rest), ..self }
    }

    /// The length of the run of `class` that starts `from` places ahead.
    pub open spec fn run(self, from: nat, class: CharClass) -> nat {
        run_len(drop_front(self.rest, from), class)
    }

    /// Writes the next `n` characters and consumes them.
    pub open spec fn emit_front(self, n: nat) -> Env {
        self.emit(front(self.rest, n)).advance(n)
    }

    /// Whether `self` is nearer the end of its line than `other`: fewer
    /// expansions are left to it, or as many and fewer characters.
    pub open spec fn less(self, other: Env) -> bool {
        self.budget < other.budget || (self.budget == other.budget && self.rest.len()
            < other.rest.len())
    }

    /// Whether `self` is no farther from the end of its line than `other`.
    pub open spec fn no_more(self, other: Env) -> bool {
        self.budget < other.budget || (self.budget == other.budget && self.rest.len()
            <= other.rest.len())
    }

    /// A number: an optional sign and digits. It is written as it stands.
    #[verifier::opaque]
    pub open spec fn number(self) -> (bool, Env) {
        let n = number_len(self.rest);
        if n > 0 {
            (true, self.emit_front(n))
        } else {
            (false, self)
        }
    }

    /// A font escape. It is dropped.
    #[verifier::opaque]
    pub open spec fn font(self) -> (bool, Env) {
        let n = font_len(self.rest);
        if n > 0 {
            (true, self.advance(n))
        } else {
            (false, self)
        }
    }

    /// A comment, `\"` and all that follows on the line but the newline. It
    /// is dropped.
    #[verifier::opaque]
    pub open spec fn comment(self) -> (bool, Env) {
        if self.at(0, '\\') && self.at(1, '"') {
            (true, self.advance(self.run(0, CharClass::Except('\n'))))
        } else {
            (false, self)
        }
    }

    /// A change of type size: `\s`, an optional sign, and digits. It is
    /// dropped.
    #[verifier::opaque]
    pub open spec fn size(self) -> (bool, Env) {
        if self.at(0, '\\') && self.at(1, 's') && (self.digit_at(2) || ((self.at(2, '-')
            || self.at(2, '+')) && self.digit_at(3))) {
            let e = self.advance(3);
            (true, e.advance(e.run(0, CharClass::Digit)))
        } else {
            (false, self)
        }
    }

    /// A backslash and one character, for a character that opens no longer
    /// escape. What it stands for is written.
    #[verifier::opaque]
    pub open spec fn esc(self) -> (bool, Env) {
        if self.at(0, '\\') && self.rest.len() >= 2 {
            (true, self.emit(esc_text(self.rest[1])).advance(2))
        } else {
            (false, self)
        }
    }

    /// A special character: `\(XY` for two printable characters, or the soft
    /// hyphen `\%`. The text of a known code is written; an unknown code is
    /// consumed in silence.
    #[verifier::opaque]
    pub open spec fn special_char(self) -> (bool, Env) {
        let e = Env { specletter: false, ..self };
        if self.at(0, '\\') && self.at(1, '(') && self.printable_at(2) && self.printable_at(3) {
            let a = self.rest[2];
            let b = self.rest[3];
            let written = match letter_text(a, b) {
                Some(text) => Env { specletter: true, ..e.emit(text) },
                None => match symbol_text(a, b) {
                    Some(text) => e.emit(text),
                    None => e,
                },
            };
            (true, written.advance(4))
        } else if self.at(0, '\\') && self.at(1, '%') {
            (true, Env { specletter: true, ..e.advance(2) })
        } else {
            (false, e)
        }
    }

    /// The special characters of the letter class that follow one another at
    /// the cursor, and the first special character of another class after
    /// them, if one follows.
    #[verifier::opaque]
    pub open spec fn chain(self) -> Env
        decreases self.rest.len(),
    {
        let (found, e) = self.special_char();
        if found && e.specletter && e.rest.len() < self.rest.len() {
            e.chain()
        } else {
            e
        }
    }

    /// The rounds of [`Env::word`]: a run of word characters, then a chain of
    /// special characters, as long as a run is found.
    #[verifier::opaque]
    pub open spec fn word_loop(self, got: bool) -> (bool, Env)
        decreases self.rest.len(),
    {
        let n = self.run(0, CharClass::Word);
        if n == 0 {
            (got, self)
        } else {
            let e = self.emit_front(n).chain();
            if e.rest.len() < self.rest.len() {
                e.word_loop(true)
            } else {
                (true, e)
            }
        }
    }

    /// A word: letters and underscores, with special characters of the letter
    /// class among them. It is written.
    pub open spec fn word(self) -> (bool, Env) {
        self.word_loop(false)
    }

    /// A reference to a number register: `\n?dy`, `\n(XY`, `\n[NAME` or
    /// `\nX`. It is dropped, up to but not including the `]` in the
    /// third form.
    #[verifier::opaque]
    pub open spec fn number_register(self) -> (bool, Env) {
        if (self.at(3, 'd') && self.at(4, 'y')) || (self.at(2, '(') && self.printable_at(3)
            && self.printable_at(4)) {
            (true, self.advance(5))
        } else if self.at(2, '[') && self.printable_at(3) {
            let e = self.advance(3);
            (true, e.advance(e.run(0, CharClass::Except(']'))))
        } else if self.printable_at(2) {
            (true, self.advance(3))
        } else {
            (false, self)
        }
    }

    /// The state with the value of the register `name` in front of the line,
    /// and one expansion less to go.
    pub open spec fn spliced(self, name: Seq<char>) -> Env {
        Env { rest: self.regs[name] + self.rest, budget: (self.budget - 1) as nat, ..self }
    }

    /// Puts the value of the register `name` in front of the line and scans
    /// one argument there. Fails where the register is not defined, or where
    /// no expansion is left to this line.
    pub open spec fn expand(self, name: Seq<char>) -> (bool, Env)
        decreases self.budget, self.rest.len(), 6nat,
    {
        if self.regs.contains_key(name) && self.budget > 0 {
            (true, self.spliced(name).text_arg().1)
        } else {
            (false, self)
        }
    }

    /// A reference to a string register: `\*(XY`, `\*[NAME]` or `\*X`. The
    /// name is consumed, and a bracketed name without its `]` consumes the
    /// line; then the register is expanded.
    pub open spec fn string_register(self) -> (bool, Env)
        decreases self.budget, self.rest.len(), 7nat,
    {
        if self.at(2, '(') && self.printable_at(3) && self.printable_at(4) {
            self.advance(5).expand(self.rest.subrange(3, 5))
        } else if self.at(2, '[') && self.printable_at(3) {
            let e = self.advance(3);
            let n = e.run(0, CharClass::Except(']'));
            let named = e.advance(n);
            if named.at(0, ']') {
                named.advance(1).expand(front(e.rest, n))
            } else {
                (false, named)
            }
        } else if self.printable_at(2) {
            self.advance(3).expand(seq![self.rest[2]])
        } else {
            (false, self)
        }
    }

    /// A reference to a register, `\n` for a number and `\*` for a string.
    pub open spec fn var(self) -> (bool, Env)
        decreases self.budget, self.rest.len(), 8nat,
    {
        if self.at(0, '\\') && self.at(1, 'n') {
            self.number_register()
        } else if self.at(0, '\\') && self.at(1, '*') {
            self.string_register()
        } else {
            (false, self)
        }
    }

    /// What stands between the quotes of a motion or width escape: escapes,
    /// words and numbers, up to the closing quote or to the first thing that
    /// is none of them.
    pub open spec fn numreq_body(self) -> Env
        decreases self.budget, self.rest.len(), 11nat,
    {
        if self.rest.len() == 0 || self.rest[0] == '\'' {
            self
        } else {
            let (found, e) = self.esc_char();
            if found && e.less(self) {
                e.numreq_body()
            } else {
                e
            }
        }
    }

    /// A motion or width escape: a backslash, one of `h v w u d`, a quote,
    /// and a body that runs to the closing quote. Nothing of it is written.
    pub open spec fn numreq(self) -> (bool, Env)
        decreases self.budget, self.rest.len(), 8nat,
    {
        if self.at(0, '\\') && self.rest.len() >= 2 && is_motion(self.rest[1]) {
            let body = Env { in_macro: true, ..self.advance(3) }.numreq_body();
            let closed = if body.at(0, '\'') {
                body.advance(1)
            } else {
                body
            };
            (true, Env { in_macro: self.in_macro, ..closed })
        } else {
            (false, self)
        }
    }

    /// An escape: a backslash and what the character after it asks for.
    pub open spec fn esc_char_backslash(self) -> (bool, Env)
        decreases self.budget, self.rest.len(), 9nat,
    {
        if self.at(0, '\\') && self.rest.len() >= 2 {
            let c = self.rest[1];
            if c == '"' {
                self.comment()
            } else if c == 'f' {
                self.font()
            } else if c == 's' {
                self.size()
            } else if is_motion(c) {
                self.numreq()
            } else if c == 'n' || c == '*' {
                self.var()
            } else if c == '(' {
                self.special_char()
            } else {
                self.esc()
            }
        } else {
            (false, self)
        }
    }

    /// An escape, a word or a number.
    pub open spec fn esc_char(self) -> (bool, Env)
        decreases self.budget, self.rest.len(), 10nat,
    {
        if self.rest.len() == 0 {
            (false, self)
        } else if self.rest[0] == '\\' {
            self.esc_char_backslash()
        } else {
            let (found, e) = self.word();
            if found {
                (true, e)
            } else {
                e.number()
            }
        }
    }

    /// The rounds of [`Env::text_arg`]. `got` says whether anything was
    /// written in an earlier round.
    pub open spec fn text_arg_loop(self, got: bool) -> (bool, Env)
        decreases self.budget, self.rest.len(), 11nat,
    {
        let n = self.run(0, CharClass::ArgText);
        if n > 0 {
            let e = self.emit_front(n);
            if e.less(self) {
                e.text_arg_loop(true)
            } else {
                (true, e)
            }
        } else if self.rest.len() == 0 || self.rest[0] != '\\' {
            (got, self)
        } else {
            let (found, e) = self.esc_char();
            if found {
                if e.less(self) {
                    e.text_arg_loop(got)
                } else {
                    (got, e)
                }
            } else {
                let e1 = e.emit_front(1);
                if e1.less(self) {
                    e1.text_arg_loop(true)
                } else {
                    (true, e1)
                }
            }
        }
    }

    /// An argument: all up to the next white space. Runs of ordinary
    /// characters are written; escapes do what they ask for; a backslash that
    /// opens no escape is written as it stands. The verdict says whether
    /// anything but escapes was found.
    pub open spec fn text_arg(self) -> (bool, Env)
        decreases self.budget, self.rest.len(), 12nat,
    {
        self.text_arg_loop(false)
    }

    /// What stands between two quotes: escapes, words and numbers, and single
    /// characters where none of them is found.
    #[verifier::opaque]
    pub open spec fn quoted_body(self) -> Env
        decreases self.budget, self.rest.len(), 11nat,
    {
        if self.rest.len() == 0 || self.rest[0] == '"' {
            self
        } else {
            let (found, e) = self.esc_char();
            let e1 = if found {
                e
            } else {
                e.emit_front(1)
            };
            if e1.less(self) {
                e1.quoted_body()
            } else {
                e1
            }
        }
    }

    /// An argument in quotes. The quotes are dropped; one that is not closed
    /// runs to the end of the line.
    #[verifier::opaque]
    pub open spec fn quoted_arg(self) -> (bool, Env) {
        if self.at(0, '"') {
            let body = self.advance(1).quoted_body();
            if body.at(0, '"') {
                (true, body.advance(1))
            } else {
                (true, body)
            }
        } else {
            (false, self)
        }
    }

    /// The rounds of [`Env::text`].
    #[verifier::opaque]
    pub open spec fn text_loop(self) -> Env
        decreases self.budget, self.rest.len(), 11nat,
    {
        let n = self.run(0, CharClass::Except('\\'));
        if n >= self.rest.len() {
            self.emit_front(n)
        } else {
            let e = self.emit_front(n);
            let (found, e1) = e.esc_char_backslash();
            let e2 = if found {
                e1
            } else {
                e1.emit_front(1)
            };
            if e2.less(self) {
                e2.text_loop()
            } else {
                e2
            }
        }
    }

    /// A line of plain text: what stands between escapes is written, each
    /// escape does what it asks for, and a backslash that opens no escape is
    /// written as it stands.
    pub open spec fn text(self) -> Env {
        self.text_loop()
    }

    /// The arguments of a request: quoted ones, plain ones and what separates
    /// them, to the end of the line.
    #[verifier::opaque]
    pub open spec fn args_loop(self) -> Env
        decreases self.budget, self.rest.len(), 13nat,
    {
        let (quoted, e) = self.quoted_arg();
        if quoted {
            if e.less(self) {
                e.args_loop()
            } else {
                e
            }
        } else {
            let (plain, e1) = self.text_arg();
            if plain {
                if e1.less(self) {
                    e1.args_loop()
                } else {
                    e1
                }
            } else if e1.rest.len() > 0 {
                let e2 = e1.emit_front(1);
                if e2.less(self) {
                    e2.args_loop()
                } else {
                    e2
                }
            } else {
                e1
            }
        }
    }
}

} // verus!
