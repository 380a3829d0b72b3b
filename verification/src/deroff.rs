//! The scanner: reads a roff document line by line and collects the plain
//! text in it.
use crate::chars::{
    drop_front, front, lemma_drop_none, starts_with, to_chars, to_string, CharClass,
};
use crate::cursor::{replace_char, Cursor};
use crate::model::{Env, Flag, TblState, EXPANSION_LIMIT};
use crate::output::{collapse, collapse_newlines};
use crate::registers::RegisterTable;
use crate::util::{pairs_table, translate_seq, TranslationTable};
use vstd::prelude::*;

verus! {

/// Appends to `out` the characters of `text`, each translated by `table` where
/// there is one.
fn append_translated(out: &mut Vec<char>, table: &Option<TranslationTable>, text: &Vec<char>)
    ensures
        final(out)@ == old(out)@ + match table {
            Some(t) => translate_seq(t@, text@),
            None => text@,
        },
{
    let ghost before = out@;
    let mut i: usize = 0;
    match table {
        Some(t) => {
            while i < text.len()
                invariant
                    i <= text.len(),
                    out@ == before + translate_seq(t@, text@.take(i as int)),
                decreases text.len() - i,
            {
                out.push(t.translate_char(text[i]));
                i = i + 1;
                assert(before + translate_seq(t@, text@.take(i as int)) =~= (before
                    + translate_seq(t@, text@.take(i - 1))).push(
                    crate::util::translate_char(t@, text@[i - 1]),
                ));
            }
            assert(text@.take(text.len() as int) =~= text@);
        },
        None => {
            while i < text.len()
                invariant
                    i <= text.len(),
                    out@ == before + text@.take(i as int),
                decreases text.len() - i,
            {
                out.push(text[i]);
                i = i + 1;
                assert(before + text@.take(i as int) =~= (before + text@.take(i - 1)).push(
                    text@[i - 1],
                ));
            }
            assert(text@.take(text.len() as int) =~= text@);
        },
    }
}

/// The scanner and all it knows of the document read so far.
pub struct Deroffer {
    cur: Cursor,
    output: Vec<char>,
    reg_table: RegisterTable,
    tr_from: Vec<char>,
    tr_to: Vec<char>,
    tr: Option<TranslationTable>,
    specletter: bool,
    refer: bool,
    in_macro: bool,
    nobody: bool,
    inlist: bool,
    inheader: bool,
    pic: bool,
    tbl: bool,
    tblstate: TblState,
    tbl_tab: Option<char>,
    eqn: bool,
    name: Vec<char>,
    budget: usize,
}

impl View for Deroffer {
    type V = Env;

    closed spec fn view(&self) -> Env {
        Env {
            rest: self.cur.rest(),
            out: self.output@,
            regs: self.reg_table@,
            tr_from: self.tr_from@,
            tr_to: self.tr_to@,
            table: match self.tr {
                Some(t) => Some(t@),
                None => None,
            },
            specletter: self.specletter,
            refer: self.refer,
            in_macro: self.in_macro,
            nobody: self.nobody,
            inlist: self.inlist,
            inheader: self.inheader,
            pic: self.pic,
            tbl: self.tbl,
            tblstate: self.tblstate,
            tbl_tab: self.tbl_tab,
            eqn: self.eqn,
            name: self.name@,
            budget: self.budget as nat,
        }
    }
}

impl Deroffer {
    /// A scanner that has read nothing yet.
    pub fn new() -> (d: Deroffer)
        ensures
            d@ == Env::initial(),
    {
        Deroffer {
            cur: Cursor::new(Vec::new()),
            output: Vec::new(),
            reg_table: RegisterTable::new(),
            tr_from: Vec::new(),
            tr_to: Vec::new(),
            tr: None,
            specletter: false,
            refer: false,
            in_macro: false,
            nobody: false,
            inlist: false,
            inheader: false,
            pic: false,
            tbl: false,
            tblstate: TblState::Options,
            tbl_tab: None,
            eqn: false,
            name: Vec::new(),
            budget: EXPANSION_LIMIT,
        }
    }

    /// The text produced so far, with every run of three or more newlines
    /// replaced by one newline.
    pub fn get_output(&self) -> (text: String)
        ensures
            text@ == collapse(self@.out),
    {
        let collapsed = collapse_newlines(&self.output);
        to_string(&collapsed)
    }

    /// The text produced so far, as it was written.
    pub fn output(&self) -> (text: String)
        ensures
            text@ == self@.out,
    {
        to_string(&self.output)
    }

    /// What is left of the current line.
    pub fn line(&self) -> (text: String)
        ensures
            text@ == self@.rest,
    {
        let n = self.cur.len();
        let chars = self.cur.copy(0, n);
        proof {
            lemma_drop_none(self@.rest);
        }
        to_string(&chars)
    }

    /// Makes `line` the current line, and gives it a full allowance of
    /// expansions.
    pub fn set_line(&mut self, line: &str)
        ensures
            final(self)@ == old(self)@.feed(line@),
    {
        self.cur = Cursor::new(to_chars(line));
        self.budget = EXPANSION_LIMIT;
    }

    /// Makes `line` the current line, and gives it a full allowance of
    /// expansions.
    pub fn feed(&mut self, line: Vec<char>)
        ensures
            final(self)@ == old(self)@.feed(line@),
    {
        self.cur = Cursor::new(line);
        self.budget = EXPANSION_LIMIT;
    }

    /// Consumes `amount` characters, or what is left where that is less.
    pub fn skip_char(&mut self, amount: usize)
        ensures
            final(self)@ == old(self)@.advance(amount as nat),
    {
        self.cur.advance(amount);
    }

    /// Consumes leading white space.
    pub fn skip_leading_whitespace(&mut self)
        ensures
            final(self)@ == old(self)@.trim(),
    {
        let n = self.cur.run(0, CharClass::Space);
        proof {
            lemma_drop_none(self@.rest);
        }
        self.cur.advance(n);
    }

    /// The character `idx` places ahead, or `None` past the end of the line.
    pub fn peek(&self, idx: usize) -> (r: Option<char>)
        ensures
            r == self@.peek(idx as nat),
    {
        self.cur.peek(idx)
    }

    /// The character `idx` places ahead as a string of its own; the empty
    /// string past the end of the line.
    pub fn str_at(&self, idx: usize) -> (r: String)
        ensures
            r@ == self@.str_at(idx as nat),
    {
        let mut v: Vec<char> = Vec::new();
        match self.cur.peek(idx) {
            Some(c) => {
                v.push(c);
                assert(v@ =~= seq![c]);
            },
            None => {},
        }
        to_string(&v)
    }

    /// Whether white space stands `idx` places ahead.
    pub fn is_white(&self, idx: usize) -> (r: bool)
        ensures
            r == self@.white_at(idx as nat),
    {
        self.cur.in_class(idx, CharClass::Space)
    }

    /// Whether a character other than space, tab and newline stands `idx`
    /// places ahead.
    pub fn not_whitespace(&self, idx: usize) -> (r: bool)
        ensures
            r == self@.printable_at(idx as nat),
    {
        match self.cur.peek(idx) {
            Some(c) => crate::chars::printable(c),
            None => false,
        }
    }

    /// Whether a digit stands `idx` places ahead.
    pub fn digit(&self, idx: usize) -> (r: bool)
        ensures
            r == self@.digit_at(idx as nat),
    {
        self.cur.in_class(idx, CharClass::Digit)
    }

    /// Whether output is switched off.
    pub fn suppressed(&self) -> (r: bool)
        ensures
            r == self@.suppressed(),
    {
        self.pic || self.eqn || self.refer || self.in_macro || (self.inlist && self.inheader)
    }

    /// Writes `text`, unless output is switched off.
    pub fn emit(&mut self, text: &Vec<char>)
        ensures
            final(self)@ == old(self)@.emit(text@),
            final(self)@.rest == old(self)@.rest,
            final(self)@.budget == old(self)@.budget,
    {
        reveal(Env::emit);
        if !self.suppressed() {
            append_translated(&mut self.output, &self.tr, text);
        }
    }

    /// Writes `c`, unless output is switched off.
    pub fn emit_char(&mut self, c: char)
        ensures
            final(self)@ == old(self)@.emit(seq![c]),
            final(self)@.rest == old(self)@.rest,
            final(self)@.budget == old(self)@.budget,
    {
        let mut v: Vec<char> = Vec::new();
        v.push(c);
        assert(v@ =~= seq![c]);
        self.emit(&v);
    }

    /// Writes the next `n` characters and consumes them.
    pub fn emit_front(&mut self, n: usize)
        ensures
            final(self)@ == old(self)@.emit_front(n as nat),
            final(self)@.rest == drop_front(old(self)@.rest, n as nat),
            final(self)@.budget == old(self)@.budget,
    {
        let text = self.cur.copy(0, n);
        proof {
            lemma_drop_none(self@.rest);
        }
        self.emit(&text);
        self.cur.advance(n);
    }

    /// Writes `s` to the output, unless output is switched off: inside a
    /// picture, an equation, a reference or a macro definition, and inside a
    /// list within the synopsis. Where a translation is in force, each
    /// character is translated first.
    pub fn condputs(&mut self, s: &str)
        ensures
            final(self)@ == old(self)@.emit(s@),
            final(self)@.rest == old(self)@.rest,
            final(self)@.budget == old(self)@.budget,
    {
        let text = to_chars(s);
        self.emit(&text);
    }
}

impl Deroffer {
    /// Whether the switch `which` is on.
    pub fn flag(&self, which: Flag) -> (r: bool)
        ensures
            r == self@.flag(which),
    {
        match which {
            Flag::Refer => self.refer,
            Flag::InMacro => self.in_macro,
            Flag::Nobody => self.nobody,
            Flag::Inlist => self.inlist,
            Flag::Inheader => self.inheader,
            Flag::Pic => self.pic,
            Flag::Tbl => self.tbl,
            Flag::Eqn => self.eqn,
            Flag::Specletter => self.specletter,
        }
    }

    /// Turns the switch `which` on or off.
    pub fn set_flag(&mut self, which: Flag, value: bool)
        ensures
            final(self)@ == old(self)@.with_flag(which, value),
    {
        match which {
            Flag::Refer => {
                self.refer = value;
            },
            Flag::InMacro => {
                self.in_macro = value;
            },
            Flag::Nobody => {
                self.nobody = value;
            },
            Flag::Inlist => {
                self.inlist = value;
            },
            Flag::Inheader => {
                self.inheader = value;
            },
            Flag::Pic => {
                self.pic = value;
            },
            Flag::Tbl => {
                self.tbl = value;
            },
            Flag::Eqn => {
                self.eqn = value;
            },
            Flag::Specletter => {
                self.specletter = value;
            },
        }
    }

    /// Where the scanner stands in a table.
    pub fn tblstate(&self) -> (r: TblState)
        ensures
            r == self@.tblstate,
    {
        self.tblstate
    }

    /// Moves the scanner to `state` of a table.
    pub fn set_tblstate(&mut self, state: TblState)
        ensures
            final(self)@ == (Env { tblstate: state, ..old(self)@ }),
    {
        self.tblstate = state;
    }

    /// The character that separates the fields of a table row, if one was
    /// named.
    pub fn tbl_tab(&self) -> (r: Option<char>)
        ensures
            r == self@.tbl_tab,
    {
        self.tbl_tab
    }

    /// Names the character that separates the fields of a table row.
    pub fn set_tbl_tab(&mut self, tab: Option<char>)
        ensures
            final(self)@ == (Env { tbl_tab: tab, ..old(self)@ }),
    {
        self.tbl_tab = tab;
    }

    /// The name of the program that the page documents, as far as it is
    /// known.
    pub fn name(&self) -> (r: String)
        ensures
            r@ == self@.name,
    {
        to_string(&self.name)
    }

    /// Notes the name of the program that the page documents.
    pub fn set_name(&mut self, name: Vec<char>)
        ensures
            final(self)@ == (Env { name: name@, ..old(self)@ }),
    {
        self.name = name;
    }

    /// Writes the name of the program, unless output is switched off.
    pub fn emit_name(&mut self)
        ensures
            final(self)@ == old(self)@.emit(old(self)@.name),
    {
        reveal(Env::emit);
        if !self.suppressed() {
            append_translated(&mut self.output, &self.tr, &self.name);
        }
    }

    /// Defines the string register `name` as `value`.
    pub fn define(&mut self, name: Vec<char>, value: Vec<char>)
        ensures
            final(self)@ == (Env { regs: old(self)@.regs.insert(name@, value@), ..old(self)@ }),
    {
        self.reg_table.insert(name, value);
    }

    /// Defines the string register `name` as `value`.
    pub fn define_register(&mut self, name: &str, value: &str)
        ensures
            final(self)@ == (Env { regs: old(self)@.regs.insert(name@, value@), ..old(self)@ }),
    {
        self.define(to_chars(name), to_chars(value));
    }

    /// Puts `table` in force, or no translation at all.
    pub fn set_tr(&mut self, table: Option<TranslationTable>)
        ensures
            final(self)@ == (Env {
                table: match table {
                    Some(t) => Some(t@),
                    None => None,
                },
                ..old(self)@
            }),
    {
        self.tr = table;
    }

    /// Notes that `from` is to be replaced by `to`. The translation in force
    /// stays as it is until it is built anew.
    pub fn add_translation(&mut self, from: char, to: char)
        ensures
            final(self)@ == (Env {
                tr_from: old(self)@.tr_from.push(from),
                tr_to: old(self)@.tr_to.push(to),
                ..old(self)@
            }),
    {
        self.tr_from.push(from);
        self.tr_to.push(to);
    }

    /// Puts in force the translation that all replacements noted so far make.
    pub fn rebuild_table(&mut self)
        ensures
            final(self)@ == (Env {
                table: Some(pairs_table(old(self)@.tr_from, old(self)@.tr_to)),
                ..old(self)@
            }),
    {
        self.tr = Some(TranslationTable::from_chars(&self.tr_from, &self.tr_to));
    }

    /// Puts the value of the string register `name` in front of what is left
    /// of the line, at the cost of one expansion. Fails, and changes nothing,
    /// where the register is not defined or the line has used up its
    /// expansions.
    pub fn splice_register(&mut self, name: &Vec<char>) -> (r: bool)
        ensures
            r == (old(self)@.regs.contains_key(name@) && old(self)@.budget > 0),
            r ==> final(self)@ == old(self)@.spliced(name@),
            !r ==> final(self)@ == old(self)@,
    {
        if self.budget == 0 {
            return false;
        }
        match self.reg_table.get(name) {
            Some(value) => {
                self.cur.splice(value);
                self.budget = self.budget - 1;
                true
            },
            None => false,
        }
    }

    /// Replaces the text produced so far by `text`.
    pub fn set_output(&mut self, text: &str)
        ensures
            final(self)@ == (Env { out: text@, ..old(self)@ }),
    {
        self.output = to_chars(text);
    }

    /// Whether the character `idx` places ahead is `c`.
    pub fn at(&self, idx: usize, c: char) -> (r: bool)
        ensures
            r == self@.at(idx as nat, c),
    {
        self.cur.at(idx, c)
    }

    /// How many characters of the line are left.
    pub fn remaining(&self) -> (n: usize)
        ensures
            n == self@.rest.len(),
    {
        self.cur.len()
    }

    /// The length of the run of `class` that starts `from` places ahead.
    pub fn run(&self, from: usize, class: CharClass) -> (n: usize)
        ensures
            n == self@.run(from as nat, class),
            from + n <= self@.rest.len() || n == 0,
            self@.rest.len() <= usize::MAX,
    {
        self.cur.run(from, class)
    }

    /// Whether a character of `class` stands `idx` places ahead.
    pub fn in_class(&self, idx: usize, class: CharClass) -> (r: bool)
        ensures
            r == match self@.peek(idx as nat) {
                Some(c) => class.has(c),
                None => false,
            },
    {
        self.cur.in_class(idx, class)
    }

    /// A copy of `n` characters that start `from` places ahead, cut short at
    /// the end of the line.
    pub fn copy(&self, from: usize, n: usize) -> (v: Vec<char>)
        ensures
            v@ == front(drop_front(self@.rest, from as nat), n as nat),
    {
        self.cur.copy(from, n)
    }

    /// Whether what stands `from` places ahead starts with `p`.
    pub fn has_prefix(&self, from: usize, p: &str) -> (r: bool)
        ensures
            r == starts_with(drop_front(self@.rest, from as nat), p@),
    {
        let chars = to_chars(p);
        self.cur.has_prefix(from, &chars)
    }

    /// Replaces every `from` in what is left of the line by `to`.
    pub fn replace(&mut self, from: char, to: char)
        ensures
            final(self)@ == (Env { rest: replace_char(old(self)@.rest, from, to), ..old(self)@ }),
    {
        self.cur.replace(from, to);
    }

    /// Writes a newline, unless output is switched off.
    pub fn newline(&mut self)
        ensures
            final(self)@ == old(self)@.newline(),
            final(self)@.rest == old(self)@.rest,
            final(self)@.budget == old(self)@.budget,
    {
        self.emit_char('\n');
    }
}

} // verus!
