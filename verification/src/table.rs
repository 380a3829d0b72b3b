//! Tables: the options and the layout that open one are read and dropped, and
//! its rows are scanned as text.
use crate::chars::{alphabetic, front, lemma_drop_none, lemma_run_len, run_len, CharClass};
use crate::cursor::replace_char;
use crate::deroff::Deroffer;
use crate::model::{ends_format, is_tab_keyword, options_tab, Env, TblState};
use vstd::prelude::*;

verus! {

impl Env {
    /// A line inside a table.
    ///
    /// The line of options may name the field separator; the layout follows
    /// it and lasts up to the line that holds a `.`; of neither anything is
    /// written but a newline. In a row, each field separator becomes a tab
    /// and the row is scanned as text.
    #[verifier::opaque]
    pub open spec fn do_tbl(self) -> Env {
        match self.tblstate {
            TblState::Options => Env {
                rest: Seq::empty(),
                tbl_tab: options_tab(self.rest, self.tbl_tab),
                tblstate: TblState::Format,
                ..self
            }.newline(),
            TblState::Format => Env {
                rest: Seq::empty(),
                tblstate: if ends_format(self.rest) {
                    TblState::Data
                } else {
                    TblState::Format
                },
                ..self
            }.newline(),
            TblState::Data => match self.tbl_tab {
                Some(c) => Env { rest: replace_char(self.rest, c, '\t'), ..self }.text(),
                None => self.text(),
            },
        }
    }
}

impl Deroffer {
    /// Whether the `n` characters at the cursor name the option that sets the
    /// field separator.
    fn at_tab_keyword(&self, n: usize) -> (r: bool)
        requires
            n <= self@.rest.len(),
        ensures
            r == is_tab_keyword(front(self@.rest, n as nat)),
    {
        n == 3 && (self.at(0, 't') || self.at(0, 'T')) && (self.at(1, 'a') || self.at(1, 'A')) && (
        self.at(2, 'b') || self.at(2, 'B'))
    }

    /// Reads the argument of an option, up to and including its `)`, and
    /// finds the field separator in force after it: the first character of
    /// the argument where `keyword` holds, else `tab`.
    fn read_argument(&mut self, keyword: bool, tab: Option<char>) -> (next: Option<char>)
        ensures
            next == if keyword && run_len(old(self)@.rest, CharClass::Except(')')) > 0 {
                Some(old(self)@.rest[0])
            } else {
                tab
            },
            final(self)@ == old(self)@.advance(
                run_len(old(self)@.rest, CharClass::Except(')')) + 1,
            ),
    {
        proof {
            lemma_drop_none(self@.rest);
            lemma_run_len(self@.rest, CharClass::Except(')'));
        }
        let k = self.run(0, CharClass::Except(')'));
        let next = if keyword && k > 0 {
            self.peek(0)
        } else {
            tab
        };
        let left = self.remaining();
        if k < left {
            self.skip_char(k + 1);
        } else {
            self.skip_char(left);
        }
        next
    }

    /// Reads one option of a table, a name with or without an argument in
    /// round brackets, and finds the field separator in force after it.
    fn read_option(&mut self, tab: Option<char>) -> (next: Option<char>)
        requires
            old(self)@.rest.len() > 0,
            old(self)@.rest[0] != ';',
            old(self)@.rest[0] != '\n',
            alphabetic(old(self)@.rest[0]),
        ensures
            options_tab(final(self)@.rest, next) == options_tab(old(self)@.rest, tab),
            final(self)@ == (Env { rest: final(self)@.rest, ..old(self)@ }),
            final(self)@.rest.len() < old(self)@.rest.len(),
    {
        proof {
            lemma_drop_none(self@.rest);
            lemma_run_len(self@.rest, CharClass::Alpha);
        }
        let n = self.run(0, CharClass::Alpha);
        if self.at(n, '(') {
            let keyword = self.at_tab_keyword(n);
            self.skip_char(n + 1);
            self.read_argument(keyword, tab)
        } else {
            self.skip_char(n);
            tab
        }
    }

    /// Reads the options of a table and finds the field separator that they
    /// leave in force.
    fn read_options(&mut self) -> (tab: Option<char>)
        ensures
            tab == options_tab(old(self)@.rest, old(self)@.tbl_tab),
            final(self)@ == (Env { rest: final(self)@.rest, ..old(self)@ }),
    {
        let mut tab = self.tbl_tab();
        let mut done = false;
        while !done
            invariant
                self@ == (Env { rest: self@.rest, ..old(self)@ }),
                !done ==> options_tab(self@.rest, tab) == options_tab(
                    old(self)@.rest,
                    old(self)@.tbl_tab,
                ),
                done ==> tab == options_tab(old(self)@.rest, old(self)@.tbl_tab),
            decreases
                    if done {
                        0
                    } else {
                        1 + self@.rest.len()
                    },
        {
            if self.remaining() == 0 || self.at(0, ';') || self.at(0, '\n') {
                done = true;
            } else if !self.in_class(0, CharClass::Alpha) {
                self.skip_char(1);
            } else {
                tab = self.read_option(tab);
            }
        }
        tab
    }

    /// Scans a line inside a table.
    ///
    /// The line of options may name the character that separates the fields
    /// of a row, as `tab(x)`; the lines of layout after it last up to the one
    /// that holds a `.`. Of those lines nothing is written but a newline
    /// each. In a row, each field separator becomes a tab, and the row is
    /// scanned as text.
    pub fn do_tbl(&mut self) -> (r: bool)
        ensures
            r,
            final(self)@ == old(self)@.do_tbl(),
    {
        reveal(Env::do_tbl);
        match self.tblstate() {
            TblState::Options => {
                let tab = self.read_options();
                self.skip_char(self.remaining());
                assert(self@.rest =~= Seq::<char>::empty());
                self.set_tbl_tab(tab);
                self.set_tblstate(TblState::Format);
                self.newline();
            },
            TblState::Format => {
                let k = self.run(0, CharClass::Except2('.', '\n'));
                proof {
                    lemma_drop_none(self@.rest);
                }
                let last = self.at(k, '.');
                self.skip_char(self.remaining());
                assert(self@.rest =~= Seq::<char>::empty());
                if last {
                    self.set_tblstate(TblState::Data);
                }
                self.newline();
            },
            TblState::Data => {
                match self.tbl_tab() {
                    Some(c) => {
                        self.replace(c, '\t');
                    },
                    None => {},
                }
                self.text();
            },
        }
        true
    }
}

} // verus!
