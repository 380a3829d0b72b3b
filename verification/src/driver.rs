//! The driver: cuts a document into lines and hands each to the scanner.
use crate::chars::{drop_front, front, run_from, run_len, slice, CharClass};
use crate::deroff::Deroffer;
use crate::model::Env;
use vstd::prelude::*;

verus! {

impl Env {
    /// One line: a request where it starts with a `.` or a `'`, else a line
    /// of a table where one is open, else text.
    #[verifier::opaque]
    pub open spec fn do_line(self) -> Env {
        if self.at(0, '.') || self.at(0, '\'') {
            self.request_or_macro()
        } else if self.tbl {
            self.do_tbl()
        } else {
            self.text()
        }
    }

    /// A document: its lines, one after the other. A line ends at a newline
    /// or at the end of the text, and each is scanned with its newline put
    /// back; so what follows the last newline is a line too, an empty one
    /// where nothing follows.
    pub open spec fn deroff(self, text: Seq<char>) -> Env
        decreases text.len(),
    {
        let k = run_len(text, CharClass::Except('\n'));
        let e = self.feed(front(text, k) + seq!['\n']).do_line();
        if k < text.len() {
            e.deroff(drop_front(text, k + 1))
        } else {
            e
        }
    }
}

impl Deroffer {
    /// Scans the current line: as a request where it starts with a `.` or a
    /// `'`, else as a line of a table where one is open, else as text.
    pub fn do_line(&mut self) -> (r: bool)
        ensures
            r,
            final(self)@ == old(self)@.do_line(),
    {
        reveal(Env::do_line);
        if self.at(0, '.') || self.at(0, '\'') {
            self.request_or_macro()
        } else if self.flag(crate::model::Flag::Tbl) {
            self.do_tbl()
        } else {
            self.text()
        }
    }

    /// Scans a document, line by line, and adds its plain text to the output.
    pub fn deroff(&mut self, string: String)
        ensures
            final(self)@ == old(self)@.deroff(string@),
    {
        let chars = crate::chars::to_chars(string.as_str());
        let mut i: usize = 0;
        let mut done = false;
        assert(chars@.skip(0) =~= chars@);
        while !done
            invariant
                i <= chars.len(),
                chars@ == string@,
                !done ==> self@.deroff(chars@.skip(i as int)) == old(self)@.deroff(string@),
                done ==> self@ == old(self)@.deroff(string@),
            decreases
                    if done {
                        0
                    } else {
                        1 + chars.len() - i
                    },
        {
            let ghost text = chars@.skip(i as int);
            let k = run_from(&chars, i, CharClass::Except('\n'));
            let mut line = slice(&chars, i, i + k);
            line.push('\n');
            assert(line@ =~= front(text, k as nat) + seq!['\n']);
            self.feed(line);
            self.do_line();
            if i + k < chars.len() {
                i = i + k + 1;
                assert(chars@.skip(i as int) =~= drop_front(text, (k + 1) as nat));
            } else {
                done = true;
            }
        }
    }
}

} // verus!
