//! Requests: the lines that start with a `.` or a `'`, and what each asks
//! the scanner to do.
use crate::chars::{
    drop_front, front, lemma_drop_none, run_from, slice, starts_with, tail_run, trim_end,
    trim_start, CharClass,
};
use crate::deroff::Deroffer;
use crate::model::{tr_rest, tr_sources, tr_targets, Env, Flag, TblState};
use crate::util::pairs_table;
use vstd::prelude::*;

verus! {

/// What a request asks for. Several names may ask for the same thing.
#[derive(Clone, Copy, PartialEq, Eq, Structural, Debug)]
pub enum Request {
    /// `SH`: a section heading.
    Sh,
    /// `SS`, `IP`, `H`: a heading or a paragraph with a title of its own.
    SsIp,
    /// `I`, `IR`, `IB`, `B`, `BR`, `BI`, `R`, `RB`, `RI`, `AB`: text in
    /// another font.
    IIr,
    /// `Nm`: the name of the program.
    Nm,
    /// `]`: the end of a bibliographic reference.
    CloseBracket,
    /// `PS`: the start of a picture.
    Ps,
    /// `PE`: the end of a picture.
    Pe,
    /// `TS`: the start of a table.
    Ts,
    /// `T&`: a new layout within a table.
    TAnd,
    /// `TE`: the end of a table.
    Te,
    /// `EQ`: the start of an equation.
    Eq,
    /// `EN`: the end of an equation.
    En,
    /// `R1`: kept for old documents; it asks for nothing.
    R1,
    /// `R2`: kept for old documents; it asks for nothing.
    R2,
    /// `de`: the start of a macro definition.
    De,
    /// `BL`, `VL`, `AL`, `LB`, `RL`, `ML`, `DL`: the start of a list.
    BlVl,
    /// `BV`: the start of a list of another kind.
    Bv,
    /// `LE`: the end of a list.
    Le,
    /// `LP`, `PP`, `P`: a new paragraph.
    LpPp,
    /// `ds`: the definition of a string register.
    Ds,
    /// `so`, `nx`: the inclusion of another file.
    SoNx,
    /// `tr`: the translation of characters.
    Tr,
    /// `sp`: vertical space.
    Sp,
    /// Any other name.
    Other,
}

/// What the request named `ab` asks for.
#[verifier::opaque]
pub open spec fn request_of(a: char, b: char) -> Request {
    match (a, b) {
        ('S', 'H') => Request::Sh,
        ('S', 'S') => Request::SsIp,
        ('I', 'P') => Request::SsIp,
        ('H', ' ') => Request::SsIp,
        ('I', ' ') => Request::IIr,
        ('I', 'R') => Request::IIr,
        ('I', 'B') => Request::IIr,
        ('B', ' ') => Request::IIr,
        ('B', 'R') => Request::IIr,
        ('B', 'I') => Request::IIr,
        ('R', ' ') => Request::IIr,
        ('R', 'B') => Request::IIr,
        ('R', 'I') => Request::IIr,
        ('A', 'B') => Request::IIr,
        ('N', 'm') => Request::Nm,
        (']', ' ') => Request::CloseBracket,
        ('P', 'S') => Request::Ps,
        ('P', 'E') => Request::Pe,
        ('T', 'S') => Request::Ts,
        ('T', '&') => Request::TAnd,
        ('T', 'E') => Request::Te,
        ('E', 'Q') => Request::Eq,
        ('E', 'N') => Request::En,
        ('R', '1') => Request::R1,
        ('R', '2') => Request::R2,
        ('d', 'e') => Request::De,
        ('B', 'L') => Request::BlVl,
        ('V', 'L') => Request::BlVl,
        ('A', 'L') => Request::BlVl,
        ('L', 'B') => Request::BlVl,
        ('R', 'L') => Request::BlVl,
        ('M', 'L') => Request::BlVl,
        ('D', 'L') => Request::BlVl,
        ('B', 'V') => Request::Bv,
        ('L', 'E') => Request::Le,
        ('L', 'P') => Request::LpPp,
        ('P', 'P') => Request::LpPp,
        ('P', '\n') => Request::LpPp,
        ('d', 's') => Request::Ds,
        ('s', 'o') => Request::SoNx,
        ('n', 'x') => Request::SoNx,
        ('t', 'r') => Request::Tr,
        ('s', 'p') => Request::Sp,
        _ => Request::Other,
    }
}

/// Finds what the request named `ab` asks for.
pub fn request_named(a: char, b: char) -> (r: Request)
    ensures
        r == request_of(a, b),
{
    reveal(request_of);
    match (a, b) {
        ('S', 'H') => Request::Sh,
        ('S', 'S') => Request::SsIp,
        ('I', 'P') => Request::SsIp,
        ('H', ' ') => Request::SsIp,
        ('I', ' ') => Request::IIr,
        ('I', 'R') => Request::IIr,
        ('I', 'B') => Request::IIr,
        ('B', ' ') => Request::IIr,
        ('B', 'R') => Request::IIr,
        ('B', 'I') => Request::IIr,
        ('R', ' ') => Request::IIr,
        ('R', 'B') => Request::IIr,
        ('R', 'I') => Request::IIr,
        ('A', 'B') => Request::IIr,
        ('N', 'm') => Request::Nm,
        (']', ' ') => Request::CloseBracket,
        ('P', 'S') => Request::Ps,
        ('P', 'E') => Request::Pe,
        ('T', 'S') => Request::Ts,
        ('T', '&') => Request::TAnd,
        ('T', 'E') => Request::Te,
        ('E', 'Q') => Request::Eq,
        ('E', 'N') => Request::En,
        ('R', '1') => Request::R1,
        ('R', '2') => Request::R2,
        ('d', 'e') => Request::De,
        ('B', 'L') => Request::BlVl,
        ('V', 'L') => Request::BlVl,
        ('A', 'L') => Request::BlVl,
        ('L', 'B') => Request::BlVl,
        ('R', 'L') => Request::BlVl,
        ('M', 'L') => Request::BlVl,
        ('D', 'L') => Request::BlVl,
        ('B', 'V') => Request::Bv,
        ('L', 'E') => Request::Le,
        ('L', 'P') => Request::LpPp,
        ('P', 'P') => Request::LpPp,
        ('P', '\n') => Request::LpPp,
        ('d', 's') => Request::Ds,
        ('s', 'o') => Request::SoNx,
        ('n', 'x') => Request::SoNx,
        ('t', 'r') => Request::Tr,
        ('s', 'p') => Request::Sp,
        _ => Request::Other,
    }
}

impl Env {
    /// Whether the heading at the cursor opens the synopsis. The cursor
    /// stands at the name of the request.
    pub open spec fn is_synopsis(self) -> bool {
        let title = drop_front(self.rest, 2);
        ||| starts_with(title, " SYNOPSIS"@)
        ||| starts_with(title, " \"SYNOPSIS"@)
        ||| starts_with(title, " ‹BERSICHT"@)
        ||| starts_with(title, " \"‹BERSICHT"@)
    }

    /// Turns `which` on or off where white space follows the name of the
    /// request, and writes a newline.
    pub open spec fn guarded(self, which: Flag, value: bool) -> Env {
        if self.white_at(2) {
            self.with_flag(which, value).newline()
        } else {
            self.newline()
        }
    }

    /// Moves to `state` of a table where white space follows the name of
    /// the request, and writes a newline.
    pub open spec fn table_at(self, state: TblState) -> Env {
        if self.white_at(2) {
            Env { tbl: true, tblstate: state, ..self }.newline()
        } else {
            self.newline()
        }
    }

    /// `SH`: the heading of the synopsis turns the synopsis on and ends the
    /// line with a newline; any other heading turns it off.
    pub open spec fn macro_sh(self) -> (bool, Env) {
        if self.is_synopsis() {
            (true, Env { inheader: true, ..self }.newline())
        } else {
            (false, Env { inheader: false, nobody: true, ..self })
        }
    }

    /// `SS`, `IP`, `H`.
    pub open spec fn macro_ss_ip(self) -> (bool, Env) {
        (false, Env { nobody: true, ..self })
    }

    /// The font requests.
    pub open spec fn macro_i_ir(self) -> (bool, Env) {
        (false, self)
    }

    /// `Nm`: alone on its line it writes the name of the program; with
    /// arguments it takes them, trimmed and with a space after them, as that
    /// name.
    pub open spec fn macro_nm(self) -> (bool, Env) {
        if self.rest == seq!['N', 'm', '\n'] {
            (true, self.emit(self.name))
        } else {
            (
                true,
                Env {
                    name: trim_end(trim_start(drop_front(self.rest, 3))) + seq![' '],
                    ..self
                },
            )
        }
    }

    /// `]`.
    pub open spec fn macro_close_bracket(self) -> (bool, Env) {
        (false, Env { refer: false, ..self })
    }

    /// `PS`.
    pub open spec fn macro_ps(self) -> (bool, Env) {
        (true, self.guarded(Flag::Pic, true))
    }

    /// `PE`.
    pub open spec fn macro_pe(self) -> (bool, Env) {
        (true, self.guarded(Flag::Pic, false))
    }

    /// `TS`.
    pub open spec fn macro_ts(self) -> (bool, Env) {
        (true, self.table_at(TblState::Options))
    }

    /// `T&`.
    pub open spec fn macro_t_and(self) -> (bool, Env) {
        (true, self.table_at(TblState::Format))
    }

    /// `TE`.
    pub open spec fn macro_te(self) -> (bool, Env) {
        (true, self.guarded(Flag::Tbl, false))
    }

    /// `EQ`.
    pub open spec fn macro_eq(self) -> (bool, Env) {
        (true, self.guarded(Flag::Eqn, true))
    }

    /// `EN`.
    pub open spec fn macro_en(self) -> (bool, Env) {
        (true, self.guarded(Flag::Eqn, false))
    }

    /// `R1`.
    pub open spec fn macro_r1(self) -> (bool, Env) {
        (true, self.newline())
    }

    /// `R2`.
    pub open spec fn macro_r2(self) -> (bool, Env) {
        (true, self.newline())
    }

    /// `de`: from here on a macro definition is being skipped, and no request
    /// ends it.
    pub open spec fn macro_de(self) -> (bool, Env) {
        (true, Env { in_macro: true, ..self }.newline())
    }

    /// The requests that start a list.
    pub open spec fn macro_bl_vl(self) -> (bool, Env) {
        (true, self.guarded(Flag::Inlist, true))
    }

    /// `BV`.
    pub open spec fn macro_bv(self) -> (bool, Env) {
        (true, self.newline())
    }

    /// `LE`.
    pub open spec fn macro_le(self) -> (bool, Env) {
        (true, self.guarded(Flag::Inlist, false))
    }

    /// `LP`, `PP`, `P`.
    pub open spec fn macro_lp_pp(self) -> (bool, Env) {
        (true, self.newline())
    }

    /// `ds`: what follows the name of the request, up to the first space, is
    /// the name of a register; what follows that space, without trailing
    /// white space, is its value. Without a space nothing is defined.
    pub open spec fn macro_ds(self) -> (bool, Env) {
        let e = self.advance(2).trim();
        let k = e.run(0, CharClass::Except(' '));
        if k < e.rest.len() {
            (
                true,
                Env {
                    regs: e.regs.insert(front(e.rest, k), trim_end(drop_front(e.rest, k + 1))),
                    ..e
                }.newline(),
            )
        } else {
            (true, e.newline())
        }
    }

    /// `so`, `nx`.
    pub open spec fn macro_so_nx(self) -> (bool, Env) {
        (true, self)
    }

    /// What the pairs of a translation request, as far as they are still to
    /// be read, will have made of the state.
    pub open spec fn tr_read(self) -> Env {
        Env {
            rest: tr_rest(self.rest),
            tr_from: self.tr_from + tr_sources(self.rest),
            tr_to: self.tr_to + tr_targets(self.rest),
            ..self
        }
    }

    /// `tr`: the arguments are read two characters at a time, the first to be
    /// replaced by the second; a last one without a partner is replaced by a
    /// space. The pairs join those of earlier requests, and all of them
    /// together make the translation that is in force from now on.
    pub open spec fn macro_tr(self) -> (bool, Env) {
        let e = self.advance(2).trim().tr_read();
        (true, Env { table: Some(pairs_table(e.tr_from, e.tr_to)), ..e })
    }

    /// `sp`.
    pub open spec fn macro_sp(self) -> (bool, Env) {
        (true, self.newline())
    }

    /// A request that the scanner does not know.
    pub open spec fn macro_other(self) -> (bool, Env) {
        (true, self.newline())
    }

    /// Does what `request` asks for. The verdict says whether the line is
    /// done with; where it is not, its arguments are still to be scanned.
    pub open spec fn handle(self, request: Request) -> (bool, Env) {
        match request {
            Request::Sh => self.macro_sh(),
            Request::SsIp => self.macro_ss_ip(),
            Request::IIr => self.macro_i_ir(),
            Request::Nm => self.macro_nm(),
            Request::CloseBracket => self.macro_close_bracket(),
            Request::Ps => self.macro_ps(),
            Request::Pe => self.macro_pe(),
            Request::Ts => self.macro_ts(),
            Request::TAnd => self.macro_t_and(),
            Request::Te => self.macro_te(),
            Request::Eq => self.macro_eq(),
            Request::En => self.macro_en(),
            Request::R1 => self.macro_r1(),
            Request::R2 => self.macro_r2(),
            Request::De => self.macro_de(),
            Request::BlVl => self.macro_bl_vl(),
            Request::Bv => self.macro_bv(),
            Request::Le => self.macro_le(),
            Request::LpPp => self.macro_lp_pp(),
            Request::Ds => self.macro_ds(),
            Request::SoNx => self.macro_so_nx(),
            Request::Tr => self.macro_tr(),
            Request::Sp => self.macro_sp(),
            Request::Other => self.macro_other(),
        }
    }

    /// The request that the two characters at the cursor name.
    pub open spec fn request(self) -> Request {
        match (self.peek(0), self.peek(1)) {
            (Some(a), Some(b)) => request_of(a, b),
            _ => Request::Other,
        }
    }

    /// Does what the request named at the cursor asks for.
    pub open spec fn g_macro_dispatch(self) -> (bool, Env) {
        self.handle(self.request())
    }

    /// A request line, from its `.` or `'` to its end.
    ///
    /// A `[` in the third place opens a bibliographic reference and a `]`
    /// there closes one; a `.` there ends the line. Otherwise the request is
    /// looked up by the two characters of its name and handled; where that
    /// does not finish the line, the name is skipped and the arguments are
    /// scanned.
    #[verifier::opaque]
    pub open spec fn request_or_macro(self) -> Env {
        let e = self.advance(1);
        if e.at(1, '[') {
            Env { refer: true, ..e }.newline()
        } else if e.at(1, ']') {
            Env { refer: false, ..e }.advance(1).text()
        } else if e.at(1, '.') {
            e.newline()
        } else {
            let (handled, e1) = Env { nobody: false, ..e }.g_macro_dispatch();
            if handled {
                e1
            } else {
                let e2 = e1.trim();
                e2.advance(e2.run(0, CharClass::NonSpace)).trim().args_loop()
            }
        }
    }
}

impl Deroffer {
    /// Turns `which` on or off where white space follows the name of the
    /// request, and writes a newline.
    fn guarded(&mut self, which: Flag, value: bool)
        ensures
            final(self)@ == old(self)@.guarded(which, value),
    {
        if self.is_white(2) {
            self.set_flag(which, value);
        }
        self.newline();
    }

    /// Moves to `state` of a table where white space follows the name of the
    /// request, and writes a newline.
    fn table_at(&mut self, state: TblState)
        ensures
            final(self)@ == old(self)@.table_at(state),
    {
        if self.is_white(2) {
            self.set_flag(Flag::Tbl, true);
            self.set_tblstate(state);
        }
        self.newline();
    }

    /// Handles `SH`, a section heading. The heading of the synopsis, `SYNOPSIS`
    /// with or without a quote before it, turns the synopsis on, and the line
    /// ends there with a newline. Any other heading turns the synopsis off
    /// and leaves its title to be scanned.
    pub fn macro_sh(&mut self) -> (r: bool)
        ensures
            (r, final(self)@) == old(self)@.macro_sh(),
    {
        if self.has_prefix(2, " SYNOPSIS") || self.has_prefix(2, " \"SYNOPSIS") || self.has_prefix(
            2,
            " ‹BERSICHT",
        ) || self.has_prefix(2, " \"‹BERSICHT") {
            self.set_flag(Flag::Inheader, true);
            self.newline();
            true
        } else {
            self.set_flag(Flag::Inheader, false);
            self.set_flag(Flag::Nobody, true);
            false
        }
    }

    /// Handles `SS`, `IP` and `H`: the title is left to be scanned.
    pub fn macro_ss_ip(&mut self) -> (r: bool)
        ensures
            (r, final(self)@) == old(self)@.macro_ss_ip(),
    {
        self.set_flag(Flag::Nobody, true);
        false
    }

    /// Handles the font requests: the text is left to be scanned.
    pub fn macro_i_ir(&mut self) -> (r: bool)
        ensures
            (r, final(self)@) == old(self)@.macro_i_ir(),
    {
        false
    }

    /// Handles `Nm`. Alone on its line it writes the name of the program;
    /// with arguments it takes them, trimmed and with a space after them, as
    /// that name.
    pub fn macro_nm(&mut self) -> (r: bool)
        ensures
            (r, final(self)@) == old(self)@.macro_nm(),
    {
        if self.remaining() == 3 && self.at(0, 'N') && self.at(1, 'm') && self.at(2, '\n') {
            assert(self@.rest =~= seq!['N', 'm', '\n']);
            self.emit_name();
        } else {
            let tail = self.copy(3, self.remaining());
            let lead = run_from(&tail, 0, CharClass::Space);
            let mid = slice(&tail, lead, tail.len());
            let n = tail_run(&mid, CharClass::Space);
            let mut name = slice(&mid, 0, mid.len() - n);
            name.push(' ');
            proof {
                let t = drop_front(self@.rest, 3);
                assert(tail@ == t);
                assert(tail@.skip(0) =~= tail@);
                assert(mid@ =~= trim_start(t));
                assert(name@ =~= trim_end(mid@) + seq![' ']);
            }
            self.set_name(name);
        }
        true
    }

    /// Handles `]`, the end of a bibliographic reference.
    pub fn macro_close_bracket(&mut self) -> (r: bool)
        ensures
            (r, final(self)@) == old(self)@.macro_close_bracket(),
    {
        self.set_flag(Flag::Refer, false);
        false
    }

    /// Handles `PS`: a picture starts, where white space follows the name.
    pub fn macro_ps(&mut self) -> (r: bool)
        ensures
            (r, final(self)@) == old(self)@.macro_ps(),
    {
        self.guarded(Flag::Pic, true);
        true
    }

    /// Handles `PE`: a picture ends, where white space follows the name.
    pub fn macro_pe(&mut self) -> (r: bool)
        ensures
            (r, final(self)@) == old(self)@.macro_pe(),
    {
        self.guarded(Flag::Pic, false);
        true
    }

    /// Handles `TS`: a table starts with its options, where white space
    /// follows the name.
    pub fn macro_ts(&mut self) -> (r: bool)
        ensures
            (r, final(self)@) == old(self)@.macro_ts(),
    {
        self.table_at(TblState::Options);
        true
    }

    /// Handles `T&`: a table goes on with a new layout, where white space
    /// follows the name.
    pub fn macro_t_and(&mut self) -> (r: bool)
        ensures
            (r, final(self)@) == old(self)@.macro_t_and(),
    {
        self.table_at(TblState::Format);
        true
    }

    /// Handles `TE`: a table ends, where white space follows the name.
    pub fn macro_te(&mut self) -> (r: bool)
        ensures
            (r, final(self)@) == old(self)@.macro_te(),
    {
        self.guarded(Flag::Tbl, false);
        true
    }

    /// Handles `EQ`: an equation starts, where white space follows the name.
    pub fn macro_eq(&mut self) -> (r: bool)
        ensures
            (r, final(self)@) == old(self)@.macro_eq(),
    {
        self.guarded(Flag::Eqn, true);
        true
    }

    /// Handles `EN`: an equation ends, where white space follows the name.
    pub fn macro_en(&mut self) -> (r: bool)
        ensures
            (r, final(self)@) == old(self)@.macro_en(),
    {
        self.guarded(Flag::Eqn, false);
        true
    }

    /// Handles `R1`, which asks for nothing but the end of the line.
    pub fn macro_r1(&mut self) -> (r: bool)
        ensures
            (r, final(self)@) == old(self)@.macro_r1(),
    {
        self.newline();
        true
    }

    /// Handles `R2`, which asks for nothing but the end of the line.
    pub fn macro_r2(&mut self) -> (r: bool)
        ensures
            (r, final(self)@) == old(self)@.macro_r2(),
    {
        self.newline();
        true
    }

    /// Handles `de`: a macro definition starts. Nothing is written from here
    /// on, this line's newline included, and no request ends the definition.
    pub fn macro_de(&mut self) -> (r: bool)
        ensures
            (r, final(self)@) == old(self)@.macro_de(),
    {
        self.set_flag(Flag::InMacro, true);
        self.newline();
        true
    }

    /// Handles the requests that start a list, where white space follows the
    /// name.
    pub fn macro_bl_vl(&mut self) -> (r: bool)
        ensures
            (r, final(self)@) == old(self)@.macro_bl_vl(),
    {
        self.guarded(Flag::Inlist, true);
        true
    }

    /// Handles `BV`, which starts no list.
    pub fn macro_bv(&mut self) -> (r: bool)
        ensures
            (r, final(self)@) == old(self)@.macro_bv(),
    {
        self.newline();
        true
    }

    /// Handles `LE`: a list ends, where white space follows the name.
    pub fn macro_le(&mut self) -> (r: bool)
        ensures
            (r, final(self)@) == old(self)@.macro_le(),
    {
        self.guarded(Flag::Inlist, false);
        true
    }

    /// Handles `LP`, `PP` and `P`: a new paragraph.
    pub fn macro_lp_pp(&mut self) -> (r: bool)
        ensures
            (r, final(self)@) == old(self)@.macro_lp_pp(),
    {
        self.newline();
        true
    }

    /// Handles `ds`, the definition of a string register. What follows the
    /// name of the request, up to the first space, names the register; what
    /// follows that space, without trailing white space, is its value.
    pub fn macro_ds(&mut self) -> (r: bool)
        ensures
            (r, final(self)@) == old(self)@.macro_ds(),
    {
        self.skip_char(2);
        self.skip_leading_whitespace();
        let k = self.run(0, CharClass::Except(' '));
        let left = self.remaining();
        proof {
            lemma_drop_none(self@.rest);
        }
        if k < left {
            let name = self.copy(0, k);
            let tail = self.copy(k + 1, left);
            let n = tail_run(&tail, CharClass::Space);
            let value = slice(&tail, 0, tail.len() - n);
            assert(value@ =~= trim_end(tail@));
            self.define(name, value);
        }
        self.newline();
        true
    }

    /// Handles `so` and `nx`: other files are not read.
    pub fn macro_so_nx(&mut self) -> (r: bool)
        ensures
            (r, final(self)@) == old(self)@.macro_so_nx(),
    {
        true
    }

    /// Handles `tr`, the translation of characters. The arguments are read
    /// two characters at a time, the first to be replaced by the second; a
    /// last one without a partner is replaced by a space. The pairs join
    /// those of earlier requests, and all together make the translation in
    /// force from now on.
    pub fn macro_tr(&mut self) -> (r: bool)
        ensures
            (r, final(self)@) == old(self)@.macro_tr(),
    {
        self.skip_char(2);
        self.skip_leading_whitespace();
        let ghost start = self@;
        let mut done = false;
        while !done
            invariant
                self@.tr_read() == start.tr_read(),
                done ==> self@.rest.len() == 0 || self@.rest[0] == '\n',
            decreases
                    if done {
                        0
                    } else {
                        1 + self@.rest.len()
                    },
        {
            match self.peek(0) {
                Some(c) => {
                    if c == '\n' {
                        done = true;
                    } else {
                        let to = match self.peek(1) {
                            Some(x) => if x != '\n' {
                                x
                            } else {
                                ' '
                            },
                            None => ' ',
                        };
                        let ghost before = self@;
                        self.add_translation(c, to);
                        self.skip_char(2);
                        assert(self@.tr_from + tr_sources(self@.rest) =~= before.tr_from
                            + tr_sources(before.rest));
                        assert(self@.tr_to + tr_targets(self@.rest) =~= before.tr_to + tr_targets(
                            before.rest,
                        ));
                    }
                },
                None => {
                    done = true;
                },
            }
        }
        assert(self@.tr_read() =~= self@) by {
            assert(self@.tr_from + tr_sources(self@.rest) =~= self@.tr_from);
            assert(self@.tr_to + tr_targets(self@.rest) =~= self@.tr_to);
        }
        self.rebuild_table();
        true
    }

    /// Handles `sp`, vertical space.
    pub fn macro_sp(&mut self) -> (r: bool)
        ensures
            (r, final(self)@) == old(self)@.macro_sp(),
    {
        self.newline();
        true
    }

    /// Handles a request that the scanner does not know.
    pub fn macro_other(&mut self) -> (r: bool)
        ensures
            (r, final(self)@) == old(self)@.macro_other(),
    {
        self.newline();
        true
    }

    /// Does what `request` asks for.
    fn handle(&mut self, request: Request) -> (r: bool)
        ensures
            (r, final(self)@) == old(self)@.handle(request),
    {
        match request {
            Request::Sh => self.macro_sh(),
            Request::SsIp => self.macro_ss_ip(),
            Request::IIr => self.macro_i_ir(),
            Request::Nm => self.macro_nm(),
            Request::CloseBracket => self.macro_close_bracket(),
            Request::Ps => self.macro_ps(),
            Request::Pe => self.macro_pe(),
            Request::Ts => self.macro_ts(),
            Request::TAnd => self.macro_t_and(),
            Request::Te => self.macro_te(),
            Request::Eq => self.macro_eq(),
            Request::En => self.macro_en(),
            Request::R1 => self.macro_r1(),
            Request::R2 => self.macro_r2(),
            Request::De => self.macro_de(),
            Request::BlVl => self.macro_bl_vl(),
            Request::Bv => self.macro_bv(),
            Request::Le => self.macro_le(),
            Request::LpPp => self.macro_lp_pp(),
            Request::Ds => self.macro_ds(),
            Request::SoNx => self.macro_so_nx(),
            Request::Tr => self.macro_tr(),
            Request::Sp => self.macro_sp(),
            Request::Other => self.macro_other(),
        }
    }

    /// Looks up the request that the two characters at the cursor name, and
    /// does what it asks for. The verdict says whether the line is done with;
    /// where it is not, its arguments are still to be scanned.
    pub fn g_macro_dispatch(&mut self) -> (r: bool)
        ensures
            (r, final(self)@) == old(self)@.g_macro_dispatch(),
    {
        let request = match (self.peek(0), self.peek(1)) {
            (Some(a), Some(b)) => request_named(a, b),
            _ => Request::Other,
        };
        self.handle(request)
    }

    /// Scans a request line, from its `.` or `'` to its end.
    ///
    /// A `[` in the third place of the line opens a bibliographic reference
    /// and a `]` there closes one; a `.` there ends the line. Otherwise the
    /// request is looked up by the two characters of its name and handled;
    /// where that does not finish the line, the name is skipped and the
    /// arguments are scanned and written.
    pub fn request_or_macro(&mut self) -> (r: bool)
        ensures
            r,
            final(self)@ == old(self)@.request_or_macro(),
    {
        reveal(Env::request_or_macro);
        self.skip_char(1);
        if self.at(1, '[') {
            self.set_flag(Flag::Refer, true);
            self.newline();
            return true;
        }
        if self.at(1, ']') {
            self.set_flag(Flag::Refer, false);
            self.skip_char(1);
            return self.text();
        }
        if self.at(1, '.') {
            self.newline();
            return true;
        }
        self.set_flag(Flag::Nobody, false);
        if self.g_macro_dispatch() {
            return true;
        }
        self.skip_leading_whitespace();
        let n = self.run(0, CharClass::NonSpace);
        self.skip_char(n);
        self.skip_leading_whitespace();
        self.args_loop();
        true
    }
}

} // verus!
