use deroff::requests::{request_named, Request};
use deroff::{Deroffer, Flag, TblState};

fn feed(d: &mut Deroffer, line: &str) {
    d.set_line(line);
    assert!(d.do_line());
}

fn run(text: &str) -> String {
    let mut d = Deroffer::new();
    d.deroff(text.to_owned());
    d.output()
}

#[test]
fn synopsis_heading_turns_the_synopsis_on() {
    for line in [
        ".SH SYNOPSIS\n",
        ".SH \"SYNOPSIS\"\n",
        "'SH SYNOPSIS AND MORE\n",
        ".SH ‹BERSICHT\n",
        ".SH \"‹BERSICHT\"\n",
    ] {
        let mut d = Deroffer::new();
        feed(&mut d, line);
        assert!(d.flag(Flag::Inheader));
        assert!(!d.flag(Flag::Nobody));
        assert_eq!(d.output(), "\n");
    }
}

#[test]
fn another_heading_turns_the_synopsis_off() {
    let mut d = Deroffer::new();
    d.set_flag(Flag::Inheader, true);
    feed(&mut d, ".SH BUGS\n");
    assert!(!d.flag(Flag::Inheader));
    assert!(d.flag(Flag::Nobody));
    assert_eq!(d.output(), "BUGS\n");
    assert_eq!(d.line(), "");
}

#[test]
fn the_next_request_forgets_the_title() {
    let mut d = Deroffer::new();
    feed(&mut d, ".SS Options\n");
    assert!(d.flag(Flag::Nobody));
    feed(&mut d, ".B x\n");
    assert!(!d.flag(Flag::Nobody));
    feed(&mut d, ".IP \\(bu 2\n");
    assert!(d.flag(Flag::Nobody));
    assert_eq!(d.output(), "Options\nx\no 2\n");
}

#[test]
fn font_requests_write_their_arguments() {
    assert_eq!(run(".B bold text"), "bold text\n");
    assert_eq!(run(".BR foo (1)"), "foo (1)\n");
    assert_eq!(run(".I \"two words\" three"), "two words three\n");
    assert_eq!(run(".IR a\\fBb\\fP  c"), "ab  c\n");
    assert_eq!(run("'RB x"), "x\n");
}

#[test]
fn name_request_stores_and_writes_the_name() {
    let mut d = Deroffer::new();
    feed(&mut d, ".Nm  prog  \n");
    assert_eq!(d.name(), "prog ");
    assert_eq!(d.output(), "");
    feed(&mut d, ".Nm\n");
    assert_eq!(d.output(), "prog ");
    feed(&mut d, ".Nm other one\n");
    assert_eq!(d.name(), "other one ");
    feed(&mut d, ".Nm\n");
    assert_eq!(d.output(), "prog other one ");
}

#[test]
fn pictures_are_skipped() {
    let mut d = Deroffer::new();
    feed(&mut d, ".PS\n");
    assert!(d.flag(Flag::Pic));
    feed(&mut d, "box \"text\"\n");
    assert_eq!(d.output(), "");
    feed(&mut d, ".PE\n");
    assert!(!d.flag(Flag::Pic));
    feed(&mut d, "after\n");
    assert_eq!(d.output(), "\nafter\n");
}

#[test]
fn a_switch_needs_white_space_after_the_name() {
    let mut d = Deroffer::new();
    feed(&mut d, ".PSx\n");
    assert!(!d.flag(Flag::Pic));
    feed(&mut d, ".EQx\n");
    assert!(!d.flag(Flag::Eqn));
    feed(&mut d, ".TSx\n");
    assert!(!d.flag(Flag::Tbl));
    feed(&mut d, ".BLx\n");
    assert!(!d.flag(Flag::Inlist));
    assert_eq!(d.output(), "\n\n\n\n");
    feed(&mut d, ".PS 1i\n");
    assert!(d.flag(Flag::Pic));
    feed(&mut d, ".PEx\n");
    assert!(d.flag(Flag::Pic));
}

#[test]
fn equations_are_skipped() {
    let mut d = Deroffer::new();
    feed(&mut d, "before\n");
    feed(&mut d, ".EQ\n");
    assert!(d.flag(Flag::Eqn));
    feed(&mut d, "x sup 2\n");
    feed(&mut d, ".EN\n");
    assert!(!d.flag(Flag::Eqn));
    feed(&mut d, "after\n");
    assert_eq!(d.output(), "before\n\nafter\n");
}

#[test]
fn references_are_skipped() {
    let mut d = Deroffer::new();
    feed(&mut d, ".R[ a reference\n");
    assert!(d.flag(Flag::Refer));
    feed(&mut d, "hidden\n");
    assert_eq!(d.output(), "");
    feed(&mut d, ".R] shown\n");
    assert!(!d.flag(Flag::Refer));
    assert_eq!(d.output(), "] shown\n");
    d.set_flag(Flag::Refer, true);
    feed(&mut d, ".] x\n");
    assert!(!d.flag(Flag::Refer));
    assert_eq!(d.output(), "] shown\nx\n");
}

#[test]
fn a_dot_in_the_third_place_ends_the_line() {
    let mut d = Deroffer::new();
    feed(&mut d, ".x. never read\n");
    assert_eq!(d.output(), "\n");
}

#[test]
fn a_macro_definition_is_never_closed() {
    let mut d = Deroffer::new();
    feed(&mut d, "before\n");
    feed(&mut d, ".de XX\n");
    assert!(d.flag(Flag::InMacro));
    feed(&mut d, "body\n");
    feed(&mut d, "..\n");
    feed(&mut d, ".x.\n");
    feed(&mut d, "after\n");
    assert!(d.flag(Flag::InMacro));
    assert_eq!(d.output(), "before\n");
}

#[test]
fn lists_set_and_clear_the_list_switch() {
    for name in ["BL", "VL", "AL", "LB", "RL", "ML", "DL"] {
        let mut d = Deroffer::new();
        feed(&mut d, &format!(".{} 1\n", name));
        assert!(d.flag(Flag::Inlist));
        feed(&mut d, ".LE\n");
        assert!(!d.flag(Flag::Inlist));
        assert_eq!(d.output(), "\n\n");
    }
    let mut d = Deroffer::new();
    feed(&mut d, ".BV L\n");
    assert!(!d.flag(Flag::Inlist));
    assert_eq!(d.output(), "\n");
}

#[test]
fn a_list_in_the_synopsis_is_hidden() {
    let mut d = Deroffer::new();
    feed(&mut d, ".SH SYNOPSIS\n");
    feed(&mut d, "shown\n");
    feed(&mut d, ".BL\n");
    feed(&mut d, "hidden\n");
    feed(&mut d, ".LE\n");
    feed(&mut d, "shown again\n");
    assert_eq!(d.output(), "\nshown\n\nshown again\n");
}

#[test]
fn paragraphs_and_unknown_requests_write_a_newline() {
    for line in [".LP\n", ".PP\n", ".P\n", ".sp 2\n", ".R1\n", ".R2\n", ".xx y z\n", ".\n"] {
        let mut d = Deroffer::new();
        feed(&mut d, line);
        assert_eq!(d.output(), "\n");
    }
}

#[test]
fn include_requests_write_nothing() {
    for line in [".so other.1\n", ".nx next.1\n"] {
        let mut d = Deroffer::new();
        feed(&mut d, line);
        assert_eq!(d.output(), "");
    }
}

#[test]
fn define_string_stores_a_register() {
    let mut d = Deroffer::new();
    feed(&mut d, ".ds X Hi there\n");
    assert_eq!(d.output(), "\n");
    feed(&mut d, "\\*[X]\n");
    assert_eq!(d.output(), "\nHi there\n");
}

#[test]
fn define_string_strips_the_end_of_the_value_only() {
    let mut d = Deroffer::new();
    feed(&mut d, ".ds   ab    two  words \t \n");
    feed(&mut d, "<\\*(ab>\n");
    assert_eq!(d.output(), "\n<   two  words>\n");
}

#[test]
fn define_string_replaces_an_earlier_value() {
    let mut d = Deroffer::new();
    feed(&mut d, ".ds V one\n");
    feed(&mut d, ".ds V two\n");
    feed(&mut d, "\\*[V]\n");
    assert_eq!(d.output(), "\n\ntwo\n");
}

#[test]
fn define_string_without_a_value_defines_nothing() {
    let mut d = Deroffer::new();
    feed(&mut d, ".ds X\n");
    feed(&mut d, ".ds\n");
    feed(&mut d, "a\\*[X]b\n");
    assert_eq!(d.output(), "\n\nab\n");
}

#[test]
fn a_value_with_escapes_is_expanded_when_it_is_used() {
    let mut d = Deroffer::new();
    feed(&mut d, ".ds C \\(co \\fB2024\\fP\n");
    feed(&mut d, "\\*[C] and \\*[C]\n");
    assert_eq!(d.output(), "\n© 2024 and © 2024\n");
}

#[test]
fn translation_request_changes_later_output() {
    let mut d = Deroffer::new();
    feed(&mut d, ".tr ab\n");
    assert_eq!(d.output(), "");
    feed(&mut d, "banana\n");
    assert_eq!(d.output(), "bbnbnb\n");
}

#[test]
fn translation_pairs_a_last_character_with_a_space() {
    let mut d = Deroffer::new();
    feed(&mut d, ".tr abc\n");
    feed(&mut d, "abcabc\n");
    assert_eq!(d.output(), "bb bb \n");
}

#[test]
fn translation_requests_add_up() {
    let mut d = Deroffer::new();
    feed(&mut d, ".tr ab\n");
    feed(&mut d, ".tr cd\n");
    feed(&mut d, "abcd\n");
    feed(&mut d, ".tr ax\n");
    feed(&mut d, "abcd\n");
    assert_eq!(d.output(), "bbdd\nxbdd\n");
}

#[test]
fn an_empty_translation_request_still_builds_a_table() {
    let mut d = Deroffer::new();
    feed(&mut d, ".tr\n");
    feed(&mut d, "same\n");
    assert_eq!(d.output(), "same\n");
}

#[test]
fn request_names_are_looked_up() {
    assert_eq!(request_named('S', 'H'), Request::Sh);
    assert_eq!(request_named('H', ' '), Request::SsIp);
    assert_eq!(request_named('A', 'B'), Request::IIr);
    assert_eq!(request_named('N', 'm'), Request::Nm);
    assert_eq!(request_named(']', ' '), Request::CloseBracket);
    assert_eq!(request_named('T', '&'), Request::TAnd);
    assert_eq!(request_named('P', '\n'), Request::LpPp);
    assert_eq!(request_named('d', 'e'), Request::De);
    assert_eq!(request_named('d', 's'), Request::Ds);
    assert_eq!(request_named('n', 'x'), Request::SoNx);
    assert_eq!(request_named('t', 'r'), Request::Tr);
    assert_eq!(request_named('s', 'p'), Request::Sp);
    assert_eq!(request_named('s', 'h'), Request::Other);
    assert_eq!(request_named('D', 'S'), Request::Other);
}

#[test]
fn dispatch_reads_the_name_at_the_cursor() {
    let mut d = Deroffer::new();
    d.set_line("de x\n");
    assert!(d.g_macro_dispatch());
    assert!(d.flag(Flag::InMacro));
    d.set_line("B x\n");
    assert!(!d.g_macro_dispatch());
    d.set_line("B");
    assert!(d.g_macro_dispatch());
}

#[test]
fn a_table_is_read_row_by_row() {
    let mut d = Deroffer::new();
    feed(&mut d, ".TS\n");
    assert!(d.flag(Flag::Tbl));
    assert_eq!(d.tblstate(), TblState::Options);
    feed(&mut d, "center box tab(:);\n");
    assert_eq!(d.tblstate(), TblState::Format);
    assert_eq!(d.tbl_tab(), Some(':'));
    feed(&mut d, "l l\n");
    assert_eq!(d.tblstate(), TblState::Format);
    feed(&mut d, "l l.\n");
    assert_eq!(d.tblstate(), TblState::Data);
    feed(&mut d, "a:b\\fB:c\n");
    feed(&mut d, ".T&\n");
    assert_eq!(d.tblstate(), TblState::Format);
    feed(&mut d, "c c.\n");
    assert_eq!(d.tblstate(), TblState::Data);
    feed(&mut d, "d:e\n");
    feed(&mut d, ".TE\n");
    assert!(!d.flag(Flag::Tbl));
    feed(&mut d, "x:y\n");
    assert_eq!(d.output(), "\n\n\n\na\tb\tc\n\n\nd\te\n\nx:y\n");
    assert_eq!(d.get_output(), "\na\tb\tc\nd\te\n\nx:y\n");
}

#[test]
fn table_options_name_the_field_separator() {
    let cases = [
        ("tab(@);\n", Some('@')),
        ("TAB(|) ;\n", Some('|')),
        ("Tab (x);\n", None),
        ("box, tab(é), center;\n", Some('é')),
        ("tab(a) tab(b);\n", Some('b')),
        ("tab();\n", None),
        ("tab(;\n", Some(';')),
        ("; tab(:)\n", None),
        ("tabs(:);\n", None),
        ("linesize(6);\n", None),
        ("\n", None),
    ];
    for (line, tab) in cases {
        let mut d = Deroffer::new();
        d.set_flag(Flag::Tbl, true);
        feed(&mut d, line);
        assert_eq!(d.tbl_tab(), tab, "{:?}", line);
        assert_eq!(d.tblstate(), TblState::Format);
        assert_eq!(d.output(), "\n");
        assert_eq!(d.line(), "");
    }
}

#[test]
fn table_rows_without_a_separator_are_plain_text() {
    let mut d = Deroffer::new();
    d.set_flag(Flag::Tbl, true);
    d.set_tblstate(TblState::Data);
    feed(&mut d, "a:b \\(co\n");
    assert_eq!(d.output(), "a:b ©\n");
}

#[test]
fn a_request_inside_a_table_is_still_a_request() {
    let mut d = Deroffer::new();
    d.set_flag(Flag::Tbl, true);
    d.set_tblstate(TblState::Data);
    d.set_tbl_tab(Some(':'));
    feed(&mut d, ".B a:b\n");
    assert_eq!(d.output(), "a:b\n");
}

#[test]
fn documents_are_cut_into_lines() {
    assert_eq!(run(""), "\n");
    assert_eq!(run("a"), "a\n");
    assert_eq!(run("a\n"), "a\n\n");
    assert_eq!(run("a\nb"), "a\nb\n");
    assert_eq!(run("a\n\nb"), "a\n\nb\n");
}

#[test]
fn a_whole_page() {
    let page = ".TH PROG 1\n.SH NAME\nprog \\- does \\fIthings\\fP\n.SH SYNOPSIS\n.B prog\n[\\fB\\-v\\fP]\n.SH DESCRIPTION\n.ds Pn prog\n\\*(Pn reads \\(lqfiles\\(rq.\n.PS\nbox\n.PE\nDone\\*(Tm.";
    let mut d = Deroffer::new();
    d.deroff(page.to_owned());
    assert_eq!(
        d.output(),
        "\nNAME\nprog - does things\n\nprog\n[-v]\nDESCRIPTION\n\nprog reads “files”.\n\nDone.\n"
    );
    assert_eq!(d.get_output(), d.output());
    assert!(!d.flag(Flag::Inheader));
    assert!(!d.flag(Flag::Pic));
}

#[test]
fn deroff_can_be_fed_in_parts() {
    let mut d = Deroffer::new();
    d.deroff(".ds X one".to_owned());
    d.deroff("\\*[X] two".to_owned());
    assert_eq!(d.get_output(), "\none two\n");
}
