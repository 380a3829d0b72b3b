use deroff::glyphs::{g_specs, g_specs_specletter};
use deroff::{Deroffer, Flag, TranslationTable};

fn on_line(line: &str) -> Deroffer {
    let mut d = Deroffer::new();
    d.set_line(line);
    d
}

#[test]
fn test_get_output() {
    let mut deroffer = Deroffer::new();
    deroffer.set_output("foo\n\nbar");
    assert_eq!(&deroffer.get_output(), "foo\n\nbar");
    deroffer.set_output("foo\n\n\nbar");
    assert_eq!(&deroffer.get_output(), "foo\nbar");
}

#[test]
fn test_condputs() {
    let mut d = Deroffer::new();

    assert_eq!(d.output(), String::new());
    d.condputs("Hello World!\n");
    assert_eq!(d.output(), "Hello World!\n".to_owned());
    d.set_flag(Flag::Pic, true);
    d.condputs("This won't go to output");
    assert_eq!(d.output(), "Hello World!\n".to_owned());
    d.set_flag(Flag::Pic, false);
    d.condputs("This will go to output :)");
    assert_eq!(
        d.output(),
        "Hello World!\nThis will go to output :)".to_owned()
    );

    // Test the translation check
    d.set_tr(TranslationTable::new("Ttr", "AAA").ok());
    d.condputs("Translate test");
    assert_eq!(
        d.output(),
        "Hello World!\nThis will go to output :)AAanslaAe AesA".to_owned()
    );
}

#[test]
fn test_var() {
    let mut d = Deroffer::new();

    // "\n" successes
    d.set_line("\\n dyHello");
    assert!(d.var() == true);
    assert!(d.line() == "Hello");

    d.set_line("\\n(aaHello");
    assert!(d.var() == true);
    assert!(d.line() == "Hello");

    d.set_line("\\n[skipme] Hello");
    assert!(d.var() == true);
    assert!(d.line() == "] Hello");

    d.set_line("\\naHello");
    assert!(d.var() == true);
    assert!(d.line() == "Hello");

    // "\n" errors
    d.set_line("\\n");
    assert!(d.var() == false);
    assert!(d.line() == "\\n");

    d.set_line("\\n a");
    assert!(d.var() == false);
    assert!(d.line() == "\\n a");

    d.set_line("\\n da");
    assert!(d.var() == false);
    assert!(d.line() == "\\n da");

    // "\*" successes: the value takes the place of the reference, and what
    // followed the reference follows the value.
    d.set_line("\\*(traaaaaaaaaaaaa");
    d.define_register("tr", "Hello World!");
    assert!(d.var() == true);
    assert!(d.line() == " World!aaaaaaaaaaaaa");
    assert!(d.output().contains("Hello"));

    d.set_line("\\*(aaHello World!");
    assert!(d.var() == false);
    assert!(d.line() == "Hello World!");

    // the name is defined
    d.set_line("\\*[test_reg]");
    d.define_register("test_reg", "It me!");
    assert!(d.var() == true);
    assert!(d.line() == " me!");
    assert!(d.output().contains("It"));

    // no "]"
    d.set_line("\\*[foo bar :)");
    assert!(d.var() == false);
    assert!(d.line() == "");

    // the name is not defined
    d.set_line("\\*[foo bar]abcd");
    assert!(d.var() == false);
    assert!(d.line() == "abcd");
}

#[test]
fn var_needs_a_register_escape() {
    let mut d = on_line("plain");
    assert!(!d.var());
    assert_eq!(d.line(), "plain");
    d.set_line("\\* x");
    assert!(!d.var());
    assert_eq!(d.line(), "\\* x");
    d.set_line("\\*");
    assert!(!d.var());
    assert_eq!(d.line(), "\\*");
}

#[test]
fn var_reads_a_name_of_one_character() {
    let mut d = Deroffer::new();
    d.define_register("R", "(R)");
    d.set_line("\\*R.");
    assert!(d.var());
    assert_eq!(d.output(), "(R).");
    assert_eq!(d.line(), "");
    // A name that is not defined is consumed all the same.
    d.set_line("\\*xy");
    assert!(!d.var());
    assert_eq!(d.line(), "y");
    // A bracket without two characters after it is a name of its own.
    d.define_register("(", "paren");
    d.set_line("\\*(a");
    assert!(d.var());
    assert_eq!(d.output(), "(R).parena");
    assert_eq!(d.line(), "");
}

#[test]
fn number_takes_sign_and_digits() {
    let mut d = on_line("+12ab");
    assert!(d.number());
    assert_eq!(d.line(), "ab");
    assert_eq!(d.output(), "+12");

    d.set_line("-7");
    assert!(d.number());
    assert_eq!(d.line(), "");
    assert_eq!(d.output(), "+12-7");

    d.set_line("12.5");
    assert!(d.number());
    assert_eq!(d.line(), ".5");

    for line in ["-x", "+", "x1", "", " 1"] {
        d.set_line(line);
        assert!(!d.number());
        assert_eq!(d.line(), line);
    }
    assert_eq!(d.output(), "+12-712");
}

#[test]
fn font_escapes_are_dropped() {
    let mut d = on_line("\\fBbold");
    assert!(d.font());
    assert_eq!(d.line(), "bold");

    d.set_line("\\f(CWmono");
    assert!(d.font());
    assert_eq!(d.line(), "mono");

    d.set_line("\\f[BI]both");
    assert!(d.font());
    assert_eq!(d.line(), "both");

    d.set_line("\\f[]x");
    assert!(d.font());
    assert_eq!(d.line(), "x");

    // White space inside the brackets: only `\f[` is a font escape.
    d.set_line("\\f[B I]x");
    assert!(d.font());
    assert_eq!(d.line(), "B I]x");

    // A bracket that is never closed.
    d.set_line("\\f[BI");
    assert!(d.font());
    assert_eq!(d.line(), "BI");

    // `\f(` with less than two characters after it.
    d.set_line("\\f(C x");
    assert!(d.font());
    assert_eq!(d.line(), "C x");

    for line in ["\\f x", "\\f", "\\f\n", "fB", "x\\fB"] {
        d.set_line(line);
        assert!(!d.font());
        assert_eq!(d.line(), line);
    }
    assert_eq!(d.output(), "");
}

#[test]
fn size_escapes_are_dropped() {
    let mut d = on_line("\\s+2big");
    assert!(d.size());
    assert_eq!(d.line(), "big");
    d.set_line("\\s-10x");
    assert!(d.size());
    assert_eq!(d.line(), "x");
    d.set_line("\\s0");
    assert!(d.size());
    assert_eq!(d.line(), "");
    d.set_line("\\s123x");
    assert!(d.size());
    assert_eq!(d.line(), "x");
    for line in ["\\sx", "\\s+x", "\\s", "s1"] {
        d.set_line(line);
        assert!(!d.size());
        assert_eq!(d.line(), line);
    }
    assert_eq!(d.output(), "");
}

#[test]
fn comment_runs_to_the_newline() {
    let mut d = on_line("\\\" a comment \\fB\nnext");
    assert!(d.comment());
    assert_eq!(d.line(), "\nnext");
    d.set_line("\\\"");
    assert!(d.comment());
    assert_eq!(d.line(), "");
    d.set_line("\\x");
    assert!(!d.comment());
    assert_eq!(d.line(), "\\x");
    assert_eq!(d.output(), "");
}

#[test]
fn single_character_escapes() {
    let cases = [
        ("\\e", "\\"),
        ("\\E", "\\"),
        ("\\t", "\t"),
        ("\\0", " "),
        ("\\~", " "),
        ("\\|", ""),
        ("\\^", ""),
        ("\\&", ""),
        ("\\:", ""),
        ("\\-", "-"),
        ("\\\\", "\\"),
        ("\\é", "é"),
        ("\\\n", "\n"),
    ];
    for (line, text) in cases {
        let mut d = on_line(line);
        assert!(d.esc());
        assert_eq!(d.output(), text);
        assert_eq!(d.line(), "");
    }
    let mut d = on_line("\\");
    assert!(!d.esc());
    assert_eq!(d.line(), "\\");
    d.set_line("ab");
    assert!(!d.esc());
    assert_eq!(d.line(), "ab");
}

#[test]
fn special_characters_are_looked_up() {
    let mut d = on_line("\\(co 2024");
    assert!(d.special_char());
    assert_eq!(d.output(), "©");
    assert_eq!(d.line(), " 2024");
    assert!(!d.flag(Flag::Specletter));

    d.set_line("\\('e");
    assert!(d.special_char());
    assert_eq!(d.output(), "©é");
    assert!(d.flag(Flag::Specletter));

    // A code that no table knows is consumed and nothing is written.
    d.set_line("\\(zzx");
    assert!(d.special_char());
    assert_eq!(d.output(), "©é");
    assert_eq!(d.line(), "x");
    assert!(!d.flag(Flag::Specletter));

    // The soft hyphen.
    d.set_line("\\%x");
    assert!(d.special_char());
    assert_eq!(d.output(), "©é");
    assert_eq!(d.line(), "x");
    assert!(d.flag(Flag::Specletter));

    for line in ["\\( x", "\\(a", "\\(a\n", "\\(", "(co", "\\x"] {
        d.set_line(line);
        assert!(!d.special_char());
        assert_eq!(d.line(), line);
        assert!(!d.flag(Flag::Specletter));
    }
}

#[test]
fn both_tables_of_special_characters() {
    assert_eq!(g_specs_specletter('-', 'D'), Some("Ð"));
    assert_eq!(g_specs_specletter('s', 's'), Some("ß"));
    assert_eq!(g_specs_specletter('\'', 'A'), Some("Á"));
    assert_eq!(g_specs_specletter('F', 'l'), Some("ffl"));
    assert_eq!(g_specs_specletter('o', 'e'), Some("oe"));
    assert_eq!(g_specs_specletter('c', 'o'), None);
    assert_eq!(g_specs('c', 'o'), Some("©"));
    assert_eq!(g_specs('e', 'm'), Some("--"));
    assert_eq!(g_specs('l', 'q'), Some("“"));
    assert_eq!(g_specs('r', 'q'), Some("”"));
    assert_eq!(g_specs('d', 'q'), Some("\""));
    assert_eq!(g_specs('r', 's'), Some("\\"));
    assert_eq!(g_specs('*', 'a'), Some("alpha"));
    assert_eq!(g_specs('*', 'W'), Some("Omega"));
    assert_eq!(g_specs('t', 's'), Some("sigma"));
    assert_eq!(g_specs('E', 'u'), Some("¤"));
    assert_eq!(g_specs('s', 's'), None);
    assert_eq!(g_specs('z', 'z'), None);
}

#[test]
fn word_chains_letter_codes() {
    let mut d = on_line("caf\\('e\\(:a_x y");
    assert!(d.word());
    assert_eq!(d.output(), "caféä_x");
    assert_eq!(d.line(), " y");
}

#[test]
fn chain_stops_after_a_symbol_code() {
    let mut d = on_line("a\\('e\\(co\\('e");
    assert!(d.word());
    assert_eq!(d.output(), "aé©");
    assert_eq!(d.line(), "\\('e");
}

#[test]
fn chain_stops_after_an_unknown_code() {
    let mut d = on_line("a\\(zz\\('e");
    assert!(d.word());
    assert_eq!(d.output(), "a");
    assert_eq!(d.line(), "\\('e");
}

#[test]
fn word_goes_on_after_a_soft_hyphen() {
    let mut d = on_line("hy\\%phen ");
    assert!(d.word());
    assert_eq!(d.output(), "hyphen");
    assert_eq!(d.line(), " ");
}

#[test]
fn word_needs_a_letter() {
    for line in ["1a", " a", "\\('e", "", "é"] {
        let mut d = on_line(line);
        assert!(!d.word());
        assert_eq!(d.line(), line);
        assert_eq!(d.output(), "");
    }
}

#[test]
fn motion_escapes_hide_their_body() {
    let mut d = on_line("\\h'12'x");
    assert!(d.numreq());
    assert_eq!(d.line(), "x");
    assert_eq!(d.output(), "");
    assert!(!d.flag(Flag::InMacro));

    d.set_line("\\w'abc\\fBdef'x");
    assert!(d.numreq());
    assert_eq!(d.line(), "x");

    // A body that is not closed runs as far as escapes, words and numbers do.
    d.set_line("\\v'12 34'");
    assert!(d.numreq());
    assert_eq!(d.line(), " 34'");

    // One inside the other.
    d.set_line("\\h'\\w'ab'1'z");
    assert!(d.numreq());
    assert_eq!(d.line(), "z");

    d.set_line("\\u");
    assert!(d.numreq());
    assert_eq!(d.line(), "");

    d.set_line("\\x'1'");
    assert!(!d.numreq());
    assert_eq!(d.line(), "\\x'1'");
    assert_eq!(d.output(), "");
}

#[test]
fn motion_escape_keeps_a_macro_definition_open() {
    let mut d = on_line("\\h'1'x");
    d.set_flag(Flag::InMacro, true);
    assert!(d.numreq());
    assert!(d.flag(Flag::InMacro));
}

#[test]
fn escapes_are_told_apart_by_their_second_character() {
    let cases = [
        ("\\\" note\n", "\n", ""),
        ("\\fIx", "x", ""),
        ("\\s+1x", "x", ""),
        ("\\d'1'x", "x", ""),
        ("\\n(aax", "x", ""),
        ("\\(emx", "x", "--"),
        ("\\ex", "x", "\\"),
        ("\\-x", "x", "-"),
    ];
    for (line, rest, text) in cases {
        let mut d = on_line(line);
        assert!(d.esc_char_backslash());
        assert_eq!(d.line(), rest);
        assert_eq!(d.output(), text);
    }
    for line in ["\\", "x\\e", ""] {
        let mut d = on_line(line);
        assert!(!d.esc_char_backslash());
        assert_eq!(d.line(), line);
    }
}

#[test]
fn esc_char_takes_words_and_numbers_too() {
    let mut d = on_line("word 12");
    assert!(d.esc_char());
    assert_eq!(d.line(), " 12");
    assert!(!d.esc_char());
    assert_eq!(d.line(), " 12");
    d.skip_char(1);
    assert!(d.esc_char());
    assert_eq!(d.line(), "");
    assert!(!d.esc_char());
    assert_eq!(d.output(), "word12");
}

#[test]
fn text_arg_stops_at_white_space() {
    let mut d = on_line("foo\\fBbar baz");
    assert!(d.text_arg());
    assert_eq!(d.output(), "foobar");
    assert_eq!(d.line(), " baz");
    assert!(!d.text_arg());
    assert_eq!(d.line(), " baz");

    for stop in ["\tx", "\nx", "\rx", "\u{c}x", "\u{b}x"] {
        let mut line = String::from("ab");
        line.push_str(stop);
        d.set_line(&line);
        assert!(d.text_arg());
        assert_eq!(d.line(), stop);
    }
}

#[test]
fn text_arg_with_escapes_only_reports_nothing() {
    let mut d = on_line("\\fB\\s+2 x");
    assert!(!d.text_arg());
    assert_eq!(d.line(), " x");
    assert_eq!(d.output(), "");
}

#[test]
fn text_arg_writes_a_backslash_that_opens_no_escape() {
    let mut d = on_line("a\\");
    assert!(d.text_arg());
    assert_eq!(d.output(), "a\\");
    assert_eq!(d.line(), "");
}

#[test]
fn quoted_arg_drops_the_quotes() {
    let mut d = on_line("\"hello, \\fBworld\\fP 42\" rest");
    assert!(d.quoted_arg());
    assert_eq!(d.output(), "hello, world 42");
    assert_eq!(d.line(), " rest");

    d.set_line("\"open");
    assert!(d.quoted_arg());
    assert_eq!(d.output(), "hello, world 42open");
    assert_eq!(d.line(), "");

    d.set_line("\"\"x");
    assert!(d.quoted_arg());
    assert_eq!(d.line(), "x");

    d.set_line("x\"y\"");
    assert!(!d.quoted_arg());
    assert_eq!(d.line(), "x\"y\"");
}

#[test]
fn text_drops_font_escapes() {
    let mut d = on_line("Hello \\fBWorld\\fP!\n");
    assert!(d.text());
    assert_eq!(d.output(), "Hello World!\n");
    assert_eq!(d.line(), "");
}

#[test]
fn text_writes_what_is_no_escape() {
    let mut d = on_line("a \\f b \\(co c\\\n");
    assert!(d.text());
    assert_eq!(d.output(), "a \\f b © c\n");
    let mut d = on_line("tail\\");
    assert!(d.text());
    assert_eq!(d.output(), "tail\\");
}

#[test]
fn text_after_an_unknown_register() {
    let mut d = on_line("a\\*[nope]b\n");
    assert!(d.text());
    assert_eq!(d.output(), "ab\n");
    let mut d = on_line("a\\*xb\n");
    assert!(d.text());
    assert_eq!(d.output(), "ab\n");
    let mut d = on_line("a\\* b\n");
    assert!(d.text());
    assert_eq!(d.output(), "a\\* b\n");
}

#[test]
fn a_register_that_names_itself_comes_to_an_end() {
    let mut d = Deroffer::new();
    d.define_register("X", "\\*[X]");
    d.set_line("\\*[X]\n");
    assert!(d.text());
    assert_eq!(d.line(), "");
    assert_eq!(d.output(), "\n");
}

#[test]
fn two_registers_that_name_each_other_come_to_an_end() {
    let mut d = Deroffer::new();
    d.define_register("A", "a\\*[B]");
    d.define_register("B", "b\\*[A]");
    d.set_line("\\*[A]!\n");
    assert!(d.text());
    assert_eq!(d.line(), "");
    let out = d.output();
    assert!(out.starts_with("abab"));
    assert!(out.ends_with("!\n"));
    assert_eq!(out.chars().count(), 256 + 2);
}

#[test]
fn each_line_has_its_own_allowance_of_expansions() {
    let mut d = Deroffer::new();
    d.define_register("X", "\\*[X]");
    d.define_register("Y", "why");
    d.set_line("\\*[X]\n");
    d.do_line();
    d.set_line("\\*[Y]\n");
    d.do_line();
    assert_eq!(d.output(), "\nwhy\n");
}

#[test]
fn nested_registers_expand() {
    let mut d = Deroffer::new();
    d.define_register("in", "inner\\(co");
    d.define_register("out", "<\\*(in>\\fB");
    d.set_line("x \\*[out] y\n");
    assert!(d.text());
    assert_eq!(d.output(), "x <inner©> y\n");
}

#[test]
fn emit_is_gated_by_each_switch() {
    for which in [Flag::Pic, Flag::Eqn, Flag::Refer, Flag::InMacro] {
        let mut d = Deroffer::new();
        d.set_flag(which, true);
        assert!(d.suppressed());
        d.condputs("x");
        assert_eq!(d.output(), "");
        d.set_flag(which, false);
        assert!(!d.suppressed());
        d.condputs("x");
        d.condputs("y");
        assert_eq!(d.output(), "xy");
    }
}

#[test]
fn a_list_is_hidden_inside_the_synopsis_only() {
    let mut d = Deroffer::new();
    d.set_flag(Flag::Inlist, true);
    assert!(!d.suppressed());
    d.condputs("a");
    d.set_flag(Flag::Inlist, false);
    d.set_flag(Flag::Inheader, true);
    assert!(!d.suppressed());
    d.condputs("b");
    d.set_flag(Flag::Inlist, true);
    assert!(d.suppressed());
    d.condputs("c");
    d.set_flag(Flag::Inheader, false);
    d.condputs("d");
    assert_eq!(d.output(), "abd");
}

#[test]
fn the_other_switches_do_not_gate() {
    for which in [Flag::Nobody, Flag::Tbl, Flag::Specletter] {
        let mut d = Deroffer::new();
        d.set_flag(which, true);
        assert!(d.flag(which));
        assert!(!d.suppressed());
        d.condputs("x");
        assert_eq!(d.output(), "x");
    }
}

#[test]
fn a_new_scanner_is_blank() {
    let d = Deroffer::new();
    assert_eq!(d.output(), "");
    assert_eq!(d.get_output(), "");
    assert_eq!(d.line(), "");
    assert_eq!(d.name(), "");
    assert_eq!(d.tbl_tab(), None);
    assert_eq!(d.tblstate(), deroff::TblState::Options);
    for which in [
        Flag::Refer,
        Flag::InMacro,
        Flag::Nobody,
        Flag::Inlist,
        Flag::Inheader,
        Flag::Pic,
        Flag::Tbl,
        Flag::Eqn,
        Flag::Specletter,
    ] {
        assert!(!d.flag(which));
    }
}
