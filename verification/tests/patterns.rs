use deroff::chars::{to_chars, CharClass};
use deroff::output::collapse_newlines;
use deroff::Deroffer;
use regex::Regex;

/// All strings of up to `max` characters over `alphabet`.
fn strings(alphabet: &[char], max: usize) -> Vec<String> {
    let mut all = vec![String::new()];
    let mut last = vec![String::new()];
    for _ in 0..max {
        let mut next = Vec::new();
        for s in &last {
            for c in alphabet {
                let mut t = s.clone();
                t.push(*c);
                next.push(t);
            }
        }
        all.extend(next.iter().cloned());
        last = next;
    }
    all
}

/// The number of characters that `re` matches at the start of `s`.
fn matched(re: &Regex, s: &str) -> usize {
    match re.find(s) {
        Some(m) => {
            assert_eq!(m.start(), 0);
            s[..m.end()].chars().count()
        }
        None => 0,
    }
}

#[test]
fn a_word_is_a_run_of_letters_and_underscores() {
    let re = Regex::new(r##"^[a-zA-Z_]+"##).unwrap();
    let mut d = Deroffer::new();
    for s in strings(&['a', 'Z', '_', '1', ' ', 'é', '\\'], 5) {
        d.set_line(&s);
        assert_eq!(d.run(0, CharClass::Word), matched(&re, &s), "{:?}", s);
    }
}

#[test]
fn a_number_is_a_sign_and_digits() {
    let re = Regex::new(r##"^[+-]?[0-9]+"##).unwrap();
    for s in strings(&['+', '-', '0', '9', 'a', ' ', '.'], 5) {
        let mut d = Deroffer::new();
        d.set_line(&s);
        let n = matched(&re, &s);
        assert_eq!(d.number(), n > 0, "{:?}", s);
        assert_eq!(s.chars().count() - d.remaining(), n, "{:?}", s);
        assert_eq!(d.output(), s.chars().take(n).collect::<String>(), "{:?}", s);
    }
}

#[test]
fn argument_text_runs_to_white_space_or_a_backslash() {
    let re = Regex::new(r##"^[^ \t\n\r\f\v\\]+"##).unwrap();
    let mut d = Deroffer::new();
    let alphabet = ['a', ' ', '\t', '\n', '\r', '\u{c}', '\u{b}', '\\', '\u{a0}', '"'];
    for s in strings(&alphabet, 4) {
        d.set_line(&s);
        assert_eq!(d.run(0, CharClass::ArgText), matched(&re, &s), "{:?}", s);
    }
}

#[test]
fn a_font_escape_has_three_forms() {
    let re = Regex::new(r##"^\\f((\(\S{2})|(\[\S*?\])|\S)"##).unwrap();
    let alphabet = ['\\', 'f', '(', '[', ']', ' ', 'a', '\n', '\u{2003}'];
    for s in strings(&alphabet, 5) {
        let mut probe = String::from("\\f");
        probe.push_str(&s);
        for line in [s, probe] {
            let mut d = Deroffer::new();
            d.set_line(&line);
            let n = matched(&re, &line);
            assert_eq!(d.font(), n > 0, "{:?}", line);
            assert_eq!(line.chars().count() - d.remaining(), n, "{:?}", line);
        }
    }
}

#[test]
fn collapsing_replaces_runs_of_three_newlines_and_more() {
    let re = Regex::new(r##"\n{3,}"##).unwrap();
    for s in strings(&['\n', 'a'], 10) {
        let collapsed: String = collapse_newlines(&to_chars(&s)).into_iter().collect();
        assert_eq!(collapsed, re.replace_all(&s, "\n"), "{:?}", s);
    }
}

#[test]
fn white_space_is_what_a_pattern_calls_white_space() {
    let re = Regex::new(r##"^\s$"##).unwrap();
    let mut code: u32 = 0;
    while code <= 0x3100 {
        if let Some(c) = char::from_u32(code) {
            let s = c.to_string();
            assert_eq!(deroff::chars::space(c), re.is_match(&s), "{:x}", code);
        }
        code += 1;
    }
}
