use deroff::TranslationTable;

#[test]
fn test_translationtable_new() {
    assert!(TranslationTable::new("aaa", "Incorrect Length").is_err());
    assert!(TranslationTable::new("aaa", "bbb").is_ok());
    let tr = TranslationTable::new("ab!", "cd.").unwrap();

    assert_eq!(tr.get('a'), Some('c'));
    assert_eq!(tr.get('b'), Some('d'));
    assert_eq!(tr.get('!'), Some('.'));
    assert_eq!(tr.get('c'), None);
    assert_eq!(tr.get('.'), None);

    // Unicode tests
    let tr = TranslationTable::new("🗻🚀🚁", "mrh").unwrap();
    assert_eq!(tr.get('🗻'), Some('m'));
    assert_eq!(tr.get('🚀'), Some('r'));
    assert_eq!(tr.get('🚁'), Some('h'));
    assert_eq!(tr.get('m'), None);
}

#[test]
fn test_translationtable_translate() {
    let tr = TranslationTable::new("ab!", "cd.").unwrap();

    assert_eq!(tr.translate("aabb!!"), "ccdd..".to_owned());

    assert_eq!(tr.translate("Hello World!"), "Hello World.".to_owned(),);

    assert_eq!(tr.translate("applebees!"), "cppledees.".to_owned(),);

    // Unicode tests
    let tr = TranslationTable::new("🗻🚀🚁", "mrh").unwrap();

    assert_eq!(
        tr.translate("This 🗻 is a mountain!"),
        "This m is a mountain!".to_owned(),
    );

    assert_eq!(
        tr.translate("This 🚀 is a rocket! (rocket.rs :))"),
        "This r is a rocket! (rocket.rs :))".to_owned(),
    );

    assert_eq!(
        tr.translate("This 🚁 is a helicopter!"),
        "This h is a helicopter!".to_owned(),
    )
}

#[test]
fn new_reports_unequal_lengths() {
    let e = TranslationTable::new("abc", "de").err().unwrap();
    assert_eq!(
        e,
        "Arguments passed to `TranslationTable::new` must have equal character length"
    );
    // Lengths are counted in characters, not in bytes.
    assert!(TranslationTable::new("é", "e").is_ok());
    assert!(TranslationTable::new("", "").is_ok());
}

#[test]
fn listed_characters_go_to_their_partners() {
    let f = "xyz-";
    let t = "XYZ_";
    let tr = TranslationTable::new(f, t).unwrap();
    for (a, b) in f.chars().zip(t.chars()) {
        assert_eq!(tr.translate_char(a), b);
    }
    for c in "abcXYZ_ \n".chars() {
        assert_eq!(tr.translate_char(c), c);
    }
}

#[test]
fn a_later_pair_replaces_an_earlier_one() {
    let tr = TranslationTable::new("aa", "bc").unwrap();
    assert_eq!(tr.translate_char('a'), 'c');
    assert_eq!(tr.translate("banana"), "bcncnc");
}

#[test]
fn empty_table_changes_nothing() {
    let tr = TranslationTable::empty();
    assert_eq!(tr.get('a'), None);
    assert_eq!(tr.translate("plain text\n"), "plain text\n");
    assert_eq!(tr.translate(""), "");
}

#[test]
fn set_adds_and_replaces() {
    let mut tr = TranslationTable::empty();
    tr.set('a', 'b');
    assert_eq!(tr.translate("aha"), "bhb");
    tr.set('a', 'z');
    tr.set('h', 'a');
    assert_eq!(tr.translate("aha"), "zaz");
}
