use kirill::text::{chars_of, contains, ends_with, join, str_le};

#[test]
fn chars_of_gives_the_characters() {
    assert_eq!(chars_of("a/é.json"), vec!['a', '/', 'é', '.', 'j', 's', 'o', 'n']);
    assert_eq!(chars_of(""), Vec::<char>::new());
}

#[test]
fn join_appends() {
    assert_eq!(join("unable to read path: ", "/x"), "unable to read path: /x");
    assert_eq!(join("", ""), "");
}

#[test]
fn ends_with_checks_the_tail() {
    assert!(ends_with(&chars_of("a.json"), &chars_of(".json")));
    assert!(ends_with(&chars_of(".json"), &chars_of(".json")));
    assert!(ends_with(&chars_of("a"), &chars_of("")));
    assert!(!ends_with(&chars_of("json"), &chars_of(".json")));
    assert!(!ends_with(&chars_of("a.json5"), &chars_of(".json")));
}

#[test]
fn contains_finds_a_pattern_anywhere() {
    assert!(contains(&chars_of("/a/build/b"), &chars_of("build")));
    assert!(contains(&chars_of("build"), &chars_of("build")));
    assert!(contains(&chars_of("xxbuild"), &chars_of("build")));
    assert!(contains(&chars_of("bbuild"), &chars_of("build")));
    assert!(contains(&chars_of(""), &chars_of("")));
    assert!(!contains(&chars_of("buil"), &chars_of("build")));
    assert!(!contains(&chars_of("bui/ld"), &chars_of("build")));
}

#[test]
fn str_le_is_the_order_of_strings() {
    let samples = ["", "a", "A", "a.json", "a/b", "ab", "b", "é", "z", "日本", "\u{10000}", "\u{ffff}"];
    for a in samples {
        for b in samples {
            assert_eq!(str_le(a, b), a <= b, "{:?} {:?}", a, b);
        }
    }
}
