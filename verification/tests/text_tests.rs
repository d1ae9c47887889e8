use rusty_faker_core::text::{capitalize_first, is_py_space, is_word, slugify, str_is_ascii, title, to_ascii};

#[test]
fn slugify_matches_django_behavior() {
    assert_eq!(slugify("  Hello, World!  ", false), "hello-world");
    assert_eq!(slugify("a - b\t\tc", false), "a-b-c");
    assert_eq!(slugify("Crème Brûlée", false), "creme-brulee");
    assert_eq!(slugify("Crème Brûlée", true), "crème-brûlée");
    assert_eq!(slugify("Smith,", true), "smith");
}

#[test]
fn ascii_and_title() {
    assert_eq!(to_ascii("abc"), "abc");
    assert_eq!(to_ascii("Straße"), "Strasse");
    assert_eq!(title("hELLO wORLD"), "Hello World");
    assert_eq!(title("they're"), "They'Re");
    assert_eq!(capitalize_first("hello World"), "Hello World");
}

#[test]
fn slugify_edge_cases() {
    assert_eq!(slugify("", false), "");
    assert_eq!(slugify("---", false), "-");
    assert_eq!(slugify("a\u{1c}b", false), "a-b");
    assert_eq!(slugify("under_score", false), "under_score");
    assert_eq!(slugify("ﬁ", true), "fi");
    assert_eq!(slugify("日本", false), "");
}

#[test]
fn python_character_classes() {
    assert!(is_py_space(' ') && is_py_space('\u{1f}') && is_py_space('\u{1c}'));
    assert!(!is_py_space('a'));
    assert!(is_word('_') && is_word('é') && is_word('7'));
    assert!(!is_word('-'));
    assert!(str_is_ascii("plain") && !str_is_ascii("naïve"));
}

#[test]
fn title_and_capitalize_edges() {
    assert_eq!(title(""), "");
    assert_eq!(title("ß"), "SS");
    assert_eq!(capitalize_first(""), "");
    assert_eq!(capitalize_first("éa"), "Éa");
}

#[test]
fn slugify_is_idempotent_without_unicode() {
    for s in ["  Hello, World!  ", "--a  b--c", "Ünïcödé Strasse", "x_y 1-2", "", "  -- "] {
        let once = slugify(s, false);
        assert_eq!(slugify(&once, false), once);
    }
}

#[test]
fn title_keeps_the_length_of_ascii_text() {
    let t = title("hello wORLD 3rd");
    assert_eq!(t, "Hello World 3Rd");
    assert_eq!(t.len(), "hello wORLD 3rd".len());
}
