use rusty_faker_core::{Error, Generator};

#[test]
fn sentences_and_text() {
    let mut g = Generator::seeded("en_US", 4).unwrap();
    for max in [5, 20, 24, 25, 99, 100, 200, 1000] {
        for _ in 0..50 {
            let text = g.text(max, None).unwrap();
            assert!(text.chars().count() <= max as usize + 1, "{max}: {text:?}");
            assert!(!text.is_empty());
        }
    }
    let sentence = g.sentence(6, false, None).unwrap();
    assert_eq!(sentence.split(' ').count(), 6);
    assert!(sentence.ends_with('.') && sentence.starts_with(|c: char| c.is_uppercase()));
    assert_eq!(g.sentence(0, true, None).unwrap(), "");
}

#[test]
fn words_rules() {
    let mut g = Generator::seeded("en_US", 4).unwrap();
    let ext = ["a", "b", "c"];
    let unique = g.words(3, Some(&ext), None, true).unwrap();
    assert_eq!(unique.len(), 3);
    assert!(g.words(4, Some(&ext), None, true).is_err());
    assert!(g.words(1, None, Some("noun"), false).is_ok());
    assert!(g.words(1, None, Some("nonsense"), false).is_err());
    assert_eq!(g.word(None, Some(&[])), Err(Error::EmptySequence));
    assert!(g.text(5, Some(&["waytoolong"])).is_err());
}

#[test]
fn text_limits_and_lists() {
    let mut g = Generator::seeded("en_US", 9).unwrap();
    assert_eq!(
        g.text(4, None).unwrap_err().message(),
        "text() can only generate text of at least 5 characters"
    );
    assert_eq!(g.texts(3, 30, None).unwrap().len(), 3);
    assert_eq!(g.sentences(4, None).unwrap().len(), 4);
    assert_eq!(g.paragraphs(2, None).unwrap().len(), 2);
    assert_eq!(g.paragraph(0, true, None).unwrap(), "");
    let p = g.paragraph(3, false, None).unwrap();
    assert_eq!(p.matches('.').count(), 3, "{p}");
    let short = g.text(12, Some(&["ab", "cd"])).unwrap();
    assert!(short.ends_with('.') && short.chars().count() <= 13, "{short}");
    let unique = g.words(3, Some(&["x", "y", "z"]), None, true).unwrap();
    let mut sorted = unique.clone();
    sorted.sort();
    assert_eq!(sorted, vec!["x", "y", "z"]);
    assert_eq!(g.words(0, None, None, false).unwrap().len(), 0);
    assert_eq!(g.get_words_list(None, Some(&["q"])).unwrap(), vec!["q".to_string()]);
}

#[test]
fn short_text_error_whatever_the_word_list() {
    let mut g = Generator::seeded("en_US", 4).unwrap();
    let words: &[&str] = &["", "x"];
    assert_eq!(
        g.text(4, Some(words)),
        Err(Error::InvalidArgument("text() can only generate text of at least 5 characters".into()))
    );
    assert!(g.text(4, None).is_err());
}
