use hmode::words::{
    all_words, answer_words, position, probe_words, same_word, to_static_word,
    DEFAULT_START_WORD,
};

#[test]
fn to_static_word_finds_known_word() {
    assert_eq!(to_static_word("grass", false, false), Ok(*b"grass"));
}

#[test]
#[should_panic]
fn to_static_word_checks_length() {
    to_static_word("wibble", false, false).unwrap();
}

#[test]
#[should_panic]
fn to_static_word_invalid_word() {
    to_static_word("xxxxx", false, false).unwrap();
}

#[test]
#[should_panic]
fn to_static_word_detects_probe_word_used_as_answer_word() {
    to_static_word("caber", true, false).unwrap();
}

#[test]
fn to_static_word_error_texts() {
    assert_eq!(
        to_static_word("wibble", false, false),
        Err("Word must have 5 letters".to_string())
    );
    assert_eq!(
        to_static_word("", true, true),
        Err("Word must have 5 letters".to_string())
    );
    assert_eq!(
        to_static_word("xxxxx", false, false),
        Err("The word 'xxxxx' is not in the list of valid words".to_string())
    );
    assert_eq!(
        to_static_word("caber", true, false),
        Err("The word 'caber' is not in the list of valid words".to_string())
    );
    assert_eq!(
        to_static_word("GRASS", false, false),
        Err("The word 'GRASS' is not in the list of valid words".to_string())
    );
}

#[test]
fn to_static_word_counts_bytes_not_characters() {
    // Four characters, five bytes: long enough, but no word of the lexicon.
    assert_eq!(
        to_static_word("caf\u{e9}s", false, false),
        Err("Word must have 5 letters".to_string())
    );
    assert_eq!(
        to_static_word("\u{e9}tes", false, false),
        Err("The word '\u{e9}tes' is not in the list of valid words".to_string())
    );
}

#[test]
fn to_static_word_finds_probes_among_all_words() {
    assert_eq!(to_static_word("caber", false, false), Ok(*b"caber"));
    assert_eq!(to_static_word("caber", false, true), Ok(*b"caber"));
    assert_eq!(to_static_word("tares", false, false), Ok(*b"tares"));
    assert_eq!(to_static_word("zonal", true, false), Ok(*b"zonal"));
    assert_eq!(to_static_word("aback", true, true), Ok(*b"aback"));
}

#[test]
fn all_words_are_the_answers_then_the_probes() {
    for alt in [false, true] {
        let answers = answer_words();
        let probes = probe_words(alt);
        let all = all_words(alt);
        assert_eq!(all.len(), answers.len() + probes.len());
        assert_eq!(all[..answers.len()], answers[..]);
        assert_eq!(all[answers.len()..], probes[..]);
    }
}

#[test]
fn lexicon_words_are_lower_case_and_listed_once() {
    for alt in [false, true] {
        let all = all_words(alt);
        for word in &all {
            assert!(word.iter().all(|c| c.is_ascii_lowercase()));
        }
        let mut sorted = all.clone();
        sorted.sort();
        sorted.dedup();
        assert_eq!(sorted.len(), all.len());
    }
}

#[test]
fn lexicon_first_and_last_words() {
    let answers = answer_words();
    assert_eq!(answers.len(), 2315);
    assert_eq!(answers[0], *b"aback");
    assert_eq!(answers[1], *b"abase");
    assert_eq!(answers[2314], *b"zonal");
    assert!(probe_words(true).len() < probe_words(false).len());
}

#[test]
fn default_start_word_is_tares() {
    assert_eq!(DEFAULT_START_WORD, *b"tares");
    assert!(all_words(false).contains(&DEFAULT_START_WORD));
    assert!(all_words(true).contains(&DEFAULT_START_WORD));
    assert!(!answer_words().contains(&DEFAULT_START_WORD));
}

#[test]
fn position_finds_the_first_occurrence() {
    let list = [*b"apple", *b"berry", *b"apple", *b"cherr"];
    assert_eq!(position(&list, b"apple"), Some(0));
    assert_eq!(position(&list, b"berry"), Some(1));
    assert_eq!(position(&list, b"cherr"), Some(3));
    assert_eq!(position(&list, b"grape"), None);
    assert_eq!(position(&[], b"grape"), None);
}

#[test]
fn same_word_compares_every_letter() {
    assert!(same_word(b"crane", b"crane"));
    assert!(!same_word(b"crane", b"crank"));
    assert!(!same_word(b"crane", b"brane"));
    assert!(!same_word(b"crane", b"crone"));
}
