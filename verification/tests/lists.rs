use hmode::lists::WordList;
use hmode::setter::{Clue, Setter};
use hmode::words::answer_words;

#[test]
fn construct_list() {
    let l: WordList = WordList::new(false);
    assert!(l.answers().len() > 2000);
    assert!(l.answers().len() < l.probes().len());
}

#[test]
fn get_answer_iterator() {
    let l = WordList::new(false);
    let it = l.answer_iter();
    assert_eq!(it.iter().count(), l.answers().len())
}

#[test]
fn get_all_iterator() {
    let l = WordList::new(false);
    let it = l.all_iter();
    assert_eq!(it.iter().count(), l.answers().len() + l.probes().len());
}

#[test]
fn lists_filter_handles_all_clues() {
    let unfiltered = answer_words();
    let unfiltered_len = unfiltered.len();
    let filtered = WordList::filter(
        &unfiltered,
        [
            Clue::Right(b'a'),
            Clue::Wrong(b'b'),
            Clue::Wrong(b'c'),
            Clue::Wrong(b'd'),
            Clue::Elsewhere(b'e'),
        ],
    );
    assert!(filtered.len() > 0);
    assert!(unfiltered_len > filtered.len());

    for word in filtered {
        for c in b"bcd" {
            assert!(!word.contains(c));
        }
        assert_eq!(word[0], b'a');
        assert_ne!(word[4], b'e');
        assert!(word.contains(&b'e'));
    }
}

#[test]
fn lists_repeated_wrong_letter_does_not_eliminate_right_letters() {
    let clue = [
        Clue::Right(b'c'),
        Clue::Right(b'r'),
        Clue::Right(b'o'),
        Clue::Wrong(b'o'),
        Clue::Right(b'k'),
    ];

    let filtered = WordList::filter(&answer_words(), clue);
    for word in filtered {
        assert_eq!(word[0], b'c');
        assert_eq!(word[1], b'r');
        assert_eq!(word[2], b'o');
        assert_ne!(word[3], b'o');
        assert_eq!(word[4], b'k');
    }
}

#[test]
fn iterators_hand_out_the_lists_in_order() {
    let l = WordList::new(true);
    assert_eq!(l.answer_iter(), *l.answers());
    let all = l.all_iter();
    assert_eq!(all[..l.len()], l.answers()[..]);
    assert_eq!(all[l.len()..], l.probes()[..]);
}

#[test]
fn confirmed_letter_is_not_banned_elsewhere() {
    // The clue of `fccgh` against `abccd`: the second `c` is exact, the first
    // is misplaced. A word stays if it has a `c` at position 2 and none at
    // position 1, whether or not it has another `c`.
    let clue = Setter::from_word(*b"abccd").check(*b"fccgh");
    let list = [
        *b"abccd", *b"cacao", *b"abaci", *b"cycle", *b"cocoa", *b"occur", *b"ascot", *b"excel",
        *b"fccgh", *b"chalk", *b"ducal",
    ];
    let filtered = WordList::filter(&list, clue);
    assert_eq!(
        filtered,
        vec![*b"abccd", *b"cacao", *b"cycle", *b"cocoa", *b"ascot", *b"excel", *b"ducal"]
    );
}

#[test]
fn wrong_letter_is_banned_everywhere_unless_confirmed() {
    let clue = [
        Clue::Wrong(b'o'),
        Clue::Wrong(b'x'),
        Clue::Right(b'o'),
        Clue::Wrong(b'x'),
        Clue::Wrong(b'x'),
    ];
    let list = [*b"brook", *b"broom", *b"ozone", *b"proxy", *b"shone", *b"crony"];
    // `o` is confirmed at position 2, so another `o` may stand anywhere but
    // at position 0; `x` is confirmed nowhere, so it may stand nowhere.
    assert_eq!(
        WordList::filter(&list, clue),
        vec![*b"brook", *b"broom", *b"shone", *b"crony"]
    );
}

#[test]
fn elsewhere_wants_the_letter_at_another_position() {
    let clue = [
        Clue::Elsewhere(b'e'),
        Clue::Wrong(b'q'),
        Clue::Wrong(b'q'),
        Clue::Wrong(b'q'),
        Clue::Wrong(b'q'),
    ];
    let list = [*b"eagle", *b"aglet", *b"angst", *b"genie"];
    assert_eq!(WordList::filter(&list, clue), vec![*b"aglet", *b"genie"]);
}

#[test]
fn filter_keeps_order_and_repeats() {
    let clue = [
        Clue::Right(b's'),
        Clue::Wrong(b'q'),
        Clue::Wrong(b'q'),
        Clue::Wrong(b'q'),
        Clue::Wrong(b'q'),
    ];
    let list = [*b"stone", *b"alone", *b"spare", *b"stone", *b"squad", *b"shine"];
    assert_eq!(
        WordList::filter(&list, clue),
        vec![*b"stone", *b"spare", *b"stone", *b"shine"]
    );
    assert_eq!(WordList::count(&list, clue), 4);
    assert_eq!(WordList::filter(&[], clue), Vec::<[u8; 5]>::new());
    assert_eq!(WordList::count(&[], clue), 0);
}

#[test]
fn count_agrees_with_filter() {
    let answers = answer_words();
    for guess in [*b"tares", *b"crane", *b"geese", *b"mamma"] {
        for secret in [*b"crook", *b"eerie", *b"abbey"] {
            let clue = Setter::from_word(secret).check(guess);
            assert_eq!(
                WordList::count(&answers, clue),
                WordList::filter(&answers, clue).len()
            );
        }
    }
}

#[test]
fn secret_survives_every_filter() {
    let answers = answer_words();
    for secret in [*b"crook", *b"eerie", *b"abbey", *b"zonal", *b"mamma"] {
        for guess in answers.iter().step_by(97) {
            let clue = Setter::from_word(secret).check(*guess);
            let filtered = WordList::filter(&answers, clue);
            assert!(filtered.contains(&secret));
            if *guess != secret {
                assert!(!filtered.contains(guess));
            }
        }
    }
}

#[test]
fn filtering_twice_changes_nothing() {
    let answers = answer_words();
    let games = [(*b"crook", *b"tares"), (*b"abbey", *b"babes"), (*b"eerie", *b"geese")];
    for (secret, guess) in games {
        let clue = Setter::from_word(secret).check(guess);
        let once = WordList::filter(&answers, clue);
        let twice = WordList::filter(&once, clue);
        assert_eq!(once, twice);
    }
}

#[test]
fn filter_self_never_grows_the_lists() {
    let setter = Setter::from_word(*b"abbey");
    let mut l = WordList::new(false);
    let mut answers = l.answers().len();
    let mut probes = l.probes().len();
    for guess in [*b"tares", *b"babes", *b"tares", *b"abler", *b"abbey", *b"abbey"] {
        l.filter_self(setter.check(guess));
        assert!(l.len() <= answers);
        assert!(l.probes().len() <= probes);
        assert_eq!(l.len(), l.answers().len());
        answers = l.len();
        probes = l.probes().len();
    }
    assert_eq!(*l.answers(), vec![*b"abbey"]);
    assert!(l.probes().is_empty());
}

#[test]
fn filter_self_filters_both_lists() {
    let clue = Setter::from_word(*b"crook").check(*b"tares");
    let mut l = WordList::new(false);
    let answers = WordList::filter(l.answers(), clue);
    let probes = WordList::filter(l.probes(), clue);
    l.filter_self(clue);
    assert_eq!(*l.answers(), answers);
    assert_eq!(*l.probes(), probes);
}
