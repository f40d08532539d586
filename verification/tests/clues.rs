use hmode::setter::{is_solved, Clue, Setter};

fn mock_setter() -> Setter {
    Setter::from_word(*b"abcce")
}

#[test]
fn elsewhere_must_not_override_wrong() {
    let result = Setter::from_word(*b"abccd").check(*b"fccgh");
    assert_eq!(
        result,
        [
            Clue::Wrong(b'f'),
            Clue::Elsewhere(b'c'),
            Clue::Right(b'c'),
            Clue::Wrong(b'g'),
            Clue::Wrong(b'h'),
        ]
    )
}

#[test]
fn check_no_match() {
    let test = *b"fghij";
    let result = mock_setter().check(test);
    let mut n: usize = 0;
    for i in result {
        assert_eq!(i, Clue::Wrong(test[n]));
        n += 1;
    }
}

#[test]
fn check_1_match() {
    let result = mock_setter().check(*b"fbhij");
    assert_eq!(
        result,
        [
            Clue::Wrong(b'f'),
            Clue::Right(b'b'),
            Clue::Wrong(b'h'),
            Clue::Wrong(b'i'),
            Clue::Wrong(b'j')
        ]
    );
}

#[test]
fn check_2_match() {
    let result = mock_setter().check(*b"fbhcj");
    assert_eq!(
        result,
        [
            Clue::Wrong(b'f'),
            Clue::Right(b'b'),
            Clue::Wrong(b'h'),
            Clue::Right(b'c'),
            Clue::Wrong(b'j')
        ]
    );
}

#[test]
fn check_1_elsewhere() {
    let result = mock_setter().check(*b"fgahj");
    assert_eq!(
        result,
        [
            Clue::Wrong(b'f'),
            Clue::Wrong(b'g'),
            Clue::Elsewhere(b'a'),
            Clue::Wrong(b'h'),
            Clue::Wrong(b'j')
        ]
    );
}

#[test]
fn check_match_only_counted_once() {
    let result = mock_setter().check(*b"bbbbb");
    assert_eq!(
        result,
        [
            Clue::Wrong(b'b'),
            Clue::Right(b'b'),
            Clue::Wrong(b'b'),
            Clue::Wrong(b'b'),
            Clue::Wrong(b'b')
        ]
    );
}

#[test]
fn check_exact_overides_elsewhere() {
    let result = Setter::from_word(*b"abcde").check(*b"hccij");
    assert_eq!(
        result,
        [
            Clue::Wrong(b'h'),
            Clue::Wrong(b'c'),
            Clue::Right(b'c'),
            Clue::Wrong(b'i'),
            Clue::Wrong(b'j')
        ]
    );
}

#[test]
fn real_world() {
    let result = Setter::from_word(*b"maybe").check(*b"cable");
    assert_eq!(
        result,
        [
            Clue::Wrong(b'c'),
            Clue::Right(b'a'),
            Clue::Elsewhere(b'b'),
            Clue::Wrong(b'l'),
            Clue::Right(b'e')
        ]
    );
}

#[test]
fn check_of_the_secret_is_all_right() {
    for word in [*b"crane", *b"sissy", *b"mamma", *b"aaaaa"] {
        let result = Setter::from_word(word).check(word);
        for (i, clue) in result.into_iter().enumerate() {
            assert_eq!(clue, Clue::Right(word[i]));
        }
        assert!(is_solved(&result));
    }
}

#[test]
fn every_clue_carries_the_guessed_letter() {
    let secrets = [*b"crane", *b"allee", *b"geese", *b"xylem"];
    let guesses = [*b"eerie", *b"lolly", *b"crane", *b"zzzzz"];
    for secret in secrets {
        for guess in guesses {
            let result = Setter::from_word(secret).check(guess);
            assert_eq!(result.len(), 5);
            for (i, clue) in result.into_iter().enumerate() {
                let letter = match clue {
                    Clue::Wrong(c) | Clue::Elsewhere(c) | Clue::Right(c) => c,
                };
                assert_eq!(letter, guess[i]);
            }
        }
    }
}

#[test]
fn letter_twice_in_secret_once_in_guess() {
    // One `l` in the guess, two in the secret: a single clue is raised, to
    // `Right` where the position matches and to `Elsewhere` where it does not.
    let result = Setter::from_word(*b"llama").check(*b"lurid");
    assert_eq!(
        result,
        [
            Clue::Right(b'l'),
            Clue::Wrong(b'u'),
            Clue::Wrong(b'r'),
            Clue::Wrong(b'i'),
            Clue::Wrong(b'd')
        ]
    );
    let result = Setter::from_word(*b"llama").check(*b"build");
    assert_eq!(
        result,
        [
            Clue::Wrong(b'b'),
            Clue::Wrong(b'u'),
            Clue::Wrong(b'i'),
            Clue::Elsewhere(b'l'),
            Clue::Wrong(b'd')
        ]
    );
}

#[test]
fn exact_match_uses_up_supply_before_earlier_positions() {
    // The only `e` of the secret is matched exactly at the last position, so
    // the earlier `e` of the guess finds none left.
    let result = Setter::from_word(*b"crane").check(*b"eagle");
    assert_eq!(
        result,
        [
            Clue::Wrong(b'e'),
            Clue::Elsewhere(b'a'),
            Clue::Wrong(b'g'),
            Clue::Wrong(b'l'),
            Clue::Right(b'e')
        ]
    );
}

#[test]
fn supply_is_spent_from_the_left() {
    let result = Setter::from_word(*b"abbey").check(*b"babbb");
    assert_eq!(
        result,
        [
            Clue::Elsewhere(b'b'),
            Clue::Elsewhere(b'a'),
            Clue::Right(b'b'),
            Clue::Wrong(b'b'),
            Clue::Wrong(b'b')
        ]
    );
}

#[test]
fn bytes_outside_the_alphabet_are_scored_like_letters() {
    let result = Setter::from_word([0, 255, 0, 7, 7]).check([255, 0, 0, 0, 7]);
    assert_eq!(
        result,
        [
            Clue::Elsewhere(255),
            Clue::Elsewhere(0),
            Clue::Right(0),
            Clue::Wrong(0),
            Clue::Right(7)
        ]
    );
}

#[test]
fn is_solved_wants_every_entry_right() {
    assert!(is_solved(&[
        Clue::Right(b'c'),
        Clue::Right(b'r'),
        Clue::Right(b'a'),
        Clue::Right(b'n'),
        Clue::Right(b'e')
    ]));
    assert!(!is_solved(&[
        Clue::Right(b'c'),
        Clue::Right(b'r'),
        Clue::Right(b'a'),
        Clue::Right(b'n'),
        Clue::Elsewhere(b'e')
    ]));
    assert!(!is_solved(&[
        Clue::Wrong(b'c'),
        Clue::Right(b'r'),
        Clue::Right(b'a'),
        Clue::Right(b'n'),
        Clue::Right(b'e')
    ]));
}

#[test]
fn random_setter_hides_an_answer() {
    let answers = hmode::words::answer_words();
    for _ in 0..50 {
        let setter = Setter::new();
        let hits = answers
            .iter()
            .filter(|&&word| is_solved(&setter.check(word)))
            .count();
        assert_eq!(hits, 1);
    }
}

#[test]
fn setter_from_str_takes_answers_only() {
    let setter = Setter::from_str("crane").unwrap();
    assert!(is_solved(&setter.check(*b"crane")));
    assert_eq!(
        Setter::from_str("caber").err(),
        Some("The word 'caber' is not in the list of valid words".to_string())
    );
    assert_eq!(
        Setter::from_str("cranes").err(),
        Some("Word must have 5 letters".to_string())
    );
}
