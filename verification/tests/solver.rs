use hmode::setter::{is_solved, Clue, Setter};
use hmode::solver::Solver;
use hmode::words::{all_words, answer_words};

#[test]
fn solver_filter_handles_all_clues() {
    let unfiltered = Solver::new(false);
    let unfiltered_len = unfiltered.probes().len();
    let filtered = Solver::filter(
        unfiltered.probes(),
        [
            Clue::Right(b'a'),
            Clue::Wrong(b'b'),
            Clue::Wrong(b'c'),
            Clue::Wrong(b'd'),
            Clue::Elsewhere(b'e'),
        ],
    );
    assert!(filtered.len() > 0);
    assert!(unfiltered_len > filtered.len());

    for word in filtered {
        for c in b"bcd" {
            assert!(!word.contains(c));
        }
        assert_eq!(word[0], b'a');
        assert_ne!(word[4], b'e');
        assert!(word.contains(&b'e'));
    }
}

#[test]
fn solver_repeated_wrong_letter_does_not_eliminate_right_letters() {
    let setter = Setter::from_word(*b"crook");
    let mut solver = Solver::new(false);
    let (guess, clues) = loop {
        let guess = solver.guess();
        let clues = setter.check(guess);
        {
            solver.filter_self(clues);
        }
        if !solver.probes().contains(b"crook") {
            break (guess, clues);
        }
    };
    assert_eq!(
        clues,
        [
            Clue::Right(b'c'),
            Clue::Right(b'r'),
            Clue::Right(b'o'),
            Clue::Right(b'o'),
            Clue::Right(b'k')
        ]
    );
    assert_eq!(guess, *b"crook");
}

#[test]
fn start_word() {
    let solver = Solver::new(false).with_start_word("winch").unwrap();
    assert_eq!(std::str::from_utf8(&solver.start_word()).unwrap(), "winch");
}

#[test]
#[should_panic]
fn start_word_too_long() {
    let _solver = Solver::new(false)
        .with_start_word("too-long")
        .expect("Should panic with word too long");
}

#[test]
fn start_word_errors_are_returned() {
    assert_eq!(
        Solver::new(false).with_start_word("too-long").err(),
        Some("Word must have 5 letters".to_string())
    );
    assert_eq!(
        Solver::new(false).with_start_word("xxxxx").err(),
        Some("The word 'xxxxx' is not in the list of valid words".to_string())
    );
    assert_eq!(
        Solver::new(true).with_start_word("abaci").err(),
        Some("The word 'abaci' is not in the list of valid words".to_string())
    );
    let solver = Solver::new(false).with_start_word("abaci").unwrap();
    assert_eq!(solver.start_word(), *b"abaci");
    assert_eq!(solver.guesses(), 0);
    assert_eq!(*solver.candidates(), answer_words());
    assert_eq!(*solver.probes(), all_words(false));
}

#[test]
fn new_solver_holds_the_lexicon() {
    for alt in [false, true] {
        let solver = Solver::new(alt);
        assert_eq!(solver.guesses(), 0);
        assert_eq!(solver.remaining(), answer_words().len());
        assert_eq!(*solver.candidates(), answer_words());
        assert_eq!(*solver.probes(), all_words(alt));
        assert_eq!(solver.start_word(), *b"tares");
    }
}

#[test]
fn first_guess_is_the_start_word() {
    let mut solver = Solver::new(false);
    assert_eq!(solver.guess(), *b"tares");
    assert_eq!(solver.guesses(), 1);
    assert_eq!(solver.remaining(), answer_words().len());
    assert!(!solver.probes().contains(b"tares"));
    assert_eq!(solver.probes().len(), all_words(false).len() - 1);

    let mut solver = Solver::new(false).with_start_word("winch").unwrap();
    assert_eq!(solver.guess(), *b"winch");
    assert!(!solver.probes().contains(b"winch"));
    assert!(solver.candidates().contains(b"winch"));
}

#[test]
fn first_guess_ignores_the_lists() {
    let mut solver = Solver::new(true);
    solver.filter_self([
        Clue::Right(b'z'),
        Clue::Right(b'z'),
        Clue::Right(b'z'),
        Clue::Right(b'z'),
        Clue::Right(b'z'),
    ]);
    assert_eq!(solver.remaining(), 0);
    assert!(solver.probes().is_empty());
    assert_eq!(solver.guess(), *b"tares");
    assert_eq!(solver.guesses(), 1);
}

#[test]
fn sole_candidate_is_returned() {
    let setter = Setter::from_word(*b"abbey");
    let mut solver = Solver::new(true);
    assert_eq!(solver.guess(), *b"tares");
    solver.filter_self(setter.check(*b"tares"));
    solver.filter_self(setter.check(*b"babel"));
    assert_eq!(*solver.candidates(), vec![*b"abbey"]);
    assert_eq!(solver.guess(), *b"abbey");
    assert_eq!(solver.guesses(), 2);
    assert!(!solver.probes().contains(b"abbey"));
    assert_eq!(*solver.candidates(), vec![*b"abbey"]);
}

#[test]
fn search_selects_the_first_probe_with_the_highest_score() {
    let setter = Setter::from_word(*b"crook");
    let mut solver = Solver::new(true);
    let first = solver.guess();
    solver.filter_self(setter.check(first));
    let candidates = solver.candidates().clone();
    let probes = solver.probes().clone();
    assert!(candidates.len() > 1);

    let score = |probe: [u8; 5]| -> usize {
        candidates
            .iter()
            .map(|&answer| {
                let clue = Setter::from_word(answer).check(probe);
                candidates.len() - Solver::filter(&candidates, clue).len()
            })
            .sum()
    };
    let scores: Vec<usize> = probes.iter().map(|&probe| score(probe)).collect();
    let highest = *scores.iter().max().unwrap();
    let first_best = scores.iter().position(|&s| s == highest).unwrap();

    let second = solver.guess();
    assert_eq!(second, probes[first_best]);
    assert_eq!(solver.guesses(), 2);
    assert_eq!(*solver.candidates(), candidates);
    let mut rest = probes.clone();
    rest.retain(|&w| w != second);
    assert_eq!(*solver.probes(), rest);
}

#[test]
fn score_on_a_small_list() {
    // Three candidates that differ only in where they hold an `a`, if at all.
    let list = vec![*b"abbbb", *b"babbb", *b"bbbbb"];
    let reduction = |answer: [u8; 5], probe: [u8; 5]| -> usize {
        list.len() - Solver::filter(&list, Setter::from_word(answer).check(probe)).len()
    };
    assert_eq!(reduction(*b"abbbb", *b"bbbbb"), 2);
    assert_eq!(reduction(*b"bbbbb", *b"bbbbb"), 2);
    assert_eq!(reduction(*b"abbbb", *b"ccccc"), 0);
    assert_eq!(reduction(*b"abbbb", *b"acccc"), 2);
    assert_eq!(reduction(*b"babbb", *b"acccc"), 2);
    assert_eq!(reduction(*b"bbbbb", *b"acccc"), 2);
    assert_eq!(reduction(*b"babbb", *b"bbbbb"), 2);
    assert_eq!(reduction(*b"babbb", *b"ccccc"), 0);
}

#[test]
fn filter_self_narrows_candidates_and_probes() {
    let clue = Setter::from_word(*b"crook").check(*b"tares");
    let mut solver = Solver::new(false);
    let candidates = Solver::filter(solver.candidates(), clue);
    let probes = Solver::filter(solver.probes(), clue);
    solver.filter_self(clue);
    assert_eq!(*solver.candidates(), candidates);
    assert_eq!(*solver.probes(), probes);
    assert_eq!(solver.remaining(), candidates.len());
    assert_eq!(solver.guesses(), 0);
    assert!(solver.candidates().contains(b"crook"));
}

#[test]
fn remaining_never_grows() {
    let setter = Setter::from_word(*b"winch");
    let mut solver = Solver::new(true);
    let mut remaining = solver.remaining();
    for guess in [*b"tares", *b"pinch", *b"tares", *b"wince", *b"winch", *b"winch"] {
        solver.filter_self(setter.check(guess));
        assert!(solver.remaining() <= remaining);
        remaining = solver.remaining();
    }
    assert_eq!(remaining, 1);
}

#[test]
fn solves_crane_from_tares() {
    let setter = Setter::from_word(*b"crane");
    let mut solver = Solver::new(false);
    let trail = solver.solve(&setter);
    assert_eq!(trail[0], *b"tares");
    assert!(trail.len() <= 6);
    assert_eq!(*trail.last().unwrap(), *b"crane");
    assert!(is_solved(&setter.check(*trail.last().unwrap())));
    assert_eq!(solver.guesses() as usize, trail.len());
}

#[test]
fn solve_agrees_with_guessing_step_by_step() {
    let setter = Setter::from_word(*b"crane");
    let mut stepwise = Solver::new(false);
    let mut guesses = Vec::new();
    loop {
        let guess = stepwise.guess();
        guesses.push(guess);
        let clues = setter.check(guess);
        if is_solved(&clues) {
            break;
        }
        stepwise.filter_self(clues);
    }
    let mut solver = Solver::new(false);
    assert_eq!(solver.solve(&setter), guesses);
    assert_eq!(solver.guesses(), stepwise.guesses());
    assert_eq!(solver.candidates(), stepwise.candidates());
    assert_eq!(solver.probes(), stepwise.probes());
}

#[test]
fn no_word_is_guessed_twice() {
    for secret in [*b"crook", *b"abbey", *b"eerie", *b"zonal", *b"mamma", *b"jazzy"] {
        let setter = Setter::from_word(secret);
        let mut solver = Solver::new(true);
        let trail = solver.solve(&setter);
        let mut seen = trail.clone();
        seen.sort();
        seen.dedup();
        assert_eq!(seen.len(), trail.len());
        assert_eq!(*trail.last().unwrap(), secret);
        assert!(trail[..trail.len() - 1].iter().all(|w| *w != secret));
    }
}

#[test]
fn solve_with_the_secret_as_start_word() {
    let setter = Setter::from_word(*b"winch");
    let mut solver = Solver::new(false).with_start_word("winch").unwrap();
    assert_eq!(solver.solve(&setter), vec![*b"winch"]);
    assert_eq!(solver.guesses(), 1);
    assert_eq!(solver.remaining(), answer_words().len());
}

#[test]
fn solves_a_sample_of_answers() {
    for word in answer_words().into_iter().step_by(29) {
        let mut solver = Solver::new(false);
        let setter = Setter::from_word(word);
        let trail = solver.solve(&setter);
        assert_eq!(*trail.last().unwrap(), word);
        assert_eq!(solver.guesses() as usize, trail.len());
        for (i, guess) in trail.iter().enumerate() {
            assert!(!trail[..i].contains(guess));
        }
    }
}
