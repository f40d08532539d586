use crate::lexicon::lemma_answers_exist;
use crate::words::{answer_list, answer_words, lookup_error, to_static_word, WdlWord};
use rand::distributions::{Distribution, Uniform};
use vstd::prelude::*;
use vstd::string::StringSliceAdditionalSpecFns;

verus! {

/// Feedback for one position of a guess. Every variant carries the letter
/// that was guessed at that position.
#[derive(Debug, PartialEq, Eq, Copy, Clone, Structural)]
pub enum Clue {
    /// The letter is absent, or every occurrence of it is already accounted for.
    Wrong(u8),
    /// The letter occurs in the secret, but not at this position.
    Elsewhere(u8),
    /// The letter occurs in the secret at this position.
    Right(u8),
}

/// The feedback for a whole guess, aligned with the positions of the guess.
pub type CheckResult = [Clue; 5];

impl Clue {
    /// The guessed letter that the clue speaks of.
    pub open spec fn letter(self) -> u8 {
        match self {
            Clue::Wrong(c) => c,
            Clue::Elsewhere(c) => c,
            Clue::Right(c) => c,
        }
    }
}

/// The number of positions below `n` at which `a` holds `c` and `b` does not.
///
/// With the secret for `a` and the guess for `b` this is the supply of `c`
/// that exact matches leave over; with the guess for `a` and the secret for
/// `b` it is the number of misplaced `c`s that the guess holds so far.
pub open spec fn unmatched(a: Seq<u8>, b: Seq<u8>, c: u8, n: int) -> nat
    decreases n,
{
    if n <= 0 {
        0
    } else {
        unmatched(a, b, c, n - 1) + if a[n - 1] == c && b[n - 1] != c {
            1nat
        } else {
            0nat
        }
    }
}

/// The clue owed to position `i` of `guess` when the hidden word is `secret`.
///
/// An exact match is `Right`. Any other letter is `Elsewhere` as long as the
/// secret has an occurrence of it left that no exact match and no earlier
/// misplaced occurrence in the guess has used up, and `Wrong` after that.
pub open spec fn clue_at(secret: Seq<u8>, guess: Seq<u8>, i: int) -> Clue {
    let c = guess[i];
    if secret[i] == c {
        Clue::Right(c)
    } else if unmatched(guess, secret, c, i) < unmatched(secret, guess, c, 5) {
        Clue::Elsewhere(c)
    } else {
        Clue::Wrong(c)
    }
}

/// The five clues that `guess` earns against `secret`.
pub open spec fn feedback(secret: Seq<u8>, guess: Seq<u8>) -> Seq<Clue> {
    Seq::new(5, |i: int| clue_at(secret, guess, i))
}

/// Whether every entry of `clues` is `Right`: the guess was the secret.
pub open spec fn all_right(clues: Seq<Clue>) -> bool {
    forall|i: int| 0 <= i < clues.len() ==> #[trigger] clues[i] is Right
}

/// How often `c` occurs among the first `n` letters of `a`.
spec fn occurrences(a: Seq<u8>, c: u8, n: int) -> nat
    decreases n,
{
    if n <= 0 {
        0
    } else {
        occurrences(a, c, n - 1) + if a[n - 1] == c {
            1nat
        } else {
            0nat
        }
    }
}

/// The number of positions below `n` at which both `a` and `b` hold `c`.
spec fn matched(a: Seq<u8>, b: Seq<u8>, c: u8, n: int) -> nat
    decreases n,
{
    if n <= 0 {
        0
    } else {
        matched(a, b, c, n - 1) + if a[n - 1] == c && b[n - 1] == c {
            1nat
        } else {
            0nat
        }
    }
}

/// What is left of the secret's supply of `c` once the misplaced occurrences
/// of `c` below position `n` of the guess have drawn on it.
spec fn supply_left(secret: Seq<u8>, guess: Seq<u8>, c: u8, n: int) -> int {
    let spare = unmatched(secret, guess, c, 5);
    let claimed = unmatched(guess, secret, c, n);
    if claimed < spare {
        spare - claimed
    } else {
        0
    }
}

/// The clue that position `j` holds before the misplaced letters are looked at.
spec fn first_pass(secret: Seq<u8>, guess: Seq<u8>, j: int) -> Clue {
    if secret[j] == guess[j] {
        Clue::Right(guess[j])
    } else {
        Clue::Wrong(guess[j])
    }
}

proof fn lemma_counts_add_up(a: Seq<u8>, b: Seq<u8>, c: u8, n: int)
    requires
        0 <= n,
    ensures
        occurrences(a, c, n) == matched(a, b, c, n) + unmatched(a, b, c, n),
        occurrences(a, c, n) <= n,
    decreases n,
{
    if n > 0 {
        lemma_counts_add_up(a, b, c, n - 1);
    }
}

proof fn lemma_matched_grows(a: Seq<u8>, b: Seq<u8>, c: u8, m: int, n: int)
    requires
        0 <= m <= n,
    ensures
        matched(a, b, c, m) <= matched(a, b, c, n),
    decreases n - m,
{
    if m < n {
        lemma_matched_grows(a, b, c, m, n - 1);
    }
}

/// A guess earns `Right` at every position exactly when it is the secret.
pub proof fn lemma_all_right_iff_secret(secret: WdlWord, guess: WdlWord)
    ensures
        all_right(feedback(secret@, guess@)) <==> guess == secret,
{
    let clues = feedback(secret@, guess@);
    if guess == secret {
        assert forall|i: int| 0 <= i < clues.len() implies #[trigger] clues[i] is Right by {}
    } else {
        assert(!(guess =~= secret));
        let i = choose|i: int| 0 <= i < 5 && guess[i] != secret[i];
        assert(!(clues[i] is Right));
    }
}

/// Whether `clues` reports a solved game: every entry is `Right`.
pub fn is_solved(clues: &CheckResult) -> (solved: bool)
    ensures
        solved == all_right(clues@),
{
    let mut i: usize = 0;
    while i < 5
        invariant
            i <= 5,
            forall|k: int| 0 <= k < i ==> #[trigger] clues@[k] is Right,
        decreases 5 - i,
    {
        match clues[i] {
            Clue::Right(_) => {},
            _ => {
                return false;
            },
        }
        i += 1;
    }
    true
}

/// Draws an index below `n`: a sample of `rand::distributions::Uniform::new(0, n)`,
/// taken by `Distribution::sample` with `rand::thread_rng()` as the source.
///
/// The distribution is over the half-open range from 0 to `n`, so the sample
/// is below `n`; which index comes out is open, and nothing more is claimed.
/// `Uniform::new` panics on an empty range, so `n` must not be 0. The source
/// itself fails only where the system cannot seed it, whatever `n` is.
#[verifier::external_body]
fn random_index(n: usize) -> (index: usize)
    requires
        n > 0,
    ensures
        index < n,
{
    let range = Uniform::new(0usize, n);
    let mut rng = rand::thread_rng();
    range.sample(&mut rng)
}

/// The role that knows the hidden word and scores guesses against it.
#[derive(Debug)]
pub struct Setter {
    chosen: WdlWord,
}

impl Setter {
    /// The hidden word.
    pub closed spec fn secret(&self) -> WdlWord {
        self.chosen
    }

    /// A setter whose hidden word is drawn at random from the answers.
    pub fn new() -> (setter: Self)
        ensures
            answer_list().contains(setter.secret()),
    {
        let w = answer_words();
        proof {
            lemma_answers_exist();
        }
        let index: usize = random_index(w.len());
        Self::from_word(w[index])
    }

    /// A setter that hides `word`.
    pub fn from_word(word: WdlWord) -> (setter: Self)
        ensures
            setter.secret() == word,
    {
        Setter { chosen: word }
    }

    /// A setter that hides `word`, which must be one of the answers.
    pub fn from_str(word: &str) -> (res: Result<Self, String>)
        ensures
            match res {
                Ok(setter) => {
                    &&& setter.secret()@ == word.spec_bytes()
                    &&& answer_list().contains(setter.secret())
                },
                Err(msg) => lookup_error(word, answer_list(), msg@),
            },
    {
        match to_static_word(word, true, false) {
            Ok(w) => Ok(Self::from_word(w)),
            Err(msg) => Err(msg),
        }
    }

    /// Scores `word` against the hidden word.
    ///
    /// The letters of the hidden word are counted first. Exact matches then
    /// draw on the counts before any misplaced letter does, so that a letter
    /// which the guess repeats more often than the hidden word holds it is
    /// credited no more often than it occurs.
    pub fn check(&self, word: WdlWord) -> (result: CheckResult)
        ensures
            result@ == feedback(self.secret()@, word@),
            forall|i: int| 0 <= i < 5 ==> (#[trigger] result[i]).letter() == word[i],
            word == self.secret() ==> forall|i: int|
                0 <= i < 5 ==> #[trigger] result[i] == Clue::Right(word[i]),
    {
        let ghost secret = self.chosen@;
        let ghost guess = word@;
        let mut supply: [u8; 256] = [0u8; 256];
        let mut i: usize = 0;
        while i < 5
            invariant
                i <= 5,
                secret == self.chosen@,
                forall|c: u8| #[trigger] supply[c as int] == occurrences(secret, c, i as int),
                forall|c: u8| #[trigger] supply[c as int] <= i,
            decreases 5 - i,
        {
            let c: u8 = self.chosen[i];
            supply[c as usize] = supply[c as usize] + 1;
            i += 1;
        }
        let mut result: CheckResult = [
            Clue::Wrong(word[0]),
            Clue::Wrong(word[1]),
            Clue::Wrong(word[2]),
            Clue::Wrong(word[3]),
            Clue::Wrong(word[4]),
        ];
        let mut settled: [bool; 5] = [false; 5];
        i = 0;
        while i < 5
            invariant
                i <= 5,
                secret == self.chosen@,
                guess == word@,
                forall|c: u8| #[trigger]
                    supply[c as int] == occurrences(secret, c, 5) - matched(
                        secret,
                        guess,
                        c,
                        i as int,
                    ),
                forall|j: int|
                    0 <= j < 5 ==> #[trigger] settled[j] == (j < i && secret[j] == guess[j]),
                forall|j: int|
                    0 <= j < i ==> #[trigger] result[j] == first_pass(secret, guess, j),
                forall|j: int| i <= j < 5 ==> #[trigger] result[j] == Clue::Wrong(guess[j]),
            decreases 5 - i,
        {
            let c: u8 = word[i];
            if self.chosen[i] == c {
                proof {
                    lemma_matched_grows(secret, guess, c, i + 1, 5);
                    lemma_counts_add_up(secret, guess, c, 5);
                }
                result[i] = Clue::Right(c);
                settled[i] = true;
                supply[c as usize] = supply[c as usize] - 1;
            }
            i += 1;
        }
        proof {
            assert forall|c: u8| #[trigger]
                supply[c as int] == supply_left(secret, guess, c, 0) by {
                lemma_counts_add_up(secret, guess, c, 5);
            }
        }
        i = 0;
        while i < 5
            invariant
                i <= 5,
                secret == self.chosen@,
                guess == word@,
                forall|c: u8| #[trigger]
                    supply[c as int] == supply_left(secret, guess, c, i as int),
                forall|j: int| 0 <= j < 5 ==> #[trigger] settled[j] == (secret[j] == guess[j]),
                forall|j: int| 0 <= j < i ==> #[trigger] result[j] == clue_at(secret, guess, j),
                forall|j: int|
                    i <= j < 5 ==> #[trigger] result[j] == first_pass(secret, guess, j),
            decreases 5 - i,
        {
            if !settled[i] {
                let c: u8 = word[i];
                if supply[c as usize] > 0 {
                    result[i] = Clue::Elsewhere(c);
                    supply[c as usize] = supply[c as usize] - 1;
                }
            }
            i += 1;
        }
        assert(result@ =~= feedback(secret, guess));
        result
    }
}

} // verus!
