use crate::lists::{
    lemma_filtered_members, lemma_guess_consistent_iff_secret, lemma_secret_survives,
};
use crate::setter::{feedback, is_solved, lemma_all_right_iff_secret, Clue, Setter};
use crate::solver::{
    lemma_best_probe_is_first_maximum, lemma_lists_only_shrink, lemma_without, Solver,
    SolverView,
};
use crate::words::{all_list, answer_list, lemma_answers_may_be_guessed, WdlWord};
use vstd::prelude::*;

verus! {

/// One thing that a solver is asked to do.
pub enum Step {
    /// To make its next guess.
    Guess,
    /// To take these clues in.
    Clues(Seq<Clue>),
}

/// The state that a solver which began in `start` is in once it was asked to
/// do each of `steps` in turn.
pub open spec fn after_steps(start: SolverView, steps: Seq<Step>) -> SolverView
    decreases steps.len(),
{
    if steps.len() == 0 {
        start
    } else {
        let before = after_steps(start, steps.drop_last());
        match steps.last() {
            Step::Guess => before.after_guess(),
            Step::Clues(clues) => before.after_clues(clues),
        }
    }
}

/// How many of `steps` are guesses.
pub open spec fn guesses_in(steps: Seq<Step>) -> nat
    decreases steps.len(),
{
    if steps.len() == 0 {
        0
    } else {
        guesses_in(steps.drop_last()) + if steps.last() is Guess {
            1nat
        } else {
            0nat
        }
    }
}

/// Whatever a solver is asked to do, and whatever the clues are, its lists
/// never grow and never take a word in: every candidate was a candidate at
/// the start, and every word that may be guessed was one at the start. The
/// opening guess stays as it is, and each guess is counted once.
pub proof fn lemma_lists_never_grow(start: SolverView, steps: Seq<Step>, word: WdlWord)
    ensures
        ({
            let end = after_steps(start, steps);
            &&& end.candidates.len() <= start.candidates.len()
            &&& end.probes.len() <= start.probes.len()
            &&& end.candidates.contains(word) ==> start.candidates.contains(word)
            &&& end.probes.contains(word) ==> start.probes.contains(word)
            &&& end.start_word == start.start_word
            &&& end.guesses == start.guesses + guesses_in(steps)
        }),
    decreases steps.len(),
{
    if steps.len() > 0 {
        let before = after_steps(start, steps.drop_last());
        lemma_lists_never_grow(start, steps.drop_last(), word);
        match steps.last() {
            Step::Guess => {
                lemma_lists_only_shrink(before, Seq::empty(), word);
            },
            Step::Clues(clues) => {
                lemma_lists_only_shrink(before, clues, word);
            },
        }
    }
}

/// The state that a solver which began in `start` is in once it has made the
/// guesses of `trail` against `secret` and has taken in the clues for each.
pub open spec fn state_after(start: SolverView, secret: WdlWord, trail: Seq<WdlWord>) -> SolverView
    decreases trail.len(),
{
    if trail.len() == 0 {
        start
    } else {
        state_after(start, secret, trail.drop_last()).after_guess().after_clues(
            feedback(secret@, trail.last()@),
        )
    }
}

/// The guess that follows the first `i` guesses of `trail`, when each of them
/// was scored against `secret` and its clues were taken in.
pub open spec fn guess_after(
    start: SolverView,
    secret: WdlWord,
    trail: Seq<WdlWord>,
    i: int,
) -> WdlWord {
    state_after(start, secret, trail.take(i)).next_guess()
}

/// Whether `trail` is the game that a solver which begins in `start` plays
/// against `secret`: each word is the guess of the state that the earlier
/// guesses and their clues led to, and the game ends with the first guess
/// that is the secret.
pub open spec fn is_game(start: SolverView, secret: WdlWord, trail: Seq<WdlWord>) -> bool {
    &&& trail.len() > 0
    &&& trail.last() == secret
    &&& forall|i: int| 0 <= i < trail.len() - 1 ==> #[trigger] trail[i] != secret
    &&& forall|i: int|
        0 <= i < trail.len() ==> trail[i] == #[trigger] guess_after(start, secret, trail, i)
}

/// Whether a solver in this state is sure to find `secret`: the secret is a
/// candidate, and every candidate may be guessed.
pub open spec fn can_find(state: SolverView, secret: WdlWord) -> bool {
    &&& state.candidates.contains(secret)
    &&& forall|w: WdlWord| state.candidates.contains(w) ==> state.probes.contains(w)
}

/// An upper bound on the guesses that a game takes from this state: one for
/// each word that may be guessed, and one more for the opening guess.
pub open spec fn rounds_left(state: SolverView) -> int {
    state.probes.len() + if state.guesses == 0 {
        1int
    } else {
        0int
    }
}

/// What holds between the rounds of a game that began in `start`, when the
/// guesses of `trail` were made and `state` was reached.
#[verifier::opaque]
spec fn on_course(
    start: SolverView,
    secret: WdlWord,
    trail: Seq<WdlWord>,
    state: SolverView,
) -> bool {
    &&& can_find(state, secret)
    &&& state == state_after(start, secret, trail)
    &&& state.guesses == start.guesses + trail.len()
    &&& state.guesses == 0 ==> trail.len() == 0
    &&& trail.len() + rounds_left(state) <= rounds_left(start)
    &&& trail.no_duplicates()
    &&& forall|i: int| 0 <= i < trail.len() ==> #[trigger] trail[i] != secret
    &&& forall|i: int| 0 <= i < trail.len() ==> !state.candidates.contains(#[trigger] trail[i])
    &&& forall|i: int| 0 <= i < trail.len() ==> !state.probes.contains(#[trigger] trail[i])
    &&& forall|i: int|
        0 <= i < trail.len() ==> trail[i] == #[trigger] guess_after(start, secret, trail, i)
}

/// A solver that holds the whole lexicon is sure to find every answer,
/// whatever its opening guess is.
pub proof fn lemma_lexicon_finds_every_answer(state: SolverView, secret: WdlWord)
    requires
        state.candidates == answer_list(),
        state.probes == all_list(state.alt_words),
        answer_list().contains(secret),
    ensures
        can_find(state, secret),
{
    assert forall|w: WdlWord| state.candidates.contains(w) implies state.probes.contains(w) by {
        lemma_answers_may_be_guessed(state.alt_words, w);
    }
}

/// One round of a game keeps the solver able to find the secret: after a
/// guess that is not the secret and its clues, the secret is still a
/// candidate, every candidate may still be guessed, and the guess is gone
/// from both lists.
pub proof fn lemma_round_keeps_secret(state: SolverView, secret: WdlWord)
    requires
        can_find(state, secret),
        state.next_guess() != secret,
    ensures
        ({
            let guess = state.next_guess();
            let next = state.after_guess().after_clues(feedback(secret@, guess@));
            &&& can_find(next, secret)
            &&& !next.candidates.contains(guess)
            &&& !next.probes.contains(guess)
        }),
{
    let guess = state.next_guess();
    let clues = feedback(secret@, guess@);
    let next = state.after_guess().after_clues(clues);
    lemma_secret_survives(state.candidates, secret, guess);
    lemma_guess_consistent_iff_secret(secret, guess);
    lemma_filtered_members(state.candidates, clues, guess);
    lemma_filtered_members(state.after_guess().probes, clues, guess);
    assert forall|w: WdlWord| next.candidates.contains(w) implies next.probes.contains(w) by {
        lemma_filtered_members(state.candidates, clues, w);
        lemma_without(state.probes, guess, w);
        lemma_filtered_members(state.after_guess().probes, clues, w);
    }
}

proof fn lemma_next_guess_is_listed(state: SolverView, secret: WdlWord)
    requires
        can_find(state, secret),
        state.guesses > 0,
    ensures
        state.probes.contains(state.next_guess()),
        state.candidates.len() == 1 ==> state.next_guess() == secret,
{
    if state.candidates.len() == 1 {
        assert(state.candidates[0] == secret);
    } else {
        lemma_best_probe_is_first_maximum(state.candidates, state.probes);
    }
}

proof fn lemma_longer_trail(
    start: SolverView,
    secret: WdlWord,
    trail: Seq<WdlWord>,
    state: SolverView,
)
    requires
        state == state_after(start, secret, trail),
        forall|i: int|
            0 <= i < trail.len() ==> trail[i] == #[trigger] guess_after(start, secret, trail, i),
    ensures
        forall|i: int|
            0 <= i <= trail.len() ==> trail.push(state.next_guess())[i] == #[trigger] guess_after(
                start,
                secret,
                trail.push(state.next_guess()),
                i,
            ),
{
    let longer = trail.push(state.next_guess());
    assert forall|i: int| 0 <= i <= trail.len() implies longer[i] == #[trigger] guess_after(
        start,
        secret,
        longer,
        i,
    ) by {
        if i < trail.len() {
            assert(longer.take(i) == trail.take(i));
            assert(trail[i] == guess_after(start, secret, trail, i));
        } else {
            assert(longer.take(i) == trail);
        }
    }
}

proof fn lemma_guess_on_course(
    start: SolverView,
    secret: WdlWord,
    trail: Seq<WdlWord>,
    state: SolverView,
)
    requires
        on_course(start, secret, trail, state),
    ensures
        state.guesses > 0 ==> state.candidates.len() > 0 && state.probes.len() > 0,
        state.next_guess() == secret ==> is_game(start, secret, trail.push(secret))
            && trail.push(secret).no_duplicates() && trail.len() < rounds_left(start),
        state == state_after(start, secret, trail),
        state.guesses == start.guesses + trail.len(),
{
    reveal(on_course);
    if state.next_guess() == secret {
        lemma_longer_trail(start, secret, trail, state);
    }
}

proof fn lemma_round_on_course(
    start: SolverView,
    secret: WdlWord,
    trail: Seq<WdlWord>,
    state: SolverView,
)
    requires
        on_course(start, secret, trail, state),
        state.next_guess() != secret,
    ensures
        ({
            let guess = state.next_guess();
            let next = state.after_guess().after_clues(feedback(secret@, guess@));
            &&& on_course(start, secret, trail.push(guess), next)
            &&& rounds_left(next) < rounds_left(state)
        }),
{
    reveal(on_course);
    let word = state.next_guess();
    let clues = feedback(secret@, word@);
    let next = state.after_guess().after_clues(clues);
    let longer = trail.push(word);
    lemma_round_keeps_secret(state, secret);
    lemma_without(state.probes, word, word);
    lemma_filtered_members(state.after_guess().probes, clues, word);
    if state.guesses > 0 {
        lemma_next_guess_is_listed(state, secret);
    }
    assert(longer.drop_last() == trail);
    lemma_longer_trail(start, secret, trail, state);
    assert forall|i: int| 0 <= i < longer.len() implies !next.candidates.contains(
        #[trigger] longer[i],
    ) && !next.probes.contains(longer[i]) by {
        lemma_filtered_members(state.candidates, clues, longer[i]);
        lemma_without(state.probes, word, longer[i]);
        lemma_filtered_members(state.after_guess().probes, clues, longer[i]);
    }
}

proof fn lemma_game_on_course(start: SolverView, secret: WdlWord, trail: Seq<WdlWord>, k: int)
    requires
        can_find(start, secret),
        is_game(start, secret, trail),
        0 <= k < trail.len(),
    ensures
        on_course(start, secret, trail.take(k), state_after(start, secret, trail.take(k))),
    decreases k,
{
    if k == 0 {
        reveal(on_course);
    } else {
        lemma_game_on_course(start, secret, trail, k - 1);
        let earlier = trail.take(k - 1);
        assert(trail[k - 1] == guess_after(start, secret, trail, k - 1));
        lemma_round_on_course(start, secret, earlier, state_after(start, secret, earlier));
        assert(trail.take(k).drop_last() == earlier);
        assert(earlier.push(trail[k - 1]) == trail.take(k));
    }
}

/// No game repeats a guess, and none outlasts the words that may be guessed:
/// when the secret is a candidate and every candidate may be guessed, the
/// guesses of a game are all different, and there are at most as many of
/// them as `rounds_left` says.
pub proof fn lemma_game_never_repeats(start: SolverView, secret: WdlWord, trail: Seq<WdlWord>)
    requires
        can_find(start, secret),
        is_game(start, secret, trail),
    ensures
        trail.no_duplicates(),
        trail.len() <= rounds_left(start),
{
    let last = trail.len() - 1;
    lemma_game_on_course(start, secret, trail, last);
    assert(trail[last] == guess_after(start, secret, trail, last));
    lemma_guess_on_course(
        start,
        secret,
        trail.take(last),
        state_after(start, secret, trail.take(last)),
    );
    assert(trail.take(last).push(secret) == trail);
}

impl Solver {
    /// Plays a whole game against `setter`: guesses, has each guess scored,
    /// and takes the clues in, until a guess is the secret. Returns the
    /// guesses in the order in which they were made.
    ///
    /// The solver must be able to find the secret, and its count of guesses
    /// must have room for the game. No word is guessed twice, the last guess
    /// is the secret, and the game is no longer than `rounds_left` says.
    pub fn solve(&mut self, setter: &Setter) -> (trail: Vec<WdlWord>)
        requires
            can_find(old(self)@, setter.secret()),
            old(self)@.guesses + rounds_left(old(self)@) < u32::MAX,
        ensures
            is_game(old(self)@, setter.secret(), trail@),
            trail@.no_duplicates(),
            trail@.len() <= rounds_left(old(self)@),
            final(self)@ == state_after(
                old(self)@,
                setter.secret(),
                trail@.drop_last(),
            ).after_guess(),
            final(self)@.guesses == old(self)@.guesses + trail@.len(),
    {
        let ghost start = self@;
        let ghost secret = setter.secret();
        let mut trail: Vec<WdlWord> = Vec::new();
        proof {
            reveal(on_course);
        }
        loop
            invariant
                start == old(self)@,
                secret == setter.secret(),
                on_course(start, secret, trail@, self@),
                self@.guesses + rounds_left(self@) < u32::MAX,
            decreases rounds_left(self@),
        {
            let ghost before = self@;
            let ghost earlier = trail@;
            proof {
                lemma_guess_on_course(start, secret, earlier, before);
            }
            let word = self.guess();
            trail.push(word);
            assert(trail@.drop_last() == earlier);
            let clues = setter.check(word);
            proof {
                lemma_all_right_iff_secret(secret, word);
            }
            if is_solved(&clues) {
                return trail;
            }
            self.filter_self(clues);
            proof {
                lemma_round_on_course(start, secret, earlier, before);
            }
        }
    }
}

} // verus!
