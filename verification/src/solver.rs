use crate::lists::{filtered, keeps, lemma_filter_idempotent, lemma_filtered_members, WordList};
use crate::setter::{feedback, CheckResult, Clue, Setter};
use crate::words::{
    all_list, all_words, answer_list, answer_words, lookup_error, same_word, to_static_word,
    WdlWord, DEFAULT_START_WORD,
};
use vstd::prelude::*;
use vstd::string::StringSliceAdditionalSpecFns;

verus! {

/// How many of `candidates` a guess of `probe` rules out if `answer` is the secret.
pub open spec fn reduction(candidates: Seq<WdlWord>, answer: WdlWord, probe: WdlWord) -> nat {
    let kept = filtered(candidates, feedback(answer@, probe@)).len();
    if kept < candidates.len() {
        (candidates.len() - kept) as nat
    } else {
        0
    }
}

/// The reductions of `probe`, summed over the first `n` candidates taken as the secret.
pub open spec fn score_upto(candidates: Seq<WdlWord>, probe: WdlWord, n: int) -> nat
    decreases n,
{
    if n <= 0 {
        0
    } else {
        score_upto(candidates, probe, n - 1) + reduction(candidates, candidates[n - 1], probe)
    }
}

/// The score of `probe`: its reductions, summed over every candidate taken
/// as the secret. This is a plain total, not an average.
pub open spec fn score(candidates: Seq<WdlWord>, probe: WdlWord) -> nat {
    score_upto(candidates, probe, candidates.len() as int)
}

/// The index of the best of the first `n` probes: the first one whose score
/// none of them exceeds.
pub open spec fn best_upto(candidates: Seq<WdlWord>, probes: Seq<WdlWord>, n: int) -> int
    decreases n,
{
    if n <= 1 {
        0
    } else {
        let best = best_upto(candidates, probes, n - 1);
        if score(candidates, probes[n - 1]) > score(candidates, probes[best]) {
            n - 1
        } else {
            best
        }
    }
}

/// The index of the probe that the search selects.
pub open spec fn best_probe(candidates: Seq<WdlWord>, probes: Seq<WdlWord>) -> int {
    best_upto(candidates, probes, probes.len() as int)
}

/// The test that keeps every word but `word`.
pub open spec fn differs_from(word: WdlWord) -> spec_fn(WdlWord) -> bool {
    |w: WdlWord| w != word
}

/// `list` with every occurrence of `word` taken out.
pub open spec fn without(list: Seq<WdlWord>, word: WdlWord) -> Seq<WdlWord> {
    list.filter(differs_from(word))
}

/// The state of a solver.
pub struct SolverView {
    /// The answers that every clue so far allows, in the order of the lexicon.
    pub candidates: Seq<WdlWord>,
    /// The words that may still be guessed: not yet returned, and allowed by
    /// every clue so far.
    pub probes: Seq<WdlWord>,
    /// The opening guess.
    pub start_word: WdlWord,
    /// How many guesses were returned.
    pub guesses: nat,
    /// Whether the shorter list of probes is in use.
    pub alt_words: bool,
}

impl SolverView {
    /// Whether `guess` may be called in this state. The opening guess is
    /// always to be had; after it the solver needs a candidate and a word
    /// that may be guessed.
    pub open spec fn can_guess(self) -> bool {
        &&& self.guesses < u32::MAX
        &&& self.guesses > 0 ==> self.candidates.len() > 0 && self.probes.len() > 0
    }

    /// The word that the next call of `guess` returns.
    pub open spec fn next_guess(self) -> WdlWord {
        if self.guesses == 0 {
            self.start_word
        } else if self.candidates.len() == 1 {
            self.candidates[0]
        } else {
            self.probes[best_probe(self.candidates, self.probes)]
        }
    }

    /// The state after the next call of `guess`.
    pub open spec fn after_guess(self) -> SolverView {
        SolverView {
            probes: without(self.probes, self.next_guess()),
            guesses: self.guesses + 1,
            ..self
        }
    }

    /// The state after `clues` were taken in.
    pub open spec fn after_clues(self, clues: Seq<Clue>) -> SolverView {
        SolverView {
            candidates: filtered(self.candidates, clues),
            probes: filtered(self.probes, clues),
            ..self
        }
    }
}

/// The selected probe is the first with the highest score: no probe scores
/// higher, and every probe before it scores lower.
pub proof fn lemma_best_probe_is_first_maximum(candidates: Seq<WdlWord>, probes: Seq<WdlWord>)
    requires
        probes.len() > 0,
    ensures
        0 <= best_probe(candidates, probes) < probes.len(),
        forall|j: int|
            0 <= j < probes.len() ==> score(candidates, #[trigger] probes[j]) <= score(
                candidates,
                probes[best_probe(candidates, probes)],
            ),
        forall|j: int|
            0 <= j < best_probe(candidates, probes) ==> score(candidates, #[trigger] probes[j])
                < score(candidates, probes[best_probe(candidates, probes)]),
{
    lemma_best_upto(candidates, probes, probes.len() as int);
}

proof fn lemma_best_upto(candidates: Seq<WdlWord>, probes: Seq<WdlWord>, n: int)
    requires
        1 <= n <= probes.len(),
    ensures
        0 <= best_upto(candidates, probes, n) < n,
        forall|j: int|
            0 <= j < n ==> score(candidates, #[trigger] probes[j]) <= score(
                candidates,
                probes[best_upto(candidates, probes, n)],
            ),
        forall|j: int|
            0 <= j < best_upto(candidates, probes, n) ==> score(candidates, #[trigger] probes[j])
                < score(candidates, probes[best_upto(candidates, probes, n)]),
    decreases n,
{
    if n > 1 {
        lemma_best_upto(candidates, probes, n - 1);
    }
}

/// A word is in `without(list, word)` exactly when it is in `list` and is
/// not `word`; taking a word out that the list holds makes the list shorter.
pub proof fn lemma_without(list: Seq<WdlWord>, word: WdlWord, other: WdlWord)
    ensures
        without(list, word).contains(other) <==> list.contains(other) && other != word,
        without(list, word).len() <= list.len(),
        list.contains(word) ==> without(list, word).len() < list.len(),
    decreases list.len(),
{
    let rest = without(list, word);
    if list.len() == 0 {
        reveal(Seq::filter);
    } else {
        let front = list.drop_last();
        let shorter = without(front, word);
        assert(list == front.push(list.last()));
        lemma_without(front, word, other);
        front.lemma_filter_push(list.last(), differs_from(word));
        if shorter.contains(other) {
            let i = choose|i: int| 0 <= i < shorter.len() && shorter[i] == other;
            assert(rest[i] == other);
        }
        if list.last() == other && other != word {
            assert(rest[rest.len() - 1] == other);
        }
        if list.contains(other) && other != word && list.last() != other {
            let i = choose|i: int| 0 <= i < list.len() && list[i] == other;
            assert(front[i] == other);
        }
        if list.contains(word) && list.last() != word {
            let i = choose|i: int| 0 <= i < list.len() && list[i] == word;
            assert(front[i] == word);
        }
    }
}

/// No step brings a word back. A guess leaves the candidates as they are and
/// takes the guessed word out of the words that may be guessed; clues only
/// take words out of either list.
pub proof fn lemma_lists_only_shrink(state: SolverView, clues: Seq<Clue>, word: WdlWord)
    ensures
        state.after_guess().candidates == state.candidates,
        !state.after_guess().probes.contains(state.next_guess()),
        state.after_guess().probes.contains(word) ==> state.probes.contains(word),
        state.after_guess().probes.len() <= state.probes.len(),
        state.after_clues(clues).candidates.contains(word) ==> state.candidates.contains(word),
        state.after_clues(clues).probes.contains(word) ==> state.probes.contains(word),
        state.after_clues(clues).candidates.len() <= state.candidates.len(),
        state.after_clues(clues).probes.len() <= state.probes.len(),
{
    lemma_without(state.probes, state.next_guess(), state.next_guess());
    lemma_without(state.probes, state.next_guess(), word);
    lemma_filtered_members(state.candidates, clues, word);
    lemma_filtered_members(state.probes, clues, word);
}

/// Taking the same clues in a second time changes nothing.
pub proof fn lemma_clues_twice(state: SolverView, clues: Seq<Clue>)
    ensures
        state.after_clues(clues).after_clues(clues) == state.after_clues(clues),
{
    lemma_filter_idempotent(state.candidates, clues);
    lemma_filter_idempotent(state.probes, clues);
}

proof fn lemma_score_bounded(candidates: Seq<WdlWord>, probe: WdlWord, n: int)
    requires
        0 <= n,
    ensures
        score_upto(candidates, probe, n) <= n * candidates.len(),
    decreases n,
{
    if n > 0 {
        lemma_score_bounded(candidates, probe, n - 1);
        assert((n - 1) * candidates.len() + candidates.len() == n * candidates.len())
            by (nonlinear_arith);
    }
}

/// The score of `probe` against `candidates`.
///
/// Each candidate is taken as the secret in turn, and the candidates that the
/// clues for `probe` would then rule out are counted. The total fits: it is
/// at most the square of a length.
fn score_of(candidates: &Vec<WdlWord>, probe: &WdlWord) -> (total: u128)
    ensures
        total == score(candidates@, *probe),
{
    let n: usize = candidates.len();
    let mut total: u128 = 0;
    let mut m: usize = 0;
    while m < n
        invariant
            m <= n,
            n == candidates@.len(),
            total == score_upto(candidates@, *probe, m as int),
        decreases n - m,
    {
        let setter = Setter::from_word(candidates[m]);
        let clues = setter.check(*probe);
        let kept: usize = WordList::count(candidates.as_slice(), clues);
        proof {
            lemma_score_bounded(candidates@, *probe, m + 1);
            assert((m + 1) * n <= n * n) by (nonlinear_arith)
                requires
                    m + 1 <= n,
            ;
            assert(n * n <= 0xffff_ffff_ffff_ffff * 0xffff_ffff_ffff_ffff) by (nonlinear_arith)
                requires
                    0 <= n <= 0xffff_ffff_ffff_ffff,
            ;
        }
        let diff: usize = if kept < n {
            n - kept
        } else {
            0
        };
        total = total + diff as u128;
        m += 1;
    }
    total
}

/// The index of the first probe with the highest score.
fn best_index(candidates: &Vec<WdlWord>, probes: &Vec<WdlWord>) -> (best: usize)
    requires
        probes@.len() > 0,
    ensures
        best == best_probe(candidates@, probes@),
        best < probes@.len(),
{
    let mut best: usize = 0;
    let mut best_score: u128 = score_of(candidates, &probes[0]);
    let mut j: usize = 1;
    while j < probes.len()
        invariant
            1 <= j <= probes@.len(),
            best < j,
            best == best_upto(candidates@, probes@, j as int),
            best_score == score(candidates@, probes@[best as int]),
        decreases probes@.len() - j,
    {
        let total: u128 = score_of(candidates, &probes[j]);
        if total > best_score {
            best = j;
            best_score = total;
        }
        j += 1;
    }
    best
}

/// Takes every occurrence of `word` out of `list`.
fn discard(list: &Vec<WdlWord>, word: &WdlWord) -> (rest: Vec<WdlWord>)
    ensures
        rest@ == without(list@, *word),
{
    let mut rest: Vec<WdlWord> = Vec::new();
    let mut i: usize = 0;
    while i < list.len()
        invariant
            i <= list@.len(),
            rest@ == without(list@.take(i as int), *word),
        decreases list@.len() - i,
    {
        proof {
            list@.lemma_take_succ_push(i as int);
            list@.take(i as int).lemma_filter_push(list@[i as int], differs_from(*word));
        }
        if !same_word(&list[i], word) {
            rest.push(list[i]);
        }
        i += 1;
    }
    proof {
        list@.lemma_take_len();
    }
    rest
}

/// The player who narrows the candidates clue by clue and picks each next guess.
#[derive(Debug, Clone)]
pub struct Solver {
    candidates: Vec<WdlWord>,
    probes: Vec<WdlWord>,
    start_word: WdlWord,
    guesses: u32,
    use_alt_words: bool,
}

impl View for Solver {
    type V = SolverView;

    closed spec fn view(&self) -> SolverView {
        SolverView {
            candidates: self.candidates@,
            probes: self.probes@,
            start_word: self.start_word,
            guesses: self.guesses as nat,
            alt_words: self.use_alt_words,
        }
    }
}

impl Solver {
    /// A solver at the start of a game: every answer is a candidate, every
    /// word of the lexicon may be guessed, and the opening guess is `tares`.
    pub fn new(alt_words: bool) -> (solver: Self)
        ensures
            solver@ == (SolverView {
                candidates: answer_list(),
                probes: all_list(alt_words),
                start_word: DEFAULT_START_WORD,
                guesses: 0,
                alt_words,
            }),
    {
        Solver {
            candidates: answer_words(),
            probes: all_words(alt_words),
            start_word: DEFAULT_START_WORD,
            guesses: 0,
            use_alt_words: alt_words,
        }
    }

    /// Replaces the opening guess by `word`, which must be five bytes long
    /// and a word that may be guessed. Nothing else changes.
    pub fn with_start_word(self, word: &str) -> (res: Result<Self, String>)
        ensures
            match res {
                Ok(solver) => {
                    &&& solver@ == (SolverView { start_word: solver@.start_word, ..self@ })
                    &&& solver@.start_word@ == word.spec_bytes()
                    &&& all_list(self@.alt_words).contains(solver@.start_word)
                },
                Err(msg) => lookup_error(word, all_list(self@.alt_words), msg@),
            },
    {
        let mut solver = self;
        match to_static_word(word, false, solver.use_alt_words) {
            Ok(w) => {
                solver.start_word = w;
                Ok(solver)
            },
            Err(msg) => Err(msg),
        }
    }

    /// How many guesses were returned so far.
    pub fn guesses(&self) -> (n: u32)
        ensures
            n == self@.guesses,
    {
        self.guesses
    }

    /// How many candidates are left.
    pub fn remaining(&self) -> (n: usize)
        ensures
            n == self@.candidates.len(),
    {
        self.candidates.len()
    }

    /// The candidates that are left.
    pub fn candidates(&self) -> (list: &Vec<WdlWord>)
        ensures
            list@ == self@.candidates,
    {
        &self.candidates
    }

    /// The words that may still be guessed.
    pub fn probes(&self) -> (list: &Vec<WdlWord>)
        ensures
            list@ == self@.probes,
    {
        &self.probes
    }

    /// The opening guess.
    pub fn start_word(&self) -> (word: WdlWord)
        ensures
            word == self@.start_word,
    {
        self.start_word
    }

    /// Narrows `list` to the words that are consistent with `clues`, keeping
    /// their order.
    pub fn filter(list: &[WdlWord], clues: CheckResult) -> (kept: Vec<WdlWord>)
        ensures
            kept@ == filtered(list@, clues@),
    {
        WordList::filter(list, clues)
    }

    /// Takes `clues` in: the candidates and the words that may be guessed are
    /// both narrowed to those that are consistent with them. Neither list
    /// grows, and nothing else changes.
    pub fn filter_self(&mut self, clues: CheckResult)
        ensures
            final(self)@ == old(self)@.after_clues(clues@),
            final(self)@.candidates.len() <= old(self)@.candidates.len(),
            final(self)@.probes.len() <= old(self)@.probes.len(),
    {
        proof {
            self.candidates@.lemma_filter_len(keeps(clues@));
            self.probes@.lemma_filter_len(keeps(clues@));
        }
        self.candidates = Self::filter(self.candidates.as_slice(), clues);
        self.probes = Self::filter(self.probes.as_slice(), clues);
    }

    /// The next guess.
    ///
    /// The first guess is the opening word, whatever the lists hold. After
    /// that a single remaining candidate is returned as it is; otherwise the
    /// probe with the highest score is selected, the first of them on a tie.
    /// Every call counts as one guess, and the word returned may not be
    /// guessed again. The candidates are left as they are.
    pub fn guess(&mut self) -> (word: WdlWord)
        requires
            old(self)@.can_guess(),
        ensures
            word == old(self)@.next_guess(),
            final(self)@ == old(self)@.after_guess(),
            old(self)@.guesses == 0 ==> word == old(self)@.start_word,
            final(self)@.guesses == old(self)@.guesses + 1,
            final(self)@.candidates == old(self)@.candidates,
            !final(self)@.probes.contains(word),
    {
        let word = if self.guesses == 0 {
            self.start_word
        } else if self.candidates.len() == 1 {
            self.candidates[0]
        } else {
            let best = best_index(&self.candidates, &self.probes);
            self.probes[best]
        };
        proof {
            lemma_without(self.probes@, word, word);
        }
        self.probes = discard(&self.probes, &word);
        self.guesses += 1;
        word
    }
}

} // verus!
