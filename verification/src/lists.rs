use crate::setter::{feedback, unmatched, CheckResult, Clue};
use crate::words::{answer_list, answer_words, probe_list, probe_words, WdlWord};
use vstd::prelude::*;

verus! {

/// Whether some `Right` or `Elsewhere` entry of `clues` speaks of the letter `c`.
pub open spec fn confirmed(clues: Seq<Clue>, c: u8) -> bool {
    clues.contains(Clue::Right(c)) || clues.contains(Clue::Elsewhere(c))
}

/// Whether `word` is compatible with the clue given for position `i`.
///
/// A `Wrong` letter is banned from the whole word only when no other entry of
/// `clues` confirms it: a guess that repeats a letter more often than the
/// secret holds it earns `Wrong` for the surplus.
pub open spec fn agrees_at(word: Seq<u8>, clues: Seq<Clue>, i: int) -> bool {
    match clues[i] {
        Clue::Right(c) => word[i] == c,
        Clue::Elsewhere(c) => word.contains(c) && word[i] != c,
        Clue::Wrong(c) => word[i] != c && (confirmed(clues, c) || !word.contains(c)),
    }
}

/// Whether `word` could be the secret as far as `clues` can tell.
pub open spec fn consistent(word: Seq<u8>, clues: Seq<Clue>) -> bool {
    forall|i: int| 0 <= i < clues.len() ==> agrees_at(word, clues, i)
}

/// The test that a filter on `clues` applies to each word.
pub open spec fn keeps(clues: Seq<Clue>) -> spec_fn(WdlWord) -> bool {
    |w: WdlWord| consistent(w@, clues)
}

/// The words of `list` that are consistent with `clues`, in their order.
pub open spec fn filtered(list: Seq<WdlWord>, clues: Seq<Clue>) -> Seq<WdlWord> {
    list.filter(keeps(clues))
}

/// Whether the flags say of each position if its letter is confirmed.
spec fn marks_confirmed(flags: [bool; 5], clues: Seq<Clue>) -> bool {
    forall|i: int| 0 <= i < 5 ==> #[trigger] flags[i] == confirmed(clues, clues[i].letter())
}

/// A word belongs to the filtered list exactly when it belongs to the list
/// and is consistent with the clues, and the filtered list is no longer than
/// the list.
pub proof fn lemma_filtered_members(list: Seq<WdlWord>, clues: Seq<Clue>, word: WdlWord)
    ensures
        filtered(list, clues).contains(word) <==> list.contains(word) && consistent(
            word@,
            clues,
        ),
        filtered(list, clues).len() <= list.len(),
{
    let kept = filtered(list, clues);
    list.lemma_filter_len(keeps(clues));
    if kept.contains(word) {
        list.lemma_filter_contains_rev(keeps(clues), word);
        let i = choose|i: int| 0 <= i < kept.len() && kept[i] == word;
        list.lemma_filter_pred(keeps(clues), i);
    }
    if list.contains(word) && consistent(word@, clues) {
        let i = choose|i: int| 0 <= i < list.len() && list[i] == word;
        list.lemma_filter_contains(keeps(clues), i);
    }
}

proof fn lemma_filter_twice<A>(s: Seq<A>, p: spec_fn(A) -> bool)
    ensures
        s.filter(p).filter(p) == s.filter(p),
    decreases s.len(),
{
    if s.len() == 0 {
        reveal(Seq::filter);
    } else {
        let front = s.drop_last();
        assert(s == front.push(s.last()));
        lemma_filter_twice(front, p);
        front.lemma_filter_push(s.last(), p);
        if p(s.last()) {
            front.filter(p).lemma_filter_push(s.last(), p);
        }
    }
}

/// Filtering is idempotent: a list that was filtered on `clues` is left
/// unchanged by filtering it on the same `clues` once more.
pub proof fn lemma_filter_idempotent(list: Seq<WdlWord>, clues: Seq<Clue>)
    ensures
        filtered(filtered(list, clues), clues) == filtered(list, clues),
{
    lemma_filter_twice(list, keeps(clues));
}

proof fn lemma_first_unmatched(a: Seq<u8>, b: Seq<u8>, c: u8, n: int) -> (k: int)
    requires
        unmatched(a, b, c, n) > 0,
    ensures
        0 <= k < n,
        a[k] == c,
        b[k] != c,
        unmatched(a, b, c, k) == 0,
    decreases n,
{
    if unmatched(a, b, c, n - 1) > 0 {
        lemma_first_unmatched(a, b, c, n - 1)
    } else {
        n - 1
    }
}

proof fn lemma_unmatched_counts(a: Seq<u8>, b: Seq<u8>, c: u8, j: int, n: int)
    requires
        0 <= j < n,
        a[j] == c,
        b[j] != c,
    ensures
        unmatched(a, b, c, n) > 0,
    decreases n,
{
    if j < n - 1 {
        lemma_unmatched_counts(a, b, c, j, n - 1);
    }
}

/// The secret is consistent with the clues that any guess earns against it.
pub proof fn lemma_secret_is_consistent(secret: WdlWord, guess: WdlWord)
    ensures
        consistent(secret@, feedback(secret@, guess@)),
{
    let s = secret@;
    let g = guess@;
    let clues = feedback(s, g);
    assert forall|i: int| 0 <= i < clues.len() implies agrees_at(s, clues, i) by {
        let c = g[i];
        if s[i] != c {
            if unmatched(g, s, c, i) < unmatched(s, g, c, 5) {
                // `Elsewhere`: the secret has a spare `c`.
                let j = lemma_first_unmatched(s, g, c, 5);
                assert(s[j] == c);
            } else if s.contains(c) {
                // `Wrong`, though the secret holds `c`: another clue confirms it.
                let j = choose|j: int| 0 <= j < s.len() && s[j] == c;
                if g[j] == c {
                    assert(clues[j] == Clue::Right(c));
                } else {
                    lemma_unmatched_counts(s, g, c, j, 5);
                    assert(unmatched(g, s, c, i + 1) > 0);
                    let k = lemma_first_unmatched(g, s, c, i + 1);
                    assert(clues[k] == Clue::Elsewhere(c));
                }
            }
        }
    }
}

/// Soundness of the filter: whatever was guessed, the secret stays among the
/// candidates when they are filtered on the clues that the guess earned.
pub proof fn lemma_secret_survives(candidates: Seq<WdlWord>, secret: WdlWord, guess: WdlWord)
    requires
        candidates.contains(secret),
    ensures
        filtered(candidates, feedback(secret@, guess@)).contains(secret),
{
    lemma_secret_is_consistent(secret, guess);
    lemma_filtered_members(candidates, feedback(secret@, guess@), secret);
}

/// A guess is consistent with the clues it earned only if it is the secret:
/// filtering on those clues removes every other guess from any list.
pub proof fn lemma_guess_consistent_iff_secret(secret: WdlWord, guess: WdlWord)
    ensures
        consistent(guess@, feedback(secret@, guess@)) <==> guess == secret,
{
    let clues = feedback(secret@, guess@);
    if guess == secret {
        lemma_secret_is_consistent(secret, guess);
    } else {
        assert(!(guess =~= secret));
        let i = choose|i: int| 0 <= i < 5 && guess[i] != secret[i];
        assert(!agrees_at(guess@, clues, i));
    }
}

fn word_has(word: &WdlWord, c: u8) -> (found: bool)
    ensures
        found == word@.contains(c),
{
    let found = word[0] == c || word[1] == c || word[2] == c || word[3] == c || word[4] == c;
    proof {
        if found {
            let j = if word[0] == c {
                0int
            } else if word[1] == c {
                1int
            } else if word[2] == c {
                2int
            } else if word[3] == c {
                3int
            } else {
                4int
            };
            assert(word@[j] == c);
        }
    }
    found
}

fn is_confirmed(clues: &CheckResult, c: u8) -> (found: bool)
    ensures
        found == confirmed(clues@, c),
{
    let mut found = false;
    let mut j: usize = 0;
    while j < 5
        invariant
            j <= 5,
            found == exists|k: int|
                0 <= k < j && (clues@[k] == Clue::Right(c) || clues@[k] == Clue::Elsewhere(c)),
        decreases 5 - j,
    {
        match clues[j] {
            Clue::Right(d) => {
                if d == c {
                    found = true;
                }
            },
            Clue::Elsewhere(d) => {
                if d == c {
                    found = true;
                }
            },
            Clue::Wrong(_) => {},
        }
        j += 1;
    }
    found
}

/// For each position, whether another entry confirms the letter of its clue.
/// This is looked up once for a clue vector, not once for each word.
fn confirmed_flags(clues: &CheckResult) -> (flags: [bool; 5])
    ensures
        marks_confirmed(flags, clues@),
{
    let mut flags: [bool; 5] = [false; 5];
    let mut i: usize = 0;
    while i < 5
        invariant
            i <= 5,
            forall|k: int|
                0 <= k < i ==> #[trigger] flags[k] == confirmed(clues@, clues[k].letter()),
        decreases 5 - i,
    {
        let c: u8 = match clues[i] {
            Clue::Right(d) => d,
            Clue::Elsewhere(d) => d,
            Clue::Wrong(d) => d,
        };
        flags[i] = is_confirmed(clues, c);
        i += 1;
    }
    flags
}

/// Whether `word` is consistent with `clues`.
fn fits(word: &WdlWord, clues: &CheckResult, flags: &[bool; 5]) -> (ok: bool)
    requires
        marks_confirmed(*flags, clues@),
    ensures
        ok == consistent(word@, clues@),
{
    let mut i: usize = 0;
    while i < 5
        invariant
            i <= 5,
            marks_confirmed(*flags, clues@),
            forall|k: int| 0 <= k < i ==> agrees_at(word@, clues@, k),
        decreases 5 - i,
    {
        let ok = match clues[i] {
            Clue::Right(c) => word[i] == c,
            Clue::Elsewhere(c) => word[i] != c && word_has(word, c),
            Clue::Wrong(c) => word[i] != c && (flags[i] || !word_has(word, c)),
        };
        assert(ok == agrees_at(word@, clues@, i as int));
        if !ok {
            return false;
        }
        i += 1;
    }
    true
}

/// Appends the words of `more` to `list`.
fn append_words(list: &mut Vec<WdlWord>, more: &[WdlWord])
    ensures
        final(list)@ == old(list)@ + more@,
{
    let ghost before = list@;
    let mut i: usize = 0;
    while i < more.len()
        invariant
            i <= more@.len(),
            list@ == before + more@.take(i as int),
        decreases more@.len() - i,
    {
        list.push(more[i]);
        i += 1;
    }
    assert(more@.take(more@.len() as int) == more@);
}

/// The player's two lists: the answers that are still possible, and the
/// further words that may be guessed.
#[derive(Debug, Clone)]
pub struct WordList {
    answers: Vec<WdlWord>,
    probes: Vec<WdlWord>,
}

/// What a `WordList` holds.
pub struct WordListView {
    /// The answers that are still possible.
    pub answers: Seq<WdlWord>,
    /// The further words that may be guessed.
    pub probes: Seq<WdlWord>,
}

impl View for WordList {
    type V = WordListView;

    closed spec fn view(&self) -> WordListView {
        WordListView { answers: self.answers@, probes: self.probes@ }
    }
}

impl WordList {
    /// The lists of the lexicon: every answer, and every other probe.
    pub fn new(alt: bool) -> (list: Self)
        ensures
            list@ == (WordListView { answers: answer_list(), probes: probe_list(alt) }),
    {
        WordList { answers: answer_words(), probes: probe_words(alt) }
    }

    /// The answers, in their order.
    pub fn answer_iter(&self) -> (words: Vec<WdlWord>)
        ensures
            words@ == self@.answers,
    {
        let mut words: Vec<WdlWord> = Vec::new();
        append_words(&mut words, self.answers.as_slice());
        words
    }

    /// The answers, followed by the probes.
    pub fn all_iter(&self) -> (words: Vec<WdlWord>)
        ensures
            words@ == self@.answers + self@.probes,
    {
        let mut words: Vec<WdlWord> = Vec::new();
        append_words(&mut words, self.answers.as_slice());
        append_words(&mut words, self.probes.as_slice());
        words
    }

    /// The answers that are still possible.
    pub fn answers(&self) -> (list: &Vec<WdlWord>)
        ensures
            list@ == self@.answers,
    {
        &self.answers
    }

    /// The further words that may be guessed.
    pub fn probes(&self) -> (list: &Vec<WdlWord>)
        ensures
            list@ == self@.probes,
    {
        &self.probes
    }

    /// Narrows `list` to the words that are consistent with `clues`, keeping
    /// their order.
    pub fn filter(list: &[WdlWord], clues: CheckResult) -> (kept: Vec<WdlWord>)
        ensures
            kept@ == filtered(list@, clues@),
    {
        let flags = confirmed_flags(&clues);
        let mut kept: Vec<WdlWord> = Vec::new();
        let mut i: usize = 0;
        while i < list.len()
            invariant
                i <= list@.len(),
                marks_confirmed(flags, clues@),
                kept@ == filtered(list@.take(i as int), clues@),
            decreases list@.len() - i,
        {
            proof {
                list@.lemma_take_succ_push(i as int);
                list@.take(i as int).lemma_filter_push(list@[i as int], keeps(clues@));
            }
            if fits(&list[i], &clues, &flags) {
                kept.push(list[i]);
            }
            i += 1;
        }
        proof {
            list@.lemma_take_len();
        }
        kept
    }

    /// How many words of `list` are consistent with `clues`: the length of
    /// what `filter` returns, found without building the list.
    pub fn count(list: &[WdlWord], clues: CheckResult) -> (n: usize)
        ensures
            n == filtered(list@, clues@).len(),
    {
        let flags = confirmed_flags(&clues);
        let mut n: usize = 0;
        let mut i: usize = 0;
        while i < list.len()
            invariant
                i <= list@.len(),
                marks_confirmed(flags, clues@),
                n == filtered(list@.take(i as int), clues@).len(),
                n <= i,
            decreases list@.len() - i,
        {
            proof {
                list@.lemma_take_succ_push(i as int);
                list@.take(i as int).lemma_filter_push(list@[i as int], keeps(clues@));
            }
            if fits(&list[i], &clues, &flags) {
                n += 1;
            }
            i += 1;
        }
        proof {
            list@.lemma_take_len();
        }
        n
    }

    /// Narrows both lists to the words that are consistent with `clues`.
    /// Neither list grows.
    pub fn filter_self(&mut self, clues: CheckResult)
        ensures
            final(self)@ == (WordListView {
                answers: filtered(old(self)@.answers, clues@),
                probes: filtered(old(self)@.probes, clues@),
            }),
            final(self)@.answers.len() <= old(self)@.answers.len(),
            final(self)@.probes.len() <= old(self)@.probes.len(),
    {
        proof {
            self.answers@.lemma_filter_len(keeps(clues@));
            self.probes@.lemma_filter_len(keeps(clues@));
        }
        self.answers = Self::filter(self.answers.as_slice(), clues);
        self.probes = Self::filter(self.probes.as_slice(), clues);
    }

    /// How many answers are still possible.
    pub fn len(&self) -> (n: usize)
        ensures
            n == self@.answers.len(),
    {
        self.answers.len()
    }
}

} // verus!
