use crate::lexicon::{ALT_PROBES, ANSWERS, PROBES};
use vstd::prelude::*;
use vstd::string::{StringExecFns, StringSliceAdditionalSpecFns};

verus! {

/// A word of the game: five letters, one byte each.
pub type WdlWord = [u8; 5];

/// The opening guess of a solver that was given no other: `tares`.
pub const DEFAULT_START_WORD: WdlWord = [116u8, 97u8, 114u8, 101u8, 115u8];

/// The error text for a word that is not five bytes long.
pub const WRONG_LENGTH: &'static str = "Word must have 5 letters";

/// The word that starts at byte `5 * i` of `text`.
pub open spec fn word_at(text: Seq<u8>, i: int) -> WdlWord {
    [text[5 * i], text[5 * i + 1], text[5 * i + 2], text[5 * i + 3], text[5 * i + 4]]
}

/// The words that `text` holds end to end. Bytes after the last whole word
/// are not part of any word.
pub open spec fn words_in(text: Seq<u8>) -> Seq<WdlWord> {
    Seq::new((text.len() / 5) as nat, |i: int| word_at(text, i))
}

/// The words that may be the secret.
pub open spec fn answer_list() -> Seq<WdlWord> {
    words_in(ANSWERS.spec_bytes())
}

/// The words that may be guessed but are never the secret.
pub open spec fn probe_list(alt_words: bool) -> Seq<WdlWord> {
    if alt_words {
        words_in(ALT_PROBES.spec_bytes())
    } else {
        words_in(PROBES.spec_bytes())
    }
}

/// Every word that may be guessed: the answers first, then the other probes.
pub open spec fn all_list(alt_words: bool) -> Seq<WdlWord> {
    answer_list() + probe_list(alt_words)
}

/// The list that a word is looked up in.
pub open spec fn lookup_list(answers_only: bool, alt_words: bool) -> Seq<WdlWord> {
    if answers_only {
        answer_list()
    } else {
        all_list(alt_words)
    }
}

/// Whether some word of `list` is spelled by `bytes`.
pub open spec fn spelled_in(list: Seq<WdlWord>, bytes: Seq<u8>) -> bool {
    exists|i: int| 0 <= i < list.len() && (#[trigger] list[i])@ == bytes
}

/// The error text for a word of five bytes that the list does not hold.
pub open spec fn not_listed(word: Seq<char>) -> Seq<char> {
    "The word '"@ + word + "' is not in the list of valid words"@
}

/// What the error of a failed lookup of `word` in `list` says: the word has
/// the wrong length, or it has the right length and the list does not hold it.
pub open spec fn lookup_error(word: &str, list: Seq<WdlWord>, msg: Seq<char>) -> bool {
    if word.spec_bytes().len() != 5 {
        msg == WRONG_LENGTH@
    } else {
        !spelled_in(list, word.spec_bytes()) && msg == not_listed(word@)
    }
}

/// Every answer may be guessed.
pub proof fn lemma_answers_may_be_guessed(alt_words: bool, word: WdlWord)
    requires
        answer_list().contains(word),
    ensures
        all_list(alt_words).contains(word),
{
    let i = choose|i: int| 0 <= i < answer_list().len() && answer_list()[i] == word;
    assert(all_list(alt_words)[i] == word);
}

/// Appends the words that `text` holds to `list`.
fn unpack(text: &str, list: &mut Vec<WdlWord>)
    ensures
        final(list)@ == old(list)@ + words_in(text.spec_bytes()),
{
    let bytes = text.as_bytes();
    let n: usize = bytes.len() / 5;
    let ghost before = list@;
    let mut i: usize = 0;
    while i < n
        invariant
            n == bytes@.len() / 5,
            bytes@.len() <= usize::MAX,
            i <= n,
            list@.len() == before.len() + i,
            forall|k: int| 0 <= k < before.len() ==> list@[k] == before[k],
            forall|k: int| 0 <= k < i ==> list@[before.len() + k] == word_at(bytes@, k),
        decreases n - i,
    {
        let word: WdlWord = [
            bytes[5 * i],
            bytes[5 * i + 1],
            bytes[5 * i + 2],
            bytes[5 * i + 3],
            bytes[5 * i + 4],
        ];
        assert(word =~= word_at(bytes@, i as int));
        list.push(word);
        i += 1;
    }
    assert(list@ =~= before + words_in(bytes@));
}

/// The words that may be the secret, in the order of the lexicon.
pub fn answer_words() -> (list: Vec<WdlWord>)
    ensures
        list@ == answer_list(),
{
    let mut list: Vec<WdlWord> = Vec::new();
    unpack(ANSWERS, &mut list);
    list
}

/// The words that may be guessed but are never the secret: the long list,
/// or the shorter one if `alt_words` is set.
pub fn probe_words(alt_words: bool) -> (list: Vec<WdlWord>)
    ensures
        list@ == probe_list(alt_words),
{
    let mut list: Vec<WdlWord> = Vec::new();
    if alt_words {
        unpack(ALT_PROBES, &mut list);
    } else {
        unpack(PROBES, &mut list);
    }
    list
}

/// Every word that may be guessed: the answers first, then the other probes.
pub fn all_words(alt_words: bool) -> (list: Vec<WdlWord>)
    ensures
        list@ == all_list(alt_words),
{
    let mut list: Vec<WdlWord> = Vec::new();
    unpack(ANSWERS, &mut list);
    if alt_words {
        unpack(ALT_PROBES, &mut list);
    } else {
        unpack(PROBES, &mut list);
    }
    list
}

/// Whether two words are the same.
pub fn same_word(a: &WdlWord, b: &WdlWord) -> (same: bool)
    ensures
        same == (*a == *b),
{
    let same = a[0] == b[0] && a[1] == b[1] && a[2] == b[2] && a[3] == b[3] && a[4] == b[4];
    assert(same == (*a =~= *b));
    same
}

/// The index of the first occurrence of `word` in `list`, if there is one.
pub fn position(list: &[WdlWord], word: &WdlWord) -> (found: Option<usize>)
    ensures
        match found {
            Some(i) => {
                &&& i < list@.len()
                &&& list@[i as int] == *word
                &&& !list@.take(i as int).contains(*word)
            },
            None => !list@.contains(*word),
        },
{
    let mut i: usize = 0;
    while i < list.len()
        invariant
            i <= list@.len(),
            forall|k: int| 0 <= k < i ==> list@[k] != *word,
        decreases list@.len() - i,
    {
        if same_word(&list[i], word) {
            return Some(i);
        }
        i += 1;
    }
    None
}

/// Checks that `word` is a word of the lexicon and returns it as a `WdlWord`.
///
/// The word is looked up among the answers if `answers_only` is set, and
/// among all the words that may be guessed otherwise. The length is counted
/// in bytes, and the letters are compared as they are: the lexicon is in
/// lower case, and so must the word be.
pub fn to_static_word(word: &str, answers_only: bool, alt_words: bool) -> (res: Result<
    WdlWord,
    String,
>)
    ensures
        match res {
            Ok(w) => {
                &&& w@ == word.spec_bytes()
                &&& lookup_list(answers_only, alt_words).contains(w)
            },
            Err(msg) => lookup_error(word, lookup_list(answers_only, alt_words), msg@),
        },
{
    let bytes = word.as_bytes();
    if bytes.len() != 5 {
        return Err(String::from_str(WRONG_LENGTH));
    }
    let list = if answers_only {
        answer_words()
    } else {
        all_words(alt_words)
    };
    let temp: WdlWord = [bytes[0], bytes[1], bytes[2], bytes[3], bytes[4]];
    assert(temp@ =~= bytes@);
    match position(list.as_slice(), &temp) {
        Some(i) => Ok(list[i]),
        None => {
            proof {
                if spelled_in(list@, bytes@) {
                    let i = choose|i: int|
                        0 <= i < list@.len() && (#[trigger] list@[i])@ == bytes@;
                    assert(list@[i] =~= temp);
                }
            }
            let mut msg = String::from_str("The word '");
            msg.append(word);
            msg.append("' is not in the list of valid words");
            Err(msg)
        },
    }
}

} // verus!
