//! The word judge: does a submitted word contain the kanji, and is it a word?

use vstd::prelude::*;

use crate::models::texts;

verus! {

/// A character with the Unicode `White_Space` property, which is what
/// `char::is_whitespace` tests.
pub open spec fn is_whitespace(c: char) -> bool {
    ('\u{9}' <= c && c <= '\u{d}') || c == ' ' || c == '\u{85}' || c == '\u{a0}'
        || c == '\u{1680}' || ('\u{2000}' <= c && c <= '\u{200a}') || c == '\u{2028}'
        || c == '\u{2029}' || c == '\u{202f}' || c == '\u{205f}' || c == '\u{3000}'
}

/// `s` without its leading whitespace.
pub open spec fn trim_start(s: Seq<char>) -> Seq<char>
    decreases s.len(),
{
    if s.len() > 0 && is_whitespace(s[0]) {
        trim_start(s.subrange(1, s.len() as int))
    } else {
        s
    }
}

/// `s` without its trailing whitespace.
pub open spec fn trim_end(s: Seq<char>) -> Seq<char>
    decreases s.len(),
{
    if s.len() > 0 && is_whitespace(s.last()) {
        trim_end(s.drop_last())
    } else {
        s
    }
}

/// `s` without its leading and trailing whitespace.
pub open spec fn trimmed(s: Seq<char>) -> Seq<char> {
    trim_end(trim_start(s))
}

/// A text that neither starts nor ends with whitespace is its own trim.
pub proof fn lemma_trimmed_unchanged(s: Seq<char>)
    requires
        s.len() > 0 ==> !is_whitespace(s[0]) && !is_whitespace(s.last()),
    ensures
        trimmed(s) == s,
{
}

/// `needle` occurs in `hay` as a contiguous run of characters.
pub open spec fn is_substring(needle: Seq<char>, hay: Seq<char>) -> bool {
    exists|i: int|
        0 <= i && i + needle.len() <= hay.len() && #[trigger] hay.subrange(i, i + needle.len())
            == needle
}

/// Relies on `str::trim`: the text with its leading and trailing characters
/// that `char::is_whitespace` accepts (Unicode `White_Space`) removed.
#[verifier::external_body]
fn trim_text(s: &str) -> (r: &str)
    ensures
        r@ == trimmed(s@),
{
    s.trim()
}

/// Relies on `str::contains` with a `&str` pattern: true exactly when the
/// pattern occurs in the text.
#[verifier::external_body]
fn contains_text(hay: &str, needle: &str) -> (r: bool)
    ensures
        r == is_substring(needle@, hay@),
{
    hay.contains(needle)
}

/// The four outcomes of judging a submitted word.
#[derive(Clone, Copy, Debug, PartialEq, Eq, Structural)]
pub enum Verdict {
    /// The word holds the kanji and is in the dictionary.
    GoodGuess,
    /// The word holds the kanji but is not in the dictionary.
    KanjiOnly,
    /// The word is in the dictionary but does not hold the kanji.
    WordOnly,
    /// Neither holds.
    Neither,
}

/// The verdict for the two checks.
pub open spec fn verdict_of(good_kanji: bool, good_word: bool) -> Verdict {
    if good_kanji && good_word {
        Verdict::GoodGuess
    } else if good_kanji {
        Verdict::KanjiOnly
    } else if good_word {
        Verdict::WordOnly
    } else {
        Verdict::Neither
    }
}

/// The message shown to the player for `v`.
pub open spec fn verdict_message(v: Verdict) -> Seq<char> {
    match v {
        Verdict::GoodGuess => "Good guess!"@,
        Verdict::KanjiOnly => "Bad Guess: Correct kanji, but not a valid word."@,
        Verdict::WordOnly => "Bad Guess: Valid word, but does not contain the correct kanji."@,
        Verdict::Neither => "Bad guess: Incorrect kanji and not a valid word."@,
    }
}

impl Verdict {
    /// The message shown to the player.
    pub fn message(&self) -> (r: String)
        ensures
            r@ == verdict_message(*self),
    {
        match self {
            Verdict::GoodGuess => "Good guess!".to_string(),
            Verdict::KanjiOnly => "Bad Guess: Correct kanji, but not a valid word.".to_string(),
            Verdict::WordOnly => "Bad Guess: Valid word, but does not contain the correct kanji.".to_string(),
            Verdict::Neither => "Bad guess: Incorrect kanji and not a valid word.".to_string(),
        }
    }
}

/// Whether the dictionary holds exactly this text.
pub fn in_dictionary(word: &str, dictionary: &Vec<String>) -> (r: bool)
    ensures
        r == texts(dictionary@).contains(word@),
{
    let w = word.to_string();
    let mut i: usize = 0;
    while i < dictionary.len()
        invariant
            i <= dictionary.len(),
            w@ == word@,
            forall|j: int| 0 <= j < i ==> dictionary@[j]@ != word@,
        decreases dictionary.len() - i,
    {
        if dictionary[i] == w {
            proof {
                assert(texts(dictionary@)[i as int] == word@);
            }
            return true;
        }
        i = i + 1;
    }
    proof {
        if texts(dictionary@).contains(word@) {
            let k = choose|k: int| 0 <= k < texts(dictionary@).len() && texts(dictionary@)[k] == word@;
            assert(dictionary@[k]@ == word@);
        }
    }
    false
}

/// Judges a word and kanji that are already trimmed.
pub fn judge_trimmed(word: &str, kanji: &str, dictionary: &Vec<String>) -> (r: Verdict)
    ensures
        r == verdict_of(is_substring(kanji@, word@), texts(dictionary@).contains(word@)),
{
    let good_kanji = contains_text(word, kanji);
    let good_word = in_dictionary(word, dictionary);
    if good_kanji && good_word {
        Verdict::GoodGuess
    } else if good_kanji {
        Verdict::KanjiOnly
    } else if good_word {
        Verdict::WordOnly
    } else {
        Verdict::Neither
    }
}

/// Judges a submitted word against the target kanji: both are trimmed, the
/// kanji must occur in the word and the word must be in the dictionary.
pub fn judge(word: &str, kanji: &str, dictionary: &Vec<String>) -> (r: Verdict)
    ensures
        r == verdict_of(
            is_substring(trimmed(kanji@), trimmed(word@)),
            texts(dictionary@).contains(trimmed(word@)),
        ),
{
    let w = trim_text(word);
    let k = trim_text(kanji);
    judge_trimmed(w, k, dictionary)
}

} // verus!
