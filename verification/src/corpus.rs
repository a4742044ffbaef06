//! The word corpus: the fixed set of valid guess words, and the built-in
//! grading answer key.
//!
//! The built-in corpus is a fixed list of common five-letter words, pinned
//! to the specification-level data in `crate::words`; a deployment with
//! its own curated word list can instead build a `Corpus` from any
//! candidate words through `Corpus::new`.

use vstd::prelude::*;

use crate::common::{str_eq, WORD_LENGTH};
use crate::words;

verus! {

/// A fixed set of valid words, each exactly `WORD_LENGTH` characters long.
pub struct Corpus {
    words: Vec<String>,
}

impl View for Corpus {
    type V = Seq<Seq<char>>;

    closed spec fn view(&self) -> Seq<Seq<char>> {
        self.words.deep_view()
    }
}

impl Corpus {
    /// Every corpus word has exactly `WORD_LENGTH` characters.
    pub open spec fn wf(self) -> bool {
        forall|i: int| 0 <= i < self@.len() ==> (#[trigger] self@[i]).len() == WORD_LENGTH
    }

    /// Whether `w` is a member word.
    pub open spec fn spec_contains(self, w: Seq<char>) -> bool {
        self@.contains(w)
    }

    /// Builds a corpus from candidate words, keeping exactly the candidates
    /// of the right length.
    pub fn new(candidates: Vec<String>) -> (c: Corpus)
        ensures
            c.wf(),
            forall|i: int|
                0 <= i < candidates.deep_view().len() && (#[trigger] candidates.deep_view()[i]).len()
                    == WORD_LENGTH ==> c.spec_contains(candidates.deep_view()[i]),
            forall|w: Seq<char>|
                #[trigger] c.spec_contains(w) ==> candidates.deep_view().contains(w) && w.len()
                    == WORD_LENGTH,
    {
        let mut kept: Vec<String> = Vec::new();
        let mut i: usize = 0;
        while i < candidates.len()
            invariant
                i <= candidates@.len(),
                forall|j: int|
                    0 <= j < kept.deep_view().len() ==> (#[trigger] kept.deep_view()[j]).len()
                        == WORD_LENGTH,
                forall|j: int|
                    0 <= j < i && (#[trigger] candidates.deep_view()[j]).len() == WORD_LENGTH
                        ==> kept.deep_view().contains(candidates.deep_view()[j]),
                forall|w: Seq<char>|
                    #[trigger] kept.deep_view().contains(w) ==> candidates.deep_view().contains(w)
                        && w.len() == WORD_LENGTH,
            decreases candidates@.len() - i,
        {
            let w = candidates[i].clone();
            let ghost prev = kept.deep_view();
            if w.as_str().unicode_len() == WORD_LENGTH {
                kept.push(w);
                proof {
                    assert(kept.deep_view() =~= prev.push(candidates.deep_view()[i as int]));
                    assert forall|x: Seq<char>| #[trigger]
                        kept.deep_view().contains(x) implies candidates.deep_view().contains(x)
                        && x.len() == WORD_LENGTH by {
                        let j = choose|j: int|
                            0 <= j < kept.deep_view().len() && kept.deep_view()[j] == x;
                        if j < prev.len() {
                            assert(prev.contains(x));
                        } else {
                            assert(candidates.deep_view()[i as int] == x);
                        }
                    }
                    assert forall|j: int|
                        0 <= j < i + 1 && (#[trigger] candidates.deep_view()[j]).len()
                            == WORD_LENGTH implies kept.deep_view().contains(
                        candidates.deep_view()[j],
                    ) by {
                        if j < i {
                            assert(prev.contains(candidates.deep_view()[j]));
                            let t = choose|t: int|
                                0 <= t < prev.len() && prev[t] == candidates.deep_view()[j];
                            assert(kept.deep_view()[t] == candidates.deep_view()[j]);
                        } else {
                            assert(kept.deep_view()[prev.len() as int]
                                == candidates.deep_view()[j]);
                        }
                    }
                }
            } else {
                proof {
                    assert(candidates.deep_view()[i as int].len() != WORD_LENGTH);
                }
            }
            i += 1;
        }
        Corpus { words: kept }
    }

    /// The number of corpus words.
    pub fn len(&self) -> (n: usize)
        ensures
            n == self@.len(),
    {
        self.words.len()
    }

    /// Whether the corpus has no words at all.
    pub fn is_empty(&self) -> (r: bool)
        ensures
            r == (self@.len() == 0),
    {
        self.words.len() == 0
    }

    /// Read-only access to the member words.
    pub fn words(&self) -> (ws: &Vec<String>)
        ensures
            ws.deep_view() == self@,
    {
        &self.words
    }

    /// Membership test.
    pub fn contains_word(&self, word: &str) -> (r: bool)
        ensures
            r == self.spec_contains(word@),
    {
        let mut i: usize = 0;
        while i < self.words.len()
            invariant
                i <= self@.len(),
                self@.len() == self.words@.len(),
                forall|j: int| 0 <= j < i ==> self@[j] != word@,
            decreases self@.len() - i,
        {
            if str_eq(self.words[i].as_str(), word) {
                proof {
                    assert(self@[i as int] == word@);
                }
                return true;
            }
            i += 1;
        }
        proof {
            assert(!self@.contains(word@));
        }
        false
    }
}

/// The built-in corpus of valid five-letter words: exactly the fixed word
/// list named by `words::builtin_words_view`, so repeated calls agree.
pub fn get_corpus() -> (c: Corpus)
    ensures
        c@ == words::builtin_words_view(),
        c.wf(),
        c@.len() > 1000,
{
    let raw = words::raw_word_list();
    let mut owned: Vec<String> = Vec::new();
    let mut i: usize = 0;
    while i < raw.len()
        invariant
            i <= raw@.len(),
            raw.deep_view().len() == raw@.len(),
            owned.deep_view() == raw.deep_view().subrange(0, i as int),
        decreases raw@.len() - i,
    {
        let ghost prev = owned.deep_view();
        owned.push(String::from_str(raw[i]));
        proof {
            assert(raw.deep_view()[i as int] == raw@[i as int]@);
            assert(owned.deep_view() =~= prev.push(raw@[i as int]@));
            assert(owned.deep_view() =~= raw.deep_view().subrange(0, i + 1));
        }
        i += 1;
    }
    proof {
        assert(raw.deep_view().subrange(0, raw@.len() as int) =~= raw.deep_view());
    }
    Corpus { words: owned }
}

/// The built-in grading answer key: exactly the fixed target list named by
/// `words::builtin_answer_key_view`, so repeated calls agree.  Every entry
/// has exactly `WORD_LENGTH` characters, and the key is small, so a run
/// over it cannot overflow any guess count.
pub fn get_grading_answer_key() -> (key: Vec<String>)
    ensures
        key.deep_view() == words::builtin_answer_key_view(),
        forall|i: int|
            0 <= i < key.deep_view().len() ==> (#[trigger] key.deep_view()[i]).len()
                == WORD_LENGTH,
        key.deep_view().len() <= 1000,
{
    let raw = words::raw_answer_key_list();
    let mut key: Vec<String> = Vec::new();
    let mut i: usize = 0;
    while i < raw.len()
        invariant
            i <= raw@.len(),
            raw.deep_view().len() == raw@.len(),
            key.deep_view() == raw.deep_view().subrange(0, i as int),
        decreases raw@.len() - i,
    {
        let ghost prev = key.deep_view();
        key.push(String::from_str(raw[i]));
        proof {
            assert(raw.deep_view()[i as int] == raw@[i as int]@);
            assert(key.deep_view() =~= prev.push(raw@[i as int]@));
            assert(key.deep_view() =~= raw.deep_view().subrange(0, i + 1));
        }
        i += 1;
    }
    proof {
        assert(raw.deep_view().subrange(0, raw@.len() as int) =~= raw.deep_view());
    }
    key
}

/// Whether `word` is a member of the built-in corpus: exactly membership in
/// the fixed word list named by `words::builtin_words_view`.
pub fn is_valid_word(word: &str) -> (r: bool)
    ensures
        r == words::builtin_words_view().contains(word@),
        r ==> word@.len() == WORD_LENGTH,
{
    let corpus = get_corpus();
    let r = corpus.contains_word(word);
    proof {
        if r {
            let i = choose|i: int| 0 <= i < corpus@.len() && corpus@[i] == word@;
            assert(corpus@[i].len() == WORD_LENGTH);
        }
    }
    r
}

} // verus!
