//! Deployment constants and the sentinel guess.

use vstd::prelude::*;

verus! {

/// Every corpus word, guess and answer has exactly this many letters.
pub const WORD_LENGTH: usize = 5;

/// Upper bound on the number of rounds in one evaluation run.
pub const MAX_GUESSES: usize = 20;

/// The view of the sentinel guess submitted for games that are already
/// solved.  It is longer than `WORD_LENGTH`, so it can never collide with a
/// corpus word.
pub open spec fn sentinel_view() -> Seq<char> {
    "imagine guessing more than 5 letters"@
}

/// The sentinel guess as an owned string.
pub fn sentinel_guess() -> (s: String)
    ensures
        s@ == sentinel_view(),
{
    String::from_str("imagine guessing more than 5 letters")
}

/// The sentinel is visibly longer than a word, so no five-letter word can be
/// mistaken for it.
pub proof fn lemma_sentinel_is_no_word()
    ensures
        sentinel_view().len() != WORD_LENGTH,
{
    reveal_strlit("imagine guessing more than 5 letters");
}

/// Relies on std's String::push: appending one character to the end of the
/// string, which vstd leaves unspecified.
pub assume_specification[ String::push ](s: &mut String, ch: char)
    ensures
        final(s)@ == old(s)@.push(ch),
;

/// Character-for-character string comparison.
pub fn str_eq(a: &str, b: &str) -> (r: bool)
    ensures
        r == (a@ == b@),
{
    let la = a.unicode_len();
    let lb = b.unicode_len();
    if la != lb {
        proof {
            if a@ == b@ {
                assert(a@.len() == b@.len());
            }
        }
        return false;
    }
    let mut i: usize = 0;
    while i < la
        invariant
            i <= la,
            la == a@.len(),
            la == b@.len(),
            forall|j: int| 0 <= j < i ==> a@[j] == b@[j],
        decreases la - i,
    {
        if a.get_char(i) != b.get_char(i) {
            proof {
                if a@ == b@ {
                    assert(a@[i as int] == b@[i as int]);
                }
            }
            return false;
        }
        i += 1;
    }
    proof {
        assert(a@ =~= b@);
    }
    true
}

} // verus!
