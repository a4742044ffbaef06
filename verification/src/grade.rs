//! The grading engine: duplicate-letter-aware positional feedback.
//!
//! Grading runs in two passes.  Pass 1 claims every exact match as Correct
//! and gathers the remaining answer characters into an unseen pool.  Pass 2
//! walks the guess left to right: a non-matching letter still available in
//! the pool becomes Present and consumes one pool occurrence; everything
//! else is Absent.  Pass 1 completes before pass 2 begins, so a Present
//! marking can never claim a pool slot that an exact match accounts for.

use vstd::multiset::Multiset;
use vstd::prelude::*;

use crate::common::WORD_LENGTH;
use crate::error::WordleError;
use crate::hint::{HintType, WordleHint};

verus! {

broadcast use vstd::seq_lib::group_to_multiset_ensures, vstd::multiset::group_multiset_axioms;

/// The multiset of answer characters from position `i` on that pass 1 does
/// not account for by an exact match: the unseen pool.
pub open spec fn unseen_pool_from(guess: Seq<char>, answer: Seq<char>, i: int) -> Multiset<char>
    decreases answer.len() - i,
{
    if i < 0 || i >= answer.len() {
        Multiset::empty()
    } else if guess.len() == answer.len() && guess[i] == answer[i] {
        unseen_pool_from(guess, answer, i + 1)
    } else {
        unseen_pool_from(guess, answer, i + 1).insert(answer[i])
    }
}

/// Pass 2 from position `i` on, with `pool` occurrences still unclaimed: an
/// exact match is Correct, a letter still in the pool is Present and removes
/// one occurrence, anything else is Absent.
pub open spec fn spec_grade_from(
    guess: Seq<char>,
    answer: Seq<char>,
    i: int,
    pool: Multiset<char>,
) -> Seq<HintType>
    decreases guess.len() - i,
{
    if i < 0 || i >= guess.len() || guess.len() != answer.len() {
        Seq::empty()
    } else if guess[i] == answer[i] {
        seq![HintType::Correct] + spec_grade_from(guess, answer, i + 1, pool)
    } else if pool.count(guess[i]) > 0 {
        seq![HintType::Present] + spec_grade_from(guess, answer, i + 1, pool.remove(guess[i]))
    } else {
        seq![HintType::Absent] + spec_grade_from(guess, answer, i + 1, pool)
    }
}

/// The Wordle feedback for `guess` against `answer`.
pub open spec fn spec_grade(guess: Seq<char>, answer: Seq<char>) -> Seq<HintType> {
    spec_grade_from(guess, answer, 0, unseen_pool_from(guess, answer, 0))
}

/// The result relation of the grading engine: `h` pairs the guess with
/// exactly the feedback of `spec_grade`.
pub open spec fn grade_post(guess: Seq<char>, answer: Seq<char>, h: WordleHint) -> bool {
    h.word@ == guess && h.hints@ == spec_grade(guess, answer)
}

/// Number of positions in `hints` marked with `t`.
pub open spec fn hint_count(hints: Seq<HintType>, t: HintType) -> int
    decreases hints.len(),
{
    if hints.len() == 0 {
        0
    } else {
        hint_count(hints.drop_last(), t) + (if hints.last() == t {
            1int
        } else {
            0int
        })
    }
}

/// Number of positions where guess and answer agree exactly.
pub open spec fn match_count(guess: Seq<char>, answer: Seq<char>) -> int
    decreases guess.len(),
{
    if guess.len() == 0 || guess.len() != answer.len() {
        0
    } else {
        match_count(guess.drop_last(), answer.drop_last()) + (if guess.last() == answer.last() {
            1int
        } else {
            0int
        })
    }
}

/// The guess letters at the positions marked Correct or Present, where
/// `hints` covers the guess positions from `k` on.
pub open spec fn claimed_letters_from(
    guess: Seq<char>,
    hints: Seq<HintType>,
    k: int,
) -> Multiset<char>
    decreases hints.len(),
{
    if hints.len() == 0 || k < 0 || k + hints.len() != guess.len() {
        Multiset::empty()
    } else if hints[0] == HintType::Absent {
        claimed_letters_from(guess, hints.drop_first(), k + 1)
    } else {
        claimed_letters_from(guess, hints.drop_first(), k + 1).insert(guess[k])
    }
}

/// The guess letters at the positions that `hints` marks Correct or Present.
pub open spec fn claimed_letters(guess: Seq<char>, hints: Seq<HintType>) -> Multiset<char> {
    claimed_letters_from(guess, hints, 0)
}

/// The answer characters from position `k` on that pass 1 accounts for by an
/// exact match.
spec fn matched_from(guess: Seq<char>, answer: Seq<char>, k: int) -> Multiset<char>
    decreases answer.len() - k,
{
    if k < 0 || k >= answer.len() || guess.len() != answer.len() {
        Multiset::empty()
    } else if guess[k] == answer[k] {
        matched_from(guess, answer, k + 1).insert(answer[k])
    } else {
        matched_from(guess, answer, k + 1)
    }
}

proof fn lemma_grade_from_pointwise(guess: Seq<char>, answer: Seq<char>, k: int, pool: Multiset<
    char,
>)
    requires
        guess.len() == answer.len(),
        0 <= k <= guess.len(),
    ensures
        spec_grade_from(guess, answer, k, pool).len() == guess.len() - k,
        forall|t: int|
            0 <= t < guess.len() - k ==> (spec_grade_from(guess, answer, k, pool)[t]
                == HintType::Correct <==> guess[k + t] == answer[k + t]),
    decreases guess.len() - k,
{
    if k < guess.len() {
        if guess[k] == answer[k] {
            lemma_grade_from_pointwise(guess, answer, k + 1, pool);
        } else if pool.count(guess[k]) > 0 {
            lemma_grade_from_pointwise(guess, answer, k + 1, pool.remove(guess[k]));
        } else {
            lemma_grade_from_pointwise(guess, answer, k + 1, pool);
        }
    }
}

proof fn lemma_pointwise_counts(hints: Seq<HintType>, guess: Seq<char>, answer: Seq<char>)
    requires
        guess.len() == answer.len(),
        hints.len() == guess.len(),
        forall|i: int|
            0 <= i < hints.len() ==> (hints[i] == HintType::Correct <==> guess[i] == answer[i]),
    ensures
        hint_count(hints, HintType::Correct) == match_count(guess, answer),
    decreases hints.len(),
{
    if hints.len() > 0 {
        lemma_pointwise_counts(hints.drop_last(), guess.drop_last(), answer.drop_last());
    }
}

proof fn lemma_pool_partition(guess: Seq<char>, answer: Seq<char>, k: int)
    requires
        guess.len() == answer.len(),
        0 <= k <= answer.len(),
    ensures
        matched_from(guess, answer, k).add(unseen_pool_from(guess, answer, k)) =~= answer.skip(
            k,
        ).to_multiset(),
    decreases answer.len() - k,
{
    if k == answer.len() {
        assert(answer.skip(k).len() == 0);
        assert(answer.skip(k).to_multiset().len() == 0);
        assert(matched_from(guess, answer, k).add(unseen_pool_from(guess, answer, k))
            =~= answer.skip(k).to_multiset()) by {
            vstd::multiset::lemma_multiset_empty_len(answer.skip(k).to_multiset());
        }
    } else {
        lemma_pool_partition(guess, answer, k + 1);
        let suffix = answer.skip(k);
        assert(suffix[0] == answer[k]);
        assert(suffix.remove(0) =~= answer.skip(k + 1));
        assert(suffix.remove(0).to_multiset() == suffix.to_multiset().remove(suffix[0]));
        assert(suffix.contains(answer[k]));
        assert(suffix.to_multiset().count(answer[k]) > 0);
        assert(suffix.to_multiset() =~= answer.skip(k + 1).to_multiset().insert(answer[k]));
    }
}

proof fn lemma_claimed_subset(guess: Seq<char>, answer: Seq<char>, k: int, pool: Multiset<char>)
    requires
        guess.len() == answer.len(),
        0 <= k <= guess.len(),
    ensures
        claimed_letters_from(guess, spec_grade_from(guess, answer, k, pool), k).subset_of(
            matched_from(guess, answer, k).add(pool),
        ),
    decreases guess.len() - k,
{
    lemma_grade_from_pointwise(guess, answer, k, pool);
    if k == guess.len() {
    } else {
        let sg = spec_grade_from(guess, answer, k, pool);
        if guess[k] == answer[k] {
            lemma_claimed_subset(guess, answer, k + 1, pool);
            assert(sg.drop_first() =~= spec_grade_from(guess, answer, k + 1, pool));
            let tail = claimed_letters_from(guess, sg.drop_first(), k + 1);
            let bound = matched_from(guess, answer, k + 1).add(pool);
            assert(claimed_letters_from(guess, sg, k) =~= tail.insert(guess[k]));
            assert(tail.insert(guess[k]).subset_of(bound.insert(guess[k])));
            assert(bound.insert(guess[k]) =~= matched_from(guess, answer, k).add(pool));
        } else if pool.count(guess[k]) > 0 {
            lemma_claimed_subset(guess, answer, k + 1, pool.remove(guess[k]));
            assert(sg.drop_first() =~= spec_grade_from(guess, answer, k + 1, pool.remove(
                guess[k],
            )));
            let tail = claimed_letters_from(guess, sg.drop_first(), k + 1);
            let bound = matched_from(guess, answer, k + 1).add(pool.remove(guess[k]));
            assert(claimed_letters_from(guess, sg, k) =~= tail.insert(guess[k]));
            assert(tail.insert(guess[k]).subset_of(bound.insert(guess[k])));
            assert(bound.insert(guess[k]) =~= matched_from(guess, answer, k).add(pool));
        } else {
            lemma_claimed_subset(guess, answer, k + 1, pool);
            assert(sg.drop_first() =~= spec_grade_from(guess, answer, k + 1, pool));
            assert(claimed_letters_from(guess, sg, k) =~= claimed_letters_from(
                guess,
                sg.drop_first(),
                k + 1,
            ));
        }
    }
}

/// The feedback has one code per position for equal-length inputs, and is
/// empty otherwise.
pub proof fn lemma_grade_length(guess: Seq<char>, answer: Seq<char>)
    ensures
        spec_grade(guess, answer).len() == (if guess.len() == answer.len() {
            guess.len()
        } else {
            0
        }),
{
    if guess.len() == answer.len() {
        lemma_grade_from_pointwise(guess, answer, 0, unseen_pool_from(guess, answer, 0));
    }
}

/// The letter-accounting law of the grading engine.
///
/// For any equal-length guess and answer: a position is marked Correct
/// exactly when the two letters agree there, so the number of Correct
/// positions equals the number of exact-position matches; and the guess
/// letters at the positions marked Correct or Present form a sub-multiset
/// of the answer's letters.
pub proof fn lemma_grade_letter_accounting(guess: Seq<char>, answer: Seq<char>)
    requires
        guess.len() == answer.len(),
    ensures
        spec_grade(guess, answer).len() == guess.len(),
        forall|i: int|
            0 <= i < guess.len() ==> ((#[trigger] spec_grade(guess, answer)[i])
                == HintType::Correct <==> guess[i] == answer[i]),
        hint_count(spec_grade(guess, answer), HintType::Correct) == match_count(guess, answer),
        claimed_letters(guess, spec_grade(guess, answer)).subset_of(answer.to_multiset()),
{
    let pool = unseen_pool_from(guess, answer, 0);
    lemma_grade_from_pointwise(guess, answer, 0, pool);
    assert(forall|i: int|
        0 <= i < guess.len() ==> (spec_grade(guess, answer)[i] == HintType::Correct <==> guess[i]
            == answer[i]));
    lemma_pointwise_counts(spec_grade(guess, answer), guess, answer);
    lemma_claimed_subset(guess, answer, 0, pool);
    lemma_pool_partition(guess, answer, 0);
    assert(answer.skip(0) =~= answer);
}

/// Grading is referentially transparent: any two results that satisfy the
/// grading contract for the same guess and answer carry the same word and
/// the same hint codes.
pub proof fn lemma_grade_deterministic(
    guess: Seq<char>,
    answer: Seq<char>,
    h1: WordleHint,
    h2: WordleHint,
)
    requires
        grade_post(guess, answer, h1),
        grade_post(guess, answer, h2),
    ensures
        h1.word@ == h2.word@,
        h1.hints@ == h2.hints@,
{
}

/// Finds one position of `c` in `pool`.
fn find_char(pool: &Vec<char>, c: char) -> (r: Option<usize>)
    ensures
        match r {
            Some(p) => p < pool@.len() && pool@[p as int] == c,
            None => !pool@.contains(c),
        },
{
    let mut i: usize = 0;
    while i < pool.len()
        invariant
            i <= pool@.len(),
            forall|j: int| 0 <= j < i ==> pool@[j] != c,
        decreases pool@.len() - i,
    {
        if pool[i] == c {
            return Some(i);
        }
        i += 1;
    }
    None
}

/// Grades a guess against an answer, returning a `WordleHint`.
///
/// Both inputs must have exactly `WORD_LENGTH` characters; the checked entry
/// point for unvalidated callers is `grade_guess_py`.
pub fn grade_guess(guess: &str, answer: &str) -> (h: WordleHint)
    requires
        guess@.len() == WORD_LENGTH,
        answer@.len() == WORD_LENGTH,
    ensures
        grade_post(guess@, answer@, h),
        h.wf(),
{
    let mut hint_arr: Vec<HintType> = Vec::new();
    let mut pool: Vec<char> = Vec::new();

    // Pass 1: exact matches claim their positions; every other answer
    // character enters the unseen pool.
    let mut i: usize = 0;
    proof {
        assert(pool@.to_multiset().add(unseen_pool_from(guess@, answer@, 0)) =~= unseen_pool_from(
            guess@,
            answer@,
            0,
        ));
    }
    while i < WORD_LENGTH
        invariant
            i <= WORD_LENGTH,
            guess@.len() == WORD_LENGTH,
            answer@.len() == WORD_LENGTH,
            hint_arr@.len() == i,
            forall|j: int|
                0 <= j < i ==> hint_arr@[j] == (if guess@[j] == answer@[j] {
                    HintType::Correct
                } else {
                    HintType::Absent
                }),
            pool@.to_multiset().add(unseen_pool_from(guess@, answer@, i as int))
                == unseen_pool_from(guess@, answer@, 0),
        decreases WORD_LENGTH - i,
    {
        let gc = guess.get_char(i);
        let ac = answer.get_char(i);
        let ghost old_pool: Multiset<char> = pool@.to_multiset();
        if gc == ac {
            hint_arr.push(HintType::Correct);
        } else {
            hint_arr.push(HintType::Absent);
            pool.push(ac);
            proof {
                assert(unseen_pool_from(guess@, answer@, i as int) == unseen_pool_from(
                    guess@,
                    answer@,
                    i + 1,
                ).insert(ac));
                assert(old_pool.insert(ac).add(unseen_pool_from(guess@, answer@, i + 1))
                    =~= old_pool.add(unseen_pool_from(guess@, answer@, i + 1).insert(ac)));
            }
        }
        i += 1;
    }
    proof {
        assert(pool@.to_multiset().add(Multiset::<char>::empty()) =~= pool@.to_multiset());
        assert(pool@.to_multiset() == unseen_pool_from(guess@, answer@, 0));
    }

    // Pass 2: non-matching letters still available in the pool become
    // Present and consume one occurrence; the rest stay Absent.
    let mut k: usize = 0;
    while k < WORD_LENGTH
        invariant
            k <= WORD_LENGTH,
            guess@.len() == WORD_LENGTH,
            answer@.len() == WORD_LENGTH,
            hint_arr@.len() == WORD_LENGTH,
            forall|j: int|
                k <= j < WORD_LENGTH ==> hint_arr@[j] == (if guess@[j] == answer@[j] {
                    HintType::Correct
                } else {
                    HintType::Absent
                }),
            hint_arr@.subrange(0, k as int) + spec_grade_from(
                guess@,
                answer@,
                k as int,
                pool@.to_multiset(),
            ) == spec_grade(guess@, answer@),
        decreases WORD_LENGTH - k,
    {
        let ghost pre: Seq<HintType> = hint_arr@;
        let ghost pool_ms: Multiset<char> = pool@.to_multiset();
        let gc = guess.get_char(k);
        if hint_arr[k] != HintType::Correct {
            match find_char(&pool, gc) {
                Some(p) => {
                    pool.remove(p);
                    hint_arr.set(k, HintType::Present);
                    proof {
                        assert(pool@.to_multiset() == pool_ms.remove(gc));
                        assert(spec_grade_from(guess@, answer@, k as int, pool_ms) == seq![
                            HintType::Present,
                        ] + spec_grade_from(guess@, answer@, k + 1, pool_ms.remove(gc)));
                        assert(hint_arr@.subrange(0, k + 1) =~= pre.subrange(0, k as int) + seq![
                            HintType::Present,
                        ]);
                    }
                },
                None => {
                    proof {
                        assert(pool_ms.count(gc) == 0);
                        assert(spec_grade_from(guess@, answer@, k as int, pool_ms) == seq![
                            HintType::Absent,
                        ] + spec_grade_from(guess@, answer@, k + 1, pool_ms));
                        assert(hint_arr@.subrange(0, k + 1) =~= pre.subrange(0, k as int) + seq![
                            HintType::Absent,
                        ]);
                    }
                },
            }
        } else {
            proof {
                assert(spec_grade_from(guess@, answer@, k as int, pool_ms) == seq![
                    HintType::Correct,
                ] + spec_grade_from(guess@, answer@, k + 1, pool_ms));
                assert(hint_arr@.subrange(0, k + 1) =~= pre.subrange(0, k as int) + seq![
                    HintType::Correct,
                ]);
            }
        }
        k += 1;
    }
    proof {
        assert(hint_arr@.subrange(0, WORD_LENGTH as int) =~= hint_arr@);
        assert(hint_arr@ + Seq::<HintType>::empty() =~= hint_arr@);
    }
    WordleHint::new(guess.to_owned(), hint_arr)
}

/// Checked entry point for grading: validates both lengths, then grades.
pub fn grade_guess_py(guess: String, answer: String) -> (r: Result<WordleHint, WordleError>)
    ensures
        r matches Ok(h) <==> guess@.len() == WORD_LENGTH && answer@.len() == WORD_LENGTH,
        r matches Ok(h) ==> grade_post(guess@, answer@, h) && h.wf(),
        r matches Err(e) ==> e == WordleError::InvalidInputLength,
{
    if guess.as_str().unicode_len() != WORD_LENGTH {
        return Err(WordleError::InvalidInputLength);
    }
    if answer.as_str().unicode_len() != WORD_LENGTH {
        return Err(WordleError::InvalidInputLength);
    }
    Ok(grade_guess(guess.as_str(), answer.as_str()))
}



} // verus!
