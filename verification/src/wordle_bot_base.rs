//! The multi-target evaluation harness.
//!
//! One run drives a user-supplied guessing policy against every target word
//! of a grading backend, one synchronized round at a time, for at most
//! `MAX_GUESSES` rounds: solved games are padded with the sentinel guess,
//! live games ask the policy, and the whole batch is graded at once.  The
//! aggregate score is the arithmetic mean of the per-game 1-based first
//! fully-correct rounds, reported as a sum over the number of games.

use vstd::prelude::*;

use crate::backend::{graded_hint, GradingBackend};
use crate::common::{lemma_sentinel_is_no_word, sentinel_guess, sentinel_view, str_eq, MAX_GUESSES, WORD_LENGTH};
use crate::corpus::Corpus;
use crate::error::WordleError;
use crate::grade::{grade_guess, lemma_grade_length, lemma_grade_letter_accounting, spec_grade};
use crate::hint::{HintType, WordleHint};

verus! {

/// The 1-based round of the first fully correct feedback in one game's
/// history, or 0 if the game was never solved (or never played).
pub open spec fn first_correct_round(h: Seq<WordleHint>) -> int
    decreases h.len(),
{
    if h.len() == 0 {
        0
    } else if h[0].fully_correct() {
        1
    } else {
        let rest = first_correct_round(h.drop_first());
        if rest == 0 {
            0
        } else {
            rest + 1
        }
    }
}

/// The sum of a sequence of per-game guess counts.
pub open spec fn count_sum(s: Seq<usize>) -> int
    decreases s.len(),
{
    if s.len() == 0 {
        0
    } else {
        count_sum(s.drop_last()) + s.last()
    }
}

/// Once solved, always solved: every feedback record after the first fully
/// correct one is fully correct too.
pub open spec fn solved_monotone(h: Seq<WordleHint>) -> bool {
    forall|r1: int, r2: int|
        0 <= r1 <= r2 < h.len() && (#[trigger] h[r1]).fully_correct() ==> (
        #[trigger] h[r2]).fully_correct()
}

proof fn lemma_fcr_none(h: Seq<WordleHint>)
    requires
        forall|t: int| 0 <= t < h.len() ==> !(#[trigger] h[t]).fully_correct(),
    ensures
        first_correct_round(h) == 0,
    decreases h.len(),
{
    if h.len() > 0 {
        assert(forall|t: int|
            0 <= t < h.drop_first().len() ==> h.drop_first()[t] == h[t + 1]);
        lemma_fcr_none(h.drop_first());
    }
}

proof fn lemma_fcr_at(h: Seq<WordleHint>, j: int)
    requires
        0 <= j < h.len(),
        h[j].fully_correct(),
        forall|t: int| 0 <= t < j ==> !(#[trigger] h[t]).fully_correct(),
    ensures
        first_correct_round(h) == j + 1,
    decreases j,
{
    if j > 0 {
        assert(forall|t: int|
            0 <= t < h.drop_first().len() ==> h.drop_first()[t] == h[t + 1]);
        lemma_fcr_at(h.drop_first(), j - 1);
    }
}

/// The first-correct round is 0 or a valid 1-based round index, and it is
/// positive exactly when some round's feedback is fully correct.
pub proof fn lemma_fcr_bounds(h: Seq<WordleHint>)
    ensures
        0 <= first_correct_round(h) <= h.len(),
        first_correct_round(h) >= 1 <==> exists|r: int|
            0 <= r < h.len() && (#[trigger] h[r]).fully_correct(),
    decreases h.len(),
{
    if h.len() > 0 {
        lemma_fcr_bounds(h.drop_first());
        assert(forall|t: int|
            0 <= t < h.drop_first().len() ==> h.drop_first()[t] == h[t + 1]);
        if !h[0].fully_correct() {
            if exists|r: int| 0 <= r < h.len() && (#[trigger] h[r]).fully_correct() {
                let r = choose|r: int| 0 <= r < h.len() && (#[trigger] h[r]).fully_correct();
                assert(h.drop_first()[r - 1].fully_correct());
            }
            if first_correct_round(h.drop_first()) >= 1 {
                let r = choose|r: int|
                    0 <= r < h.drop_first().len() && (#[trigger] h.drop_first()[r]).fully_correct();
                assert(h[r + 1].fully_correct());
            }
        }
    }
}

proof fn lemma_count_sum_all_ones(s: Seq<usize>)
    requires
        forall|i: int| 0 <= i < s.len() ==> (#[trigger] s[i]) == 1,
    ensures
        count_sum(s) == s.len(),
    decreases s.len(),
{
    if s.len() > 0 {
        lemma_count_sum_all_ones(s.drop_last());
    }
}

/// A perfect run scores an average of exactly one guess per game: if every
/// game's first feedback is already fully correct, every per-game guess
/// count is 1 and their total equals the number of games, so the mean is 1.
pub proof fn lemma_perfect_run_scores_one(histories: Seq<Seq<WordleHint>>, counts: Seq<usize>)
    requires
        forall|i: int|
            0 <= i < histories.len() ==> (#[trigger] histories[i]).len() > 0
                && histories[i][0].fully_correct(),
        counts.len() == histories.len(),
        forall|i: int|
            0 <= i < counts.len() ==> (#[trigger] counts[i]) == first_correct_round(histories[i]),
    ensures
        forall|i: int| 0 <= i < counts.len() ==> (#[trigger] counts[i]) == 1,
        count_sum(counts) == counts.len(),
{
    assert forall|i: int| 0 <= i < counts.len() implies (#[trigger] counts[i]) == 1 by {
        assert(first_correct_round(histories[i]) == 1);
    }
    lemma_count_sum_all_ones(counts);
}

/// Finds the earliest fully correct feedback in one game's history.
fn find_first_correct(hl: &Vec<WordleHint>) -> (r: Option<usize>)
    ensures
        match r {
            Some(j) => j < hl@.len() && hl@[j as int].fully_correct() && (forall|t: int|
                0 <= t < j ==> !(#[trigger] hl@[t]).fully_correct()),
            None => forall|t: int| 0 <= t < hl@.len() ==> !(#[trigger] hl@[t]).fully_correct(),
        },
{
    let mut j: usize = 0;
    while j < hl.len()
        invariant
            j <= hl@.len(),
            forall|t: int| 0 <= t < j ==> !(#[trigger] hl@[t]).fully_correct(),
        decreases hl@.len() - j,
    {
        if hl[j].is_fully_correct() {
            return Some(j);
        }
        j += 1;
    }
    None
}

/// Computes the per-game guess counts and their total from the feedback
/// histories of one finished run.
///
/// Any played game whose last feedback is not fully correct makes the whole
/// score a hard failure naming the first offending target: there is no
/// partial credit and no truncated score.
pub fn calculate_local_score(histories: &Vec<Vec<WordleHint>>) -> (r: Result<
    (Vec<usize>, usize),
    WordleError,
>)
    requires
        forall|i: int| 0 <= i < histories@.len() ==> (#[trigger] histories@[i])@.len() <= MAX_GUESSES,
        histories@.len() * MAX_GUESSES <= usize::MAX,
    ensures
        r matches Ok(_) <==> (forall|i: int|
            0 <= i < histories@.len() ==> ((#[trigger] histories@[i])@.len() == 0
                || histories@[i]@.last().fully_correct())),
        r matches Ok(score) ==> {
            &&& score.0@.len() == histories@.len()
            &&& forall|i: int|
                0 <= i < histories@.len() ==> (#[trigger] score.0@[i]) == first_correct_round(
                    histories@[i]@,
                )
            &&& score.1 == count_sum(score.0@)
        },
        r matches Err(e) ==> e matches WordleError::UnsolvedWithinBudget(gi) && gi
            < histories@.len() && histories@[gi as int]@.len() > 0
            && !histories@[gi as int]@.last().fully_correct(),
{
    let mut counts: Vec<usize> = Vec::new();
    let mut total: usize = 0;
    let mut i: usize = 0;
    while i < histories.len()
        invariant
            i <= histories@.len(),
            histories@.len() * MAX_GUESSES <= usize::MAX,
            forall|t: int|
                0 <= t < histories@.len() ==> (#[trigger] histories@[t])@.len() <= MAX_GUESSES,
            counts@.len() == i,
            forall|t: int|
                0 <= t < i ==> ((#[trigger] histories@[t])@.len() == 0
                    || histories@[t]@.last().fully_correct()),
            forall|t: int|
                0 <= t < i ==> (#[trigger] counts@[t]) == first_correct_round(histories@[t]@),
            forall|t: int| 0 <= t < i ==> (#[trigger] counts@[t]) <= MAX_GUESSES,
            total == count_sum(counts@),
            total <= i * MAX_GUESSES,
        decreases histories@.len() - i,
    {
        let hl = &histories[i];
        let ghost prev_counts = counts@;
        let mut count: usize = 0;
        if hl.len() > 0 {
            if !hl[hl.len() - 1].is_fully_correct() {
                proof {
                    assert(histories@[i as int]@.last() == hl@[hl@.len() - 1]);
                }
                return Err(WordleError::UnsolvedWithinBudget(i));
            }
            match find_first_correct(hl) {
                Some(j) => {
                    count = j + 1;
                    proof {
                        lemma_fcr_at(hl@, j as int);
                    }
                },
                None => {
                    proof {
                        assert(hl@[hl@.len() - 1].fully_correct());
                        assert(false);
                    }
                },
            }
        } else {
            proof {
                assert(first_correct_round(hl@) == 0);
            }
        }
        counts.push(count);
        proof {
            assert(counts@.drop_last() =~= prev_counts);
            assert(count_sum(counts@) == count_sum(prev_counts) + count);
            assert(total + count <= (i + 1) * MAX_GUESSES);
        }
        total = total + count;
        i += 1;
    }
    Ok((counts, total))
}

/// The guessing policy under evaluation: an opaque external capability that
/// maps one game's read-only feedback history to the next guess.  Nothing
/// is assumed of it: the preflight check tests determinism dynamically, and
/// the harness validates every guess it returns.
pub trait Policy: Sized {
    /// Produces the next guess for one game, given that game's feedback
    /// history so far.
    fn guess(&self, history: &Vec<WordleHint>) -> Result<String, WordleError>;
}

/// The outcome of one evaluation run.  The aggregate score is the
/// arithmetic mean of the per-game guess counts: `total_guesses` divided by
/// the number of games.
#[derive(Debug)]
pub struct EvaluationResult {
    /// For each target index, the 1-based round of its first fully correct
    /// feedback.
    pub per_game_guess_count: Vec<usize>,
    /// The sum of all per-game guess counts.
    pub total_guesses: usize,
    /// The per-game feedback histories, one per target.
    pub histories: Vec<Vec<WordleHint>>,
}

/// `g` is an answer the policy can give on `history`, by the policy's own
/// contract: some call of `guess` on a history with exactly these records
/// may return `Ok` of a string whose view is `g`.
pub open spec fn policy_answer<P: Policy>(policy: &P, history: Seq<WordleHint>, g: Seq<char>) -> bool {
    exists|prefix: Vec<WordleHint>, gs: String|
        prefix@ == history && gs@ == g && #[trigger] call_ensures(
            P::guess,
            (policy, &prefix),
            Ok::<String, WordleError>(gs),
        )
}

/// `g` is an answer the policy can give on some history.
pub open spec fn policy_can_answer<P: Policy>(policy: &P, g: Seq<char>) -> bool {
    exists|history: Seq<WordleHint>| policy_answer(policy, history, g)
}

/// `e` is an error the policy itself can return.
pub open spec fn policy_error<P: Policy>(policy: &P, e: WordleError) -> bool {
    exists|prefix: Vec<WordleHint>|
        #[trigger] call_ensures(P::guess, (policy, &prefix), Err::<String, WordleError>(e))
}

/// How one guess is selected for one game in one round: a solved game gets
/// the sentinel without the policy being invoked; a live game gets a
/// corpus word that is a possible policy answer on the game's history.
pub open spec fn guess_selected<P: Policy>(
    policy: &P,
    h: Seq<WordleHint>,
    c: Corpus,
    g: Seq<char>,
) -> bool {
    if h.len() > 0 && h.last().fully_correct() {
        g == sentinel_view()
    } else {
        c.spec_contains(g) && g.len() == WORD_LENGTH && policy_answer(policy, h, g)
    }
}

/// How one round extends one game's history: exactly one feedback record is
/// appended, graded from a selected guess, and a solved game stays solved
/// under its sentinel.
pub open spec fn round_extends<P: Policy>(
    policy: &P,
    old_h: Seq<WordleHint>,
    new_h: Seq<WordleHint>,
    target: Seq<char>,
    c: Corpus,
) -> bool {
    &&& new_h.len() == old_h.len() + 1
    &&& new_h.subrange(0, old_h.len() as int) == old_h
    &&& new_h.last().wf()
    &&& exists|g: Seq<char>|
        graded_hint(g, target, new_h.last()) && guess_selected(policy, old_h, c, g)
    &&& (old_h.len() > 0 && old_h.last().fully_correct() ==> new_h.last().word@ == sentinel_view()
        && new_h.last().fully_correct())
}

/// The feedback record `rec`, appended when the game's history was
/// `prefix`, was graded from a guess selected for that history.
pub open spec fn graded_from_selected<P: Policy>(
    policy: &P,
    prefix: Seq<WordleHint>,
    rec: WordleHint,
    target: Seq<char>,
    c: Corpus,
) -> bool {
    exists|g: Seq<char>| graded_hint(g, target, rec) && guess_selected(policy, prefix, c, g)
}

/// Every feedback record of the history was graded from a guess selected
/// for the history as it stood at that round.
pub open spec fn history_graded<P: Policy>(
    policy: &P,
    h: Seq<WordleHint>,
    target: Seq<char>,
    c: Corpus,
) -> bool {
    forall|r: int|
        0 <= r < h.len() ==> graded_from_selected(
            policy,
            h.subrange(0, r),
            #[trigger] h[r],
            target,
            c,
        )
}

/// From the round after a game is solved on, its feedback record carries
/// the sentinel guess and stays fully correct.
pub open spec fn sentinel_after_solved(h: Seq<WordleHint>) -> bool {
    forall|r: int|
        #![trigger h[r]]
        1 <= r < h.len() && h[r - 1].fully_correct() ==> h[r].word@ == sentinel_view()
            && h[r].fully_correct()
}

/// The fixed probe history of the preflight determinism check: one feedback
/// record for the word "store", all Absent but a final Present.
pub open spec fn preflight_probe(h: Seq<WordleHint>) -> bool {
    &&& h.len() == 1
    &&& h[0].word@ == "store"@
    &&& h[0].hints@ == seq![
        HintType::Absent,
        HintType::Absent,
        HintType::Absent,
        HintType::Absent,
        HintType::Present,
    ]
}

/// The policy can answer the preflight probe history at all.
pub open spec fn answers_probe<P: Policy>(policy: &P) -> bool {
    exists|p: Vec<WordleHint>, gs: String|
        #![trigger call_ensures(P::guess, (policy, &p), Ok::<String, WordleError>(gs))]
        preflight_probe(p@) && call_ensures(P::guess, (policy, &p), Ok::<String, WordleError>(gs))
}

/// The policy can answer the preflight probe history in two different
/// ways: the witness behind a non-determinism verdict.
pub open spec fn nondeterministic_on_probe<P: Policy>(policy: &P) -> bool {
    exists|p1: Vec<WordleHint>, p2: Vec<WordleHint>, s1: String, s2: String|
        #![trigger call_ensures(P::guess, (policy, &p1), Ok::<String, WordleError>(s1)), call_ensures(P::guess, (policy, &p2), Ok::<String, WordleError>(s2))]
        {
            &&& preflight_probe(p1@)
            &&& preflight_probe(p2@)
            &&& s1@ != s2@
            &&& call_ensures(P::guess, (policy, &p1), Ok::<String, WordleError>(s1))
            &&& call_ensures(P::guess, (policy, &p2), Ok::<String, WordleError>(s2))
        }
}

/// A losing trace: a graded single-game history none of whose feedback
/// records is fully correct.
pub open spec fn losing_trace<P: Policy>(
    policy: &P,
    h: Seq<WordleHint>,
    target: Seq<char>,
    c: Corpus,
) -> bool {
    &&& history_graded(policy, h, target, c)
    &&& forall|r: int| 0 <= r < h.len() ==> !(#[trigger] h[r]).fully_correct()
}

/// A solved game was solved by the policy naming its target: somewhere in
/// the history, the policy could answer the target word itself.
pub proof fn lemma_solved_by_policy<P: Policy>(
    policy: &P,
    h: Seq<WordleHint>,
    target: Seq<char>,
    c: Corpus,
    r: int,
)
    requires
        history_graded(policy, h, target, c),
        0 <= r < h.len(),
        h[r].fully_correct(),
    ensures
        policy_can_answer(policy, target),
    decreases r,
{
    let prefix = h.subrange(0, r);
    assert(graded_from_selected(policy, prefix, h[r], target, c));
    let g = choose|g: Seq<char>|
        graded_hint(g, target, h[r]) && guess_selected(policy, prefix, c, g);
    if prefix.len() > 0 && prefix.last().fully_correct() {
        assert(prefix.last() == h[r - 1]);
        lemma_solved_by_policy(policy, h, target, c, r - 1);
    } else {
        assert(policy_answer(policy, prefix, g));
        lemma_sentinel_is_no_word();
        assert(g != sentinel_view());
        assert(h[r].hints@ == spec_grade(g, target));
        lemma_grade_length(g, target);
        assert(g.len() == target.len());
        lemma_grade_letter_accounting(g, target);
        assert forall|t: int| 0 <= t < g.len() implies g[t] == target[t] by {
            assert(h[r].hints@[t] == HintType::Correct);
        }
        assert(g =~= target);
        assert(policy_answer(policy, prefix, target));
        assert(policy_can_answer(policy, target));
    }
}

/// A policy whose only possible answer on an empty history is the target
/// word solves the game in its first round: together with
/// `lemma_perfect_run_scores_one`, the run scores exactly one guess per
/// game.
pub proof fn lemma_exact_policy_first_round<P: Policy>(
    policy: &P,
    h: Seq<WordleHint>,
    target: Seq<char>,
    c: Corpus,
)
    requires
        history_graded(policy, h, target, c),
        h.len() > 0,
        forall|prefix: Vec<WordleHint>, gs: String|
            prefix@ == Seq::<WordleHint>::empty() && #[trigger] call_ensures(
                P::guess,
                (policy, &prefix),
                Ok::<String, WordleError>(gs),
            ) ==> gs@ == target,
    ensures
        h[0].fully_correct(),
        first_correct_round(h) == 1,
{
    let prefix = h.subrange(0, 0);
    assert(prefix =~= Seq::<WordleHint>::empty());
    assert(graded_from_selected(policy, prefix, h[0], target, c));
    let g = choose|g: Seq<char>|
        graded_hint(g, target, h[0]) && guess_selected(policy, prefix, c, g);
    assert(policy_answer(policy, prefix, g));
    let (pv, gs) = choose|pv: Vec<WordleHint>, gs: String|
        pv@ == prefix && gs@ == g && #[trigger] call_ensures(
            P::guess,
            (policy, &pv),
            Ok::<String, WordleError>(gs),
        );
    assert(g == target);
    lemma_sentinel_is_no_word();
    assert(g.len() == WORD_LENGTH);
    assert(g != sentinel_view());
    assert(h[0].hints@ == spec_grade(target, target));
    lemma_grade_letter_accounting(target, target);
    assert forall|t: int| 0 <= t < h[0].hints@.len() implies h[0].hints@[t] == HintType::Correct by {
        assert(0 <= t < target.len());
        assert(target[t] == target[t]);
        assert(spec_grade(target, target)[t] == HintType::Correct);
    }
    assert(h[0].fully_correct());
}

/// The run-level perfect-policy law: on a successful run whose games all
/// share one target word, a policy that can only ever open with that word
/// scores exactly one guess per game, so the aggregate mean is one.  The
/// hypotheses below are exactly what `evaluate`'s success contract gives.
pub proof fn lemma_exact_policy_scores_one<P: Policy, B: GradingBackend>(
    policy: &P,
    backend: &B,
    res: EvaluationResult,
    c: Corpus,
    w: Seq<char>,
)
    requires
        forall|i: int| 0 <= i < backend.targets().len() ==> #[trigger] backend.targets()[i] == w,
        forall|prefix: Vec<WordleHint>, gs: String|
            prefix@ == Seq::<WordleHint>::empty() && #[trigger] call_ensures(
                P::guess,
                (policy, &prefix),
                Ok::<String, WordleError>(gs),
            ) ==> gs@ == w,
        res.histories@.len() == backend.targets().len(),
        forall|i: int|
            0 <= i < res.histories@.len() ==> (#[trigger] res.histories@[i])@.len() == MAX_GUESSES,
        forall|i: int|
            0 <= i < res.histories@.len() ==> history_graded(
                policy,
                (#[trigger] res.histories@[i])@,
                backend.targets()[i],
                c,
            ),
        res.per_game_guess_count@.len() == res.histories@.len(),
        forall|i: int|
            0 <= i < res.histories@.len() ==> (#[trigger] res.per_game_guess_count@[i])
                == first_correct_round(res.histories@[i]@),
    ensures
        forall|i: int|
            0 <= i < res.per_game_guess_count@.len() ==> (
            #[trigger] res.per_game_guess_count@[i]) == 1,
        count_sum(res.per_game_guess_count@) == res.per_game_guess_count@.len(),
{
    assert forall|i: int| 0 <= i < res.per_game_guess_count@.len() implies (
    #[trigger] res.per_game_guess_count@[i]) == 1 by {
        lemma_exact_policy_first_round(policy, res.histories@[i]@, backend.targets()[i], c);
    }
    lemma_count_sum_all_ones(res.per_game_guess_count@);
}

/// Runs one round: collects one guess per game (the sentinel for solved
/// games, the policy's guess for live ones, which must be a corpus word),
/// grades the whole batch at once, and appends each feedback record to its
/// game's history.  Any failure aborts the round with nothing appended.
fn run_round<P: Policy, B: GradingBackend>(
    policy: &P,
    backend: &B,
    corpus: &Corpus,
    histories: Vec<Vec<WordleHint>>,
) -> (r: Result<Vec<Vec<WordleHint>>, WordleError>)
    requires
        corpus.wf(),
        backend.wf(),
        histories@.len() == backend.targets().len(),
    ensures
        r matches Ok(out) ==> {
            &&& out@.len() == histories@.len()
            &&& forall|i: int|
                0 <= i < out@.len() ==> round_extends(
                    policy,
                    (#[trigger] histories@[i])@,
                    out@[i]@,
                    backend.targets()[i],
                    *corpus,
                )
        },
        r matches Err(e) ==> {
            ||| (e matches WordleError::InvalidGuess(w) && !corpus.spec_contains(w@)
                && policy_can_answer(policy, w@))
            ||| e == WordleError::BackendUnavailable
            ||| e == WordleError::BackendProtocolError
            ||| policy_error(policy, e)
        },
{
    let ghost orig = histories@;
    let n = histories.len();
    let sentinel = sentinel_guess();

    // Collect the batch: index i of the batch corresponds to index i of the
    // target set.
    let mut guesses: Vec<String> = Vec::new();
    let mut i: usize = 0;
    while i < n
        invariant
            i <= n,
            n == histories@.len(),
            histories@.len() == backend.targets().len(),
            corpus.wf(),
            sentinel@ == sentinel_view(),
            guesses@.len() == i,
            forall|j: int|
                0 <= j < i ==> guess_selected(
                    policy,
                    (#[trigger] histories@[j])@,
                    *corpus,
                    guesses.deep_view()[j],
                ),
        decreases n - i,
    {
        let hl = &histories[i];
        let ghost prev = guesses.deep_view();
        let solved = hl.len() > 0 && hl[hl.len() - 1].is_fully_correct();
        if solved {
            guesses.push(sentinel.clone());
        } else {
            let g = match policy.guess(hl) {
                Ok(g) => g,
                Err(e) => {
                    proof {
                        assert(call_ensures(
                            P::guess,
                            (policy, hl),
                            Err::<String, WordleError>(e),
                        ));
                        assert(policy_error(policy, e));
                    }
                    return Err(e);
                },
            };
            proof {
                assert(call_ensures(P::guess, (policy, hl), Ok::<String, WordleError>(g)));
                assert(policy_answer(policy, histories@[i as int]@, g@));
            }
            if !corpus.contains_word(g.as_str()) {
                proof {
                    assert(policy_can_answer(policy, g@));
                }
                return Err(WordleError::InvalidGuess(g));
            }
            proof {
                let t = choose|t: int| 0 <= t < corpus@.len() && corpus@[t] == g@;
                assert(corpus@[t].len() == WORD_LENGTH);
            }
            guesses.push(g);
        }
        proof {
            assert(guesses.deep_view() =~= prev.push(guesses@[i as int]@));
            assert(histories@[i as int]@.len() > 0 ==> histories@[i as int]@.last() == hl@[hl@.len()
                - 1]);
        }
        i += 1;
    }

    // Grade the whole batch in one backend call.
    proof {
        assert forall|j: int| 0 <= j < guesses.deep_view().len() implies (
        #[trigger] guesses.deep_view()[j]).len() == WORD_LENGTH || guesses.deep_view()[j]
            == sentinel_view() by {
            assert(guess_selected(policy, histories@[j]@, *corpus, guesses.deep_view()[j]));
        }
    }
    let hints = match backend.grade_batch(&guesses) {
        Ok(hints) => hints,
        Err(e) => {
            return Err(e);
        },
    };

    // Append each feedback record to its game's history.
    let mut rem = histories;
    let mut hrem = hints;
    let ghost hints_view = hrem@;
    let mut out: Vec<Vec<WordleHint>> = Vec::new();
    let mut k: usize = 0;
    while k < n
        invariant
            k <= n,
            n == orig.len(),
            rem@ =~= orig.skip(k as int),
            hrem@ =~= hints_view.skip(k as int),
            hints_view.len() == n,
            out@.len() == k,
            forall|j: int| 0 <= j < k ==> (#[trigger] out@[j])@ == orig[j]@.push(hints_view[j]),
        decreases n - k,
    {
        let mut hl = rem.remove(0);
        let h = hrem.remove(0);
        proof {
            assert(hl@ == orig[k as int]@);
            assert(h == hints_view[k as int]);
            assert(rem@ =~= orig.skip(k + 1));
            assert(hrem@ =~= hints_view.skip(k + 1));
        }
        hl.push(h);
        out.push(hl);
        k += 1;
    }
    proof {
        assert forall|j: int|
            0 <= j < n implies round_extends(
            policy,
            orig[j]@,
            out@[j]@,
            backend.targets()[j],
            *corpus,
        ) by {
            let old_h = orig[j]@;
            let new_h = out@[j]@;
            let g = guesses.deep_view()[j];
            assert(graded_hint(g, backend.targets()[j], hints_view[j]));
            assert(guess_selected(policy, old_h, *corpus, g));
            assert(new_h.last() == hints_view[j]);
            assert(new_h.subrange(0, old_h.len() as int) =~= old_h);
            if old_h.len() > 0 && old_h.last().fully_correct() {
                assert(g == sentinel_view());
            }
        }
    }
    Ok(out)
}

/// The evaluation harness itself, configured with a team identity.
pub struct UChicagoWordleBotBase {
    /// The identity under which remote runs are submitted.
    pub team_id: String,
}

impl UChicagoWordleBotBase {
    /// Creates a harness for one team.
    pub fn new(team_id: String) -> (b: UChicagoWordleBotBase)
        ensures
            b.team_id@ == team_id@,
    {
        UChicagoWordleBotBase { team_id }
    }

    /// The base harness carries no guessing policy of its own: evaluation
    /// must be given a real `Policy` implementation.
    pub fn guess(&self, history: &Vec<WordleHint>) -> (r: Result<String, WordleError>)
        ensures
            r == Err::<String, WordleError>(WordleError::PolicyFailure),
    {
        Err(WordleError::PolicyFailure)
    }

    /// Builds the fixed probe history the preflight check asks about.
    fn preflight_probe_history() -> (h: Vec<WordleHint>)
        ensures
            preflight_probe(h@),
    {
        let mut codes: Vec<HintType> = Vec::new();
        codes.push(HintType::Absent);
        codes.push(HintType::Absent);
        codes.push(HintType::Absent);
        codes.push(HintType::Absent);
        codes.push(HintType::Present);
        proof {
            assert(codes@ =~= seq![
                HintType::Absent,
                HintType::Absent,
                HintType::Absent,
                HintType::Absent,
                HintType::Present,
            ]);
        }
        let hint = WordleHint::new(String::from_str("store"), codes);
        let mut h: Vec<WordleHint> = Vec::new();
        h.push(hint);
        h
    }

    /// Preflight determinism check: calls the policy several times with an
    /// identical fixed non-empty hint history and rejects it if any two
    /// answers differ.  Downstream scoring assumes a pure function of the
    /// hint history, so a flaky policy is rejected before any work is done.
    ///
    /// It rejects a policy as non-deterministic only when the policy can
    /// indeed answer the probe history in two different ways; any other
    /// error is one the policy itself returned.
    fn check_deterministic_behavior<P: Policy>(policy: &P) -> (r: Result<(), WordleError>)
        ensures
            r is Ok ==> answers_probe(policy),
            r matches Err(e) ==> e == WordleError::NonDeterministicPolicy || policy_error(
                policy,
                e,
            ),
            r == Err::<(), WordleError>(WordleError::NonDeterministicPolicy) ==> policy_error(
                policy,
                WordleError::NonDeterministicPolicy,
            ) || nondeterministic_on_probe(policy),
    {
        let probe0 = UChicagoWordleBotBase::preflight_probe_history();
        let first = match policy.guess(&probe0) {
            Ok(g) => g,
            Err(e) => {
                proof {
                    assert(call_ensures(P::guess, (policy, &probe0), Err::<String, WordleError>(e)));
                    assert(policy_error(policy, e));
                }
                return Err(e);
            },
        };
        let mut attempt: usize = 1;
        while attempt < 10
            invariant
                preflight_probe(probe0@),
                call_ensures(P::guess, (policy, &probe0), Ok::<String, WordleError>(first)),
            decreases 10 - attempt,
        {
            let probe = UChicagoWordleBotBase::preflight_probe_history();
            let g = match policy.guess(&probe) {
                Ok(g) => g,
                Err(e) => {
                    proof {
                        assert(call_ensures(
                            P::guess,
                            (policy, &probe),
                            Err::<String, WordleError>(e),
                        ));
                        assert(policy_error(policy, e));
                    }
                    return Err(e);
                },
            };
            if !str_eq(first.as_str(), g.as_str()) {
                proof {
                    assert(call_ensures(P::guess, (policy, &probe), Ok::<String, WordleError>(g)));
                }
                return Err(WordleError::NonDeterministicPolicy);
            }
            attempt += 1;
        }
        proof {
            assert(answers_probe(policy));
        }
        Ok(())
    }

    /// Evaluates the policy on a single target word: rounds continue until
    /// the policy guesses the answer exactly or the round budget runs out.
    ///
    /// On success the returned count is the 1-based round of the winning
    /// guess; a win also shows that the answer itself is a corpus word the
    /// policy named, since only corpus words are accepted as guesses and
    /// only the answer itself grades fully correct.  On failure the error
    /// is the policy's own, or names a non-corpus guess the policy gave, or
    /// reports the exhausted round budget.
    pub fn evaluate_on_word<P: Policy>(&self, policy: &P, corpus: &Corpus, answer: &str) -> (r:
        Result<usize, WordleError>)
        requires
            corpus.wf(),
            answer@.len() == WORD_LENGTH,
        ensures
            r matches Ok(k) ==> {
                &&& 1 <= k <= MAX_GUESSES
                &&& corpus.spec_contains(answer@)
                &&& policy_can_answer(policy, answer@)
                &&& exists|hs: Seq<WordleHint>|
                    #![trigger losing_trace(policy, hs, answer@, *corpus)]
                    {
                        &&& hs.len() == k - 1
                        &&& losing_trace(policy, hs, answer@, *corpus)
                        &&& policy_answer(policy, hs, answer@)
                    }
            },
            r matches Err(e) ==> {
                ||| (e matches WordleError::InvalidGuess(w) && !corpus.spec_contains(w@)
                    && policy_can_answer(policy, w@))
                ||| (e == WordleError::UnsolvedWithinBudget(0) && exists|hs: Seq<WordleHint>|
                    #![trigger losing_trace(policy, hs, answer@, *corpus)]
                    hs.len() == MAX_GUESSES && losing_trace(policy, hs, answer@, *corpus))
                ||| policy_error(policy, e)
            },
    {
        let mut hint_list: Vec<WordleHint> = Vec::new();
        let mut num_guesses: usize = 1;
        while num_guesses <= MAX_GUESSES
            invariant
                1 <= num_guesses <= MAX_GUESSES + 1,
                corpus.wf(),
                answer@.len() == WORD_LENGTH,
                hint_list@.len() == num_guesses - 1,
                losing_trace(policy, hint_list@, answer@, *corpus),
            decreases MAX_GUESSES + 1 - num_guesses,
        {
            let g = match policy.guess(&hint_list) {
                Ok(g) => g,
                Err(e) => {
                    proof {
                        assert(call_ensures(
                            P::guess,
                            (policy, &hint_list),
                            Err::<String, WordleError>(e),
                        ));
                        assert(policy_error(policy, e));
                    }
                    return Err(e);
                },
            };
            proof {
                assert(call_ensures(P::guess, (policy, &hint_list), Ok::<String, WordleError>(g)));
                assert(policy_answer(policy, hint_list@, g@));
            }
            if !corpus.contains_word(g.as_str()) {
                proof {
                    assert(policy_can_answer(policy, g@));
                }
                return Err(WordleError::InvalidGuess(g));
            }
            proof {
                let t = choose|t: int| 0 <= t < corpus@.len() && corpus@[t] == g@;
                assert(corpus@[t].len() == WORD_LENGTH);
            }
            let h = grade_guess(g.as_str(), answer);
            if h.is_fully_correct() {
                proof {
                    lemma_grade_letter_accounting(g@, answer@);
                    assert forall|t: int| 0 <= t < WORD_LENGTH implies g@[t] == answer@[t] by {
                        assert(h.hints@[t] == HintType::Correct);
                    }
                    assert(g@ =~= answer@);
                    assert(policy_answer(policy, hint_list@, answer@));
                    assert(policy_can_answer(policy, answer@));
                    assert(losing_trace(policy, hint_list@, answer@, *corpus));
                    assert(hint_list@.len() == num_guesses - 1);
                }
                return Ok(num_guesses);
            }
            let ghost prev = hint_list@;
            hint_list.push(h);
            proof {
                assert forall|r: int| 0 <= r < hint_list@.len() implies graded_from_selected(
                    policy,
                    hint_list@.subrange(0, r),
                    #[trigger] hint_list@[r],
                    answer@,
                    *corpus,
                ) by {
                    if r < prev.len() {
                        assert(hint_list@[r] == prev[r]);
                        assert(hint_list@.subrange(0, r) =~= prev.subrange(0, r));
                        assert(graded_from_selected(
                            policy,
                            prev.subrange(0, r),
                            prev[r],
                            answer@,
                            *corpus,
                        ));
                    } else {
                        assert(hint_list@.subrange(0, r) =~= prev);
                        lemma_sentinel_is_no_word();
                        assert(g@ != sentinel_view());
                        assert(graded_hint(g@, answer@, h));
                        if prev.len() > 0 {
                            assert(!prev[prev.len() - 1].fully_correct());
                        }
                        assert(guess_selected(policy, prev, *corpus, g@));
                    }
                }
                assert forall|r: int| 0 <= r < hint_list@.len() implies !(
                #[trigger] hint_list@[r]).fully_correct() by {
                    if r < prev.len() {
                        assert(hint_list@[r] == prev[r]);
                    } else {
                        assert(hint_list@[r] == h);
                    }
                }
            }
            num_guesses += 1;
        }
        proof {
            assert(hint_list@.len() == MAX_GUESSES);
            assert(losing_trace(policy, hint_list@, answer@, *corpus));
        }
        Err(WordleError::UnsolvedWithinBudget(0))
    }

    /// Runs the full tournament evaluation: the preflight determinism
    /// check, then at most `MAX_GUESSES` rounds over every target of the
    /// grading backend, then scoring.
    ///
    /// On success every game was solved, each history holds exactly one
    /// feedback record per round, each record was graded from a guess the
    /// policy could give on the history as it stood, a solved game is
    /// padded with fully correct sentinel records for every later round,
    /// every target was named by the policy at some point, and the
    /// per-game guess counts are exactly the 1-based first fully-correct
    /// rounds, totalled in `total_guesses`.  On failure the error is one
    /// of the run's own five, or one the policy itself returned.
    pub fn evaluate<P: Policy, B: GradingBackend>(
        &self,
        policy: &P,
        backend: &B,
        corpus: &Corpus,
    ) -> (r: Result<EvaluationResult, WordleError>)
        requires
            corpus.wf(),
            backend.wf(),
            backend.targets().len() * MAX_GUESSES <= usize::MAX,
        ensures
            r matches Ok(res) ==> {
                let n = backend.targets().len();
                &&& res.histories@.len() == n
                &&& forall|i: int|
                    0 <= i < n ==> (#[trigger] res.histories@[i])@.len() == MAX_GUESSES
                &&& forall|i: int| 0 <= i < n ==> solved_monotone((#[trigger] res.histories@[i])@)
                &&& forall|i: int|
                    0 <= i < n ==> sentinel_after_solved((#[trigger] res.histories@[i])@)
                &&& forall|i: int|
                    0 <= i < n ==> history_graded(
                        policy,
                        (#[trigger] res.histories@[i])@,
                        backend.targets()[i],
                        *corpus,
                    )
                &&& forall|i: int|
                    0 <= i < n ==> (#[trigger] res.histories@[i])@.last().fully_correct()
                &&& forall|i: int|
                    0 <= i < n ==> policy_can_answer(policy, #[trigger] backend.targets()[i])
                &&& answers_probe(policy)
                &&& res.per_game_guess_count@.len() == n
                &&& forall|i: int|
                    0 <= i < n ==> (#[trigger] res.per_game_guess_count@[i])
                        == first_correct_round(res.histories@[i]@)
                &&& forall|i: int|
                    0 <= i < n ==> 1 <= (#[trigger] res.per_game_guess_count@[i]) <= MAX_GUESSES
                &&& res.total_guesses == count_sum(res.per_game_guess_count@)
            },
            r matches Err(e) ==> {
                ||| (e == WordleError::NonDeterministicPolicy && (policy_error(
                    policy,
                    WordleError::NonDeterministicPolicy,
                ) || nondeterministic_on_probe(policy)))
                ||| (e matches WordleError::InvalidGuess(w) && !corpus.spec_contains(w@)
                    && policy_can_answer(policy, w@))
                ||| (e matches WordleError::UnsolvedWithinBudget(gi) && gi < backend.targets().len()
                    && exists|hs: Seq<WordleHint>|
                    #![trigger losing_trace(policy, hs, backend.targets()[gi as int], *corpus)]
                    hs.len() == MAX_GUESSES && losing_trace(
                        policy,
                        hs,
                        backend.targets()[gi as int],
                        *corpus,
                    ))
                ||| e == WordleError::BackendUnavailable
                ||| e == WordleError::BackendProtocolError
                ||| policy_error(policy, e)
            },
    {
        match UChicagoWordleBotBase::check_deterministic_behavior(policy) {
            Ok(()) => {},
            Err(e) => {
                return Err(e);
            },
        }

        let n = backend.num_targets();
        let mut histories: Vec<Vec<WordleHint>> = Vec::new();
        let mut i: usize = 0;
        while i < n
            invariant
                i <= n,
                histories@.len() == i,
                forall|j: int| 0 <= j < i ==> (#[trigger] histories@[j])@.len() == 0,
            decreases n - i,
        {
            histories.push(Vec::new());
            i += 1;
        }

        match backend.start(self.team_id.as_str()) {
            Ok(()) => {},
            Err(e) => {
                return Err(e);
            },
        }

        let mut round: usize = 0;
        while round < MAX_GUESSES
            invariant
                round <= MAX_GUESSES,
                corpus.wf(),
                backend.wf(),
                n == backend.targets().len(),
                histories@.len() == n,
                forall|j: int| 0 <= j < n ==> (#[trigger] histories@[j])@.len() == round,
                forall|j: int| 0 <= j < n ==> solved_monotone((#[trigger] histories@[j])@),
                forall|j: int| 0 <= j < n ==> sentinel_after_solved((#[trigger] histories@[j])@),
                forall|j: int|
                    0 <= j < n ==> history_graded(
                        policy,
                        (#[trigger] histories@[j])@,
                        backend.targets()[j],
                        *corpus,
                    ),
            decreases MAX_GUESSES - round,
        {
            let ghost before = histories@;
            histories = match run_round(policy, backend, corpus, histories) {
                Ok(out) => out,
                Err(e) => {
                    return Err(e);
                },
            };
            proof {
                assert forall|j: int| 0 <= j < n implies {
                    &&& (#[trigger] histories@[j])@.len() == round + 1
                    &&& solved_monotone(histories@[j]@)
                    &&& sentinel_after_solved(histories@[j]@)
                    &&& history_graded(policy, histories@[j]@, backend.targets()[j], *corpus)
                } by {
                    let old_h = before[j]@;
                    let new_h = histories@[j]@;
                    assert(round_extends(policy, old_h, new_h, backend.targets()[j], *corpus));
                    assert forall|t: int| 0 <= t < old_h.len() implies new_h[t] == old_h[t] by {
                        assert(new_h.subrange(0, old_h.len() as int)[t] == new_h[t]);
                    }
                    assert(solved_monotone(new_h)) by {
                        assert forall|r1: int, r2: int|
                            0 <= r1 <= r2 < new_h.len() && (#[trigger] new_h[r1]).fully_correct()
                                implies (#[trigger] new_h[r2]).fully_correct() by {
                            if r2 < old_h.len() {
                                assert(old_h[r1].fully_correct());
                                assert(old_h[r2].fully_correct());
                            } else if r1 < old_h.len() {
                                assert(old_h[r1].fully_correct());
                                assert(old_h[old_h.len() - 1].fully_correct());
                                assert(new_h.last().fully_correct());
                            }
                        }
                    }
                    assert(sentinel_after_solved(new_h)) by {
                        assert forall|r: int|
                            #![trigger new_h[r]]
                            1 <= r < new_h.len() && new_h[r - 1].fully_correct() implies new_h[r].word@
                            == sentinel_view() && new_h[r].fully_correct() by {
                            if r < old_h.len() {
                                assert(old_h[r - 1].fully_correct());
                                assert(old_h[r] == new_h[r]);
                            } else {
                                assert(old_h[r - 1].fully_correct());
                                assert(old_h.last().fully_correct());
                            }
                        }
                    }
                    assert(history_graded(policy, new_h, backend.targets()[j], *corpus)) by {
                        assert forall|r: int| 0 <= r < new_h.len() implies graded_from_selected(
                            policy,
                            new_h.subrange(0, r),
                            #[trigger] new_h[r],
                            backend.targets()[j],
                            *corpus,
                        ) by {
                            if r < old_h.len() {
                                assert(old_h[r] == new_h[r]);
                                assert(new_h.subrange(0, r) =~= old_h.subrange(0, r));
                                assert(graded_from_selected(
                                    policy,
                                    old_h.subrange(0, r),
                                    old_h[r],
                                    backend.targets()[j],
                                    *corpus,
                                ));
                            } else {
                                let g0 = choose|g: Seq<char>|
                                    graded_hint(g, backend.targets()[j], new_h.last())
                                        && guess_selected(policy, old_h, *corpus, g);
                                assert(new_h[r] == new_h.last());
                                assert(new_h.subrange(0, r) == old_h);
                                assert(graded_hint(g0, backend.targets()[j], new_h[r])
                                    && guess_selected(policy, new_h.subrange(0, r), *corpus, g0));
                            }
                        }
                    }
                }
            }
            round += 1;
        }

        let (counts, total) = match calculate_local_score(&histories) {
            Ok(score) => score,
            Err(e) => {
                proof {
                    let gi = choose|gi0: usize| e == WordleError::UnsolvedWithinBudget(gi0);
                    let h = histories@[gi as int]@;
                    assert(h.len() == MAX_GUESSES);
                    assert(!h[h.len() - 1].fully_correct());
                    assert forall|r: int| 0 <= r < h.len() implies !(
                    #[trigger] h[r]).fully_correct() by {
                        if h[r].fully_correct() {
                            assert(solved_monotone(h));
                            assert(h[h.len() - 1].fully_correct());
                        }
                    }
                    assert(losing_trace(policy, h, backend.targets()[gi as int], *corpus));
                }
                return Err(e);
            },
        };
        proof {
            assert forall|j: int| 0 <= j < n implies {
                &&& (#[trigger] histories@[j])@.last().fully_correct()
                &&& 1 <= counts@[j] <= MAX_GUESSES
            } by {
                assert(histories@[j]@.len() == MAX_GUESSES);
                lemma_fcr_bounds(histories@[j]@);
                assert(histories@[j]@[MAX_GUESSES - 1].fully_correct());
            }
            assert forall|j: int| 0 <= j < n implies policy_can_answer(
                policy,
                #[trigger] backend.targets()[j],
            ) by {
                lemma_solved_by_policy(
                    policy,
                    histories@[j]@,
                    backend.targets()[j],
                    *corpus,
                    MAX_GUESSES - 1,
                );
            }
        }

        match backend.end(self.team_id.as_str()) {
            Ok(()) => {},
            Err(e) => {
                return Err(e);
            },
        }

        Ok(EvaluationResult { per_game_guess_count: counts, total_guesses: total, histories })
    }
}

} // verus!
