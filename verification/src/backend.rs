//! Grading backends: the interface the harness grades batches through, the
//! in-process backend over the grading engine, and the decoding of a remote
//! judge's textual response.

use vstd::prelude::*;

use crate::common::{sentinel_guess, sentinel_view, str_eq, WORD_LENGTH};
use crate::error::WordleError;
use crate::grade::{grade_guess, grade_post};
use crate::hint::{decode_hint_char, WordleHint};

verus! {

/// The feedback owed for one batch entry: the sentinel of an already solved
/// game gets synthetic all-Correct feedback; a real guess gets the grading
/// engine's feedback against the target at the same index.
pub open spec fn graded_hint(guess: Seq<char>, target: Seq<char>, h: WordleHint) -> bool {
    &&& h.word@ == guess
    &&& h.wf()
    &&& if guess == sentinel_view() {
        h.fully_correct()
    } else {
        grade_post(guess, target, h)
    }
}

/// The feedback owed for one round's whole batch, index by index.
pub open spec fn graded_batch(
    guesses: Seq<Seq<char>>,
    targets: Seq<Seq<char>>,
    hints: Seq<WordleHint>,
) -> bool {
    &&& hints.len() == guesses.len()
    &&& forall|i: int|
        0 <= i < guesses.len() ==> graded_hint(guesses[i], targets[i], #[trigger] hints[i])
}

/// A grading backend: converts one round's batch of guesses, one per game,
/// into one feedback record per game.  Index `i` of the batch always
/// corresponds to index `i` of the target set.
pub trait GradingBackend: Sized {
    /// The target words, one per game.  For a remote backend this is the
    /// answer key held by the judge for this run.  Backends in this crate
    /// override this model; the default stands for backends outside the
    /// verifier, whose contracts nothing checks.
    open spec fn targets(&self) -> Seq<Seq<char>> {
        Seq::empty()
    }

    /// Backend-specific well-formedness.
    open spec fn wf(&self) -> bool {
        true
    }

    /// How many games one batch covers.
    fn num_targets(&self) -> (n: usize)
        requires
            self.wf(),
        ensures
            n == self.targets().len(),
    ;

    /// Signals the start of a run.
    fn start(&self, team_id: &str) -> (r: Result<(), WordleError>)
        ensures
            r matches Err(e) ==> e == WordleError::BackendUnavailable || e
                == WordleError::BackendProtocolError,
    ;

    /// Grades one batch: every entry is either a corpus-length word or the
    /// sentinel of an already solved game.
    fn grade_batch(&self, guesses: &Vec<String>) -> (r: Result<Vec<WordleHint>, WordleError>)
        requires
            self.wf(),
            guesses.deep_view().len() == self.targets().len(),
            forall|i: int|
                0 <= i < guesses.deep_view().len() ==> (#[trigger] guesses.deep_view()[i]).len()
                    == WORD_LENGTH || guesses.deep_view()[i] == sentinel_view(),
        ensures
            r matches Ok(hints) ==> graded_batch(guesses.deep_view(), self.targets(), hints@),
            r matches Err(e) ==> e == WordleError::BackendUnavailable || e
                == WordleError::BackendProtocolError,
    ;

    /// Signals the end of a run.
    fn end(&self, team_id: &str) -> (r: Result<(), WordleError>)
        ensures
            r matches Err(e) ==> e == WordleError::BackendUnavailable || e
                == WordleError::BackendProtocolError,
    ;
}

/// The in-process grading backend: wraps the grading engine and an answer
/// key; never performs I/O and never fails (its methods strengthen the
/// trait contract with `r is Ok`).
pub struct LocalGradingBackend {
    targets: Vec<String>,
}

impl LocalGradingBackend {
    /// Builds a local backend over an answer key of well-formed target
    /// words.
    pub fn new(targets: Vec<String>) -> (b: LocalGradingBackend)
        requires
            forall|i: int|
                0 <= i < targets.deep_view().len() ==> (#[trigger] targets.deep_view()[i]).len()
                    == WORD_LENGTH,
        ensures
            b.wf(),
            b.targets() == targets.deep_view(),
    {
        LocalGradingBackend { targets }
    }
}

impl GradingBackend for LocalGradingBackend {
    closed spec fn targets(&self) -> Seq<Seq<char>> {
        self.targets.deep_view()
    }

    closed spec fn wf(&self) -> bool {
        forall|i: int|
            0 <= i < self.targets.deep_view().len() ==> (#[trigger] self.targets.deep_view()[i]).len()
                == WORD_LENGTH
    }

    fn num_targets(&self) -> (n: usize)
    {
        self.targets.len()
    }

    fn start(&self, team_id: &str) -> (r: Result<(), WordleError>)
        ensures
            r is Ok,
    {
        Ok(())
    }

    fn grade_batch(&self, guesses: &Vec<String>) -> (r: Result<Vec<WordleHint>, WordleError>)
        ensures
            r is Ok,
    {
        let sentinel = sentinel_guess();
        let mut hints: Vec<WordleHint> = Vec::new();
        let mut i: usize = 0;
        while i < guesses.len()
            invariant
                i <= guesses@.len(),
                guesses.deep_view().len() == self.targets.deep_view().len(),
                forall|j: int|
                    0 <= j < guesses.deep_view().len() ==> (#[trigger] guesses.deep_view()[j]).len()
                        == WORD_LENGTH || guesses.deep_view()[j] == sentinel_view(),
                forall|j: int|
                    0 <= j < self.targets.deep_view().len() ==> (
                    #[trigger] self.targets.deep_view()[j]).len() == WORD_LENGTH,
                sentinel@ == sentinel_view(),
                hints@.len() == i,
                forall|j: int|
                    0 <= j < i ==> graded_hint(
                        guesses.deep_view()[j],
                        self.targets.deep_view()[j],
                        #[trigger] hints@[j],
                    ),
            decreases guesses@.len() - i,
        {
            let guess = &guesses[i];
            proof {
                assert(guesses.deep_view()[i as int] == guesses@[i as int]@);
                assert(self.targets.deep_view()[i as int] == self.targets@[i as int]@);
            }
            if str_eq(guess.as_str(), sentinel.as_str()) {
                hints.push(WordleHint::new_all_correct(guess.clone()));
            } else {
                hints.push(grade_guess(guess.as_str(), self.targets[i].as_str()));
            }
            i += 1;
        }
        Ok(hints)
    }

    fn end(&self, team_id: &str) -> (r: Result<(), WordleError>)
        ensures
            r is Ok,
    {
        Ok(())
    }
}

/// Whether one response entry can be decoded: the sentinel is always
/// accepted; a real entry needs a well-formed word and one valid marker per
/// position.
pub open spec fn entry_decodable(guess: Seq<char>, hint_text: Seq<char>) -> bool {
    guess == sentinel_view() || (guess.len() == WORD_LENGTH && hint_text.len() == WORD_LENGTH
        && forall|j: int| 0 <= j < hint_text.len() ==> decode_hint_char(#[trigger] hint_text[j]) is Some)
}

/// The feedback decoded from one response entry.
pub open spec fn decoded_entry(guess: Seq<char>, hint_text: Seq<char>, h: WordleHint) -> bool {
    &&& h.word@ == guess
    &&& h.wf()
    &&& if guess == sentinel_view() {
        h.fully_correct()
    } else {
        forall|j: int| 0 <= j < WORD_LENGTH ==> decode_hint_char(hint_text[j]) == Some(#[trigger] h.hints@[j])
    }
}

/// Decodes a remote judge's response: one hint string per submitted guess,
/// with sentinel entries replaced by synthetic all-Correct feedback.  A
/// mismatched batch length or an undecodable entry is a protocol error.
pub fn decode_hint_batch(guesses: &Vec<String>, hint_strs: &Vec<String>) -> (r: Result<
    Vec<WordleHint>,
    WordleError,
>)
    ensures
        r matches Ok(hints) <==> hint_strs.deep_view().len() == guesses.deep_view().len()
            && (forall|i: int|
            0 <= i < guesses.deep_view().len() ==> entry_decodable(
                #[trigger] guesses.deep_view()[i],
                hint_strs.deep_view()[i],
            )),
        r matches Ok(hints) ==> {
            &&& hints@.len() == guesses.deep_view().len()
            &&& forall|i: int|
                0 <= i < guesses.deep_view().len() ==> decoded_entry(
                    guesses.deep_view()[i],
                    hint_strs.deep_view()[i],
                    #[trigger] hints@[i],
                )
        },
        r matches Err(e) ==> e == WordleError::BackendProtocolError,
{
    if hint_strs.len() != guesses.len() {
        return Err(WordleError::BackendProtocolError);
    }
    let sentinel = sentinel_guess();
    let mut hints: Vec<WordleHint> = Vec::new();
    let mut i: usize = 0;
    while i < guesses.len()
        invariant
            i <= guesses@.len(),
            hint_strs.deep_view().len() == guesses.deep_view().len(),
            sentinel@ == sentinel_view(),
            hints@.len() == i,
            forall|j: int|
                0 <= j < i ==> entry_decodable(
                    #[trigger] guesses.deep_view()[j],
                    hint_strs.deep_view()[j],
                ),
            forall|j: int|
                0 <= j < i ==> decoded_entry(
                    guesses.deep_view()[j],
                    hint_strs.deep_view()[j],
                    #[trigger] hints@[j],
                ),
        decreases guesses@.len() - i,
    {
        let guess = &guesses[i];
        proof {
            assert(guesses.deep_view()[i as int] == guesses@[i as int]@);
            assert(hint_strs.deep_view()[i as int] == hint_strs@[i as int]@);
        }
        if str_eq(guess.as_str(), sentinel.as_str()) {
            hints.push(WordleHint::new_all_correct(guess.clone()));
        } else {
            match WordleHint::new_hint(guess.clone(), hint_strs[i].clone()) {
                Ok(h) => hints.push(h),
                Err(_) => {
                    proof {
                        assert(!entry_decodable(
                            guesses.deep_view()[i as int],
                            hint_strs.deep_view()[i as int],
                        ));
                    }
                    return Err(WordleError::BackendProtocolError);
                },
            }
        }
        i += 1;
    }
    Ok(hints)
}

} // verus!
