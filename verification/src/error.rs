//! The error taxonomy of the evaluation harness.
//!
//! Every error aborts the run that raised it; none is recovered or retried
//! inside this library.

use vstd::prelude::*;

verus! {

/// One terminal error per failed run, identifying the violated contract
/// and, where applicable, the guess or target that triggered it.
#[derive(Clone, Debug)]
pub enum WordleError {
    /// A guess or answer handed to the grading engine does not have exactly
    /// `WORD_LENGTH` characters.
    InvalidInputLength,
    /// The policy returned this word, which is not in the corpus.
    InvalidGuess(String),
    /// The policy returned different guesses for identical hint histories.
    NonDeterministicPolicy,
    /// The target with this index was not solved within `MAX_GUESSES`
    /// rounds.
    UnsolvedWithinBudget(usize),
    /// A hint string holds a character other than the three hint markers.
    InvalidHintCharacter,
    /// The remote grading backend could not be reached.
    BackendUnavailable,
    /// The remote grading backend answered with a malformed or mismatched
    /// response.
    BackendProtocolError,
    /// The policy itself failed to produce a guess.
    PolicyFailure,
}

impl PartialEq for WordleError {
    fn eq(&self, other: &WordleError) -> (r: bool) {
        match (self, other) {
            (WordleError::InvalidInputLength, WordleError::InvalidInputLength) => true,
            (WordleError::InvalidGuess(a), WordleError::InvalidGuess(b)) => *a == *b,
            (WordleError::NonDeterministicPolicy, WordleError::NonDeterministicPolicy) => true,
            (
                WordleError::UnsolvedWithinBudget(a),
                WordleError::UnsolvedWithinBudget(b),
            ) => *a == *b,
            (WordleError::InvalidHintCharacter, WordleError::InvalidHintCharacter) => true,
            (WordleError::BackendUnavailable, WordleError::BackendUnavailable) => true,
            (WordleError::BackendProtocolError, WordleError::BackendProtocolError) => true,
            (WordleError::PolicyFailure, WordleError::PolicyFailure) => true,
            _ => false,
        }
    }
}

impl vstd::std_specs::cmp::PartialEqSpecImpl for WordleError {
    open spec fn obeys_eq_spec() -> bool {
        true
    }

    open spec fn eq_spec(&self, other: &WordleError) -> bool {
        match (self, other) {
            (WordleError::InvalidInputLength, WordleError::InvalidInputLength) => true,
            (WordleError::InvalidGuess(a), WordleError::InvalidGuess(b)) => a@ == b@,
            (WordleError::NonDeterministicPolicy, WordleError::NonDeterministicPolicy) => true,
            (
                WordleError::UnsolvedWithinBudget(a),
                WordleError::UnsolvedWithinBudget(b),
            ) => a == b,
            (WordleError::InvalidHintCharacter, WordleError::InvalidHintCharacter) => true,
            (WordleError::BackendUnavailable, WordleError::BackendUnavailable) => true,
            (WordleError::BackendProtocolError, WordleError::BackendProtocolError) => true,
            (WordleError::PolicyFailure, WordleError::PolicyFailure) => true,
            _ => false,
        }
    }
}

impl WordleError {
    /// A short human-readable description of the error, naming the
    /// offending guess where one exists.
    pub fn message(&self) -> (m: String)
        ensures
            m@.len() > 0,
            self matches WordleError::InvalidInputLength ==> m@
                == "guess and answer must have exactly the fixed word length"@,
            self matches WordleError::InvalidGuess(w) ==> m@ == "guess '"@ + w@
                + "' is not a valid word - must be in corpus"@,
            self matches WordleError::NonDeterministicPolicy ==> m@
                == "guess() must return the same guess for a given unique hint list"@,
            self matches WordleError::UnsolvedWithinBudget(_) ==> m@
                == "failed to guess a target word within the round budget"@,
            self matches WordleError::InvalidHintCharacter ==> m@
                == "hint characters must be 'O' (correct), '~' (present) or 'X' (absent)"@,
            self matches WordleError::BackendUnavailable ==> m@
                == "failed to reach the grading server"@,
            self matches WordleError::BackendProtocolError ==> m@
                == "the grading server returned a malformed response"@,
            self matches WordleError::PolicyFailure ==> m@
                == "the guess() policy failed to produce a guess"@,
    {
        let m = match self {
            WordleError::InvalidInputLength => String::from_str(
                "guess and answer must have exactly the fixed word length",
            ),
            WordleError::InvalidGuess(w) => {
                let mut m = String::from_str("guess '");
                m.append(w.as_str());
                m.append("' is not a valid word - must be in corpus");
                m
            },
            WordleError::NonDeterministicPolicy => String::from_str(
                "guess() must return the same guess for a given unique hint list",
            ),
            WordleError::UnsolvedWithinBudget(_) => String::from_str(
                "failed to guess a target word within the round budget",
            ),
            WordleError::InvalidHintCharacter => String::from_str(
                "hint characters must be 'O' (correct), '~' (present) or 'X' (absent)",
            ),
            WordleError::BackendUnavailable => String::from_str(
                "failed to reach the grading server",
            ),
            WordleError::BackendProtocolError => String::from_str(
                "the grading server returned a malformed response",
            ),
            WordleError::PolicyFailure => String::from_str(
                "the guess() policy failed to produce a guess",
            ),
        };
        proof {
            reveal_strlit("guess and answer must have exactly the fixed word length");
            reveal_strlit("guess '");
            reveal_strlit("guess() must return the same guess for a given unique hint list");
            reveal_strlit("failed to guess a target word within the round budget");
            reveal_strlit("hint characters must be 'O' (correct), '~' (present) or 'X' (absent)");
            reveal_strlit("failed to reach the grading server");
            reveal_strlit("the grading server returned a malformed response");
            reveal_strlit("the guess() policy failed to produce a guess");
        }
        m
    }
}

} // verus!
