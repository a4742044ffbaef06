use std::cell::Cell;

use wordle_tournament_lib::backend::LocalGradingBackend;
use wordle_tournament_lib::common::{sentinel_guess, MAX_GUESSES};
use wordle_tournament_lib::corpus::Corpus;
use wordle_tournament_lib::error::WordleError;
use wordle_tournament_lib::hint::WordleHint;
use wordle_tournament_lib::wordle_bot_base::{Policy, UChicagoWordleBotBase};

fn small_corpus() -> Corpus {
    Corpus::new(vec![
        String::from("crane"),
        String::from("hello"),
        String::from("world"),
        String::from("roost"),
        String::from("robot"),
    ])
}

/// Always returns the same word, whatever the history.
struct ConstantPolicy {
    word: String,
}

impl Policy for ConstantPolicy {
    fn guess(&self, _history: &Vec<WordleHint>) -> Result<String, WordleError> {
        Ok(self.word.clone())
    }
}

/// Like `ConstantPolicy`, but counts how often it is invoked.
struct CountingConstantPolicy {
    word: String,
    calls: Cell<usize>,
}

impl Policy for CountingConstantPolicy {
    fn guess(&self, _history: &Vec<WordleHint>) -> Result<String, WordleError> {
        self.calls.set(self.calls.get() + 1);
        Ok(self.word.clone())
    }
}

/// Returns a different word on every other call: not a function of the
/// history.
struct AlternatingPolicy {
    calls: Cell<usize>,
}

impl Policy for AlternatingPolicy {
    fn guess(&self, _history: &Vec<WordleHint>) -> Result<String, WordleError> {
        let n = self.calls.get();
        self.calls.set(n + 1);
        if n % 2 == 0 {
            Ok(String::from("crane"))
        } else {
            Ok(String::from("hello"))
        }
    }
}

/// Guesses "crane" first, then "robot": deterministic in the history.
struct SecondGuessPolicy;

impl Policy for SecondGuessPolicy {
    fn guess(&self, history: &Vec<WordleHint>) -> Result<String, WordleError> {
        if history.is_empty() {
            Ok(String::from("crane"))
        } else {
            Ok(String::from("robot"))
        }
    }
}

/// Walks a fixed list of guesses, one per round.
struct SequencePolicy {
    words: Vec<String>,
}

impl Policy for SequencePolicy {
    fn guess(&self, history: &Vec<WordleHint>) -> Result<String, WordleError> {
        let i = history.len().min(self.words.len() - 1);
        Ok(self.words[i].clone())
    }
}

/// Returns a word that is not in the corpus.
struct InvalidWordPolicy;

impl Policy for InvalidWordPolicy {
    fn guess(&self, _history: &Vec<WordleHint>) -> Result<String, WordleError> {
        Ok(String::from("zzzzz"))
    }
}

#[test]
fn test_perfect_policy_scores_one_guess_per_game() {
    let corpus = small_corpus();
    let backend = LocalGradingBackend::new(vec![String::from("crane"); 3]);
    let bot = UChicagoWordleBotBase::new(String::from("team"));
    let policy = ConstantPolicy {
        word: String::from("crane"),
    };
    let res = bot.evaluate(&policy, &backend, &corpus).unwrap();
    assert_eq!(res.per_game_guess_count, vec![1, 1, 1]);
    assert_eq!(res.total_guesses, 3);
    let mean = res.total_guesses as f64 / res.per_game_guess_count.len() as f64;
    assert_eq!(mean, 1.0);
}

#[test]
fn test_solved_games_get_sentinel_and_stay_correct() {
    let corpus = small_corpus();
    let backend = LocalGradingBackend::new(vec![String::from("crane"); 3]);
    let bot = UChicagoWordleBotBase::new(String::from("team"));
    let policy = CountingConstantPolicy {
        word: String::from("crane"),
        calls: Cell::new(0),
    };
    let res = bot.evaluate(&policy, &backend, &corpus).unwrap();
    // 10 preflight calls plus one call per game in round 1; solved games are
    // padded with the sentinel, never asked again.
    assert_eq!(policy.calls.get(), 10 + 3);
    for history in &res.histories {
        assert_eq!(history.len(), MAX_GUESSES);
        assert!(history[0].is_fully_correct());
        for r in 1..history.len() {
            assert_eq!(history[r].word, sentinel_guess());
            assert!(history[r].is_fully_correct());
        }
    }
}

#[test]
fn test_nondeterministic_policy_fails_before_any_round() {
    let corpus = small_corpus();
    let backend = LocalGradingBackend::new(vec![String::from("crane")]);
    let bot = UChicagoWordleBotBase::new(String::from("team"));
    let policy = AlternatingPolicy {
        calls: Cell::new(0),
    };
    let err = bot.evaluate(&policy, &backend, &corpus).unwrap_err();
    assert_eq!(err, WordleError::NonDeterministicPolicy);
    // The second preflight call already disagrees with the first; no round
    // ever invoked the policy.
    assert_eq!(policy.calls.get(), 2);
}

#[test]
fn test_never_solving_policy_is_unsolved_within_budget() {
    let corpus = small_corpus();
    let backend = LocalGradingBackend::new(vec![String::from("crane")]);
    let bot = UChicagoWordleBotBase::new(String::from("team"));
    let policy = ConstantPolicy {
        word: String::from("hello"),
    };
    let err = bot.evaluate(&policy, &backend, &corpus).unwrap_err();
    assert_eq!(err, WordleError::UnsolvedWithinBudget(0));
}

#[test]
fn test_invalid_guess_aborts_run() {
    let corpus = small_corpus();
    let backend = LocalGradingBackend::new(vec![String::from("crane")]);
    let bot = UChicagoWordleBotBase::new(String::from("team"));
    let policy = InvalidWordPolicy;
    let err = bot.evaluate(&policy, &backend, &corpus).unwrap_err();
    assert_eq!(err, WordleError::InvalidGuess(String::from("zzzzz")));
    assert!(err.message().contains("zzzzz"));
}

#[test]
fn test_batch_index_follows_target_index() {
    let corpus = small_corpus();
    let backend =
        LocalGradingBackend::new(vec![String::from("crane"), String::from("robot")]);
    let bot = UChicagoWordleBotBase::new(String::from("team"));
    let policy = SecondGuessPolicy;
    let res = bot.evaluate(&policy, &backend, &corpus).unwrap();
    assert_eq!(res.per_game_guess_count, vec![1, 2]);
    assert_eq!(res.total_guesses, 3);
}

#[test]
fn test_evaluate_on_word_counts_rounds() {
    let corpus = small_corpus();
    let bot = UChicagoWordleBotBase::new(String::from("team"));
    let policy = SequencePolicy {
        words: vec![
            String::from("hello"),
            String::from("world"),
            String::from("crane"),
        ],
    };
    let rounds = bot.evaluate_on_word(&policy, &corpus, "crane").unwrap();
    assert_eq!(rounds, 3);
}

#[test]
fn test_evaluate_on_word_rejects_non_corpus_guess() {
    let corpus = small_corpus();
    let bot = UChicagoWordleBotBase::new(String::from("team"));
    let policy = InvalidWordPolicy;
    let err = bot.evaluate_on_word(&policy, &corpus, "crane").unwrap_err();
    assert_eq!(err, WordleError::InvalidGuess(String::from("zzzzz")));
}

#[test]
fn test_evaluate_on_word_exhausts_budget() {
    let corpus = small_corpus();
    let bot = UChicagoWordleBotBase::new(String::from("team"));
    let policy = ConstantPolicy {
        word: String::from("hello"),
    };
    let err = bot.evaluate_on_word(&policy, &corpus, "crane").unwrap_err();
    assert!(matches!(err, WordleError::UnsolvedWithinBudget(_)));
}

#[test]
fn test_base_bot_has_no_policy_of_its_own() {
    let bot = UChicagoWordleBotBase::new(String::from("team"));
    let err = bot.guess(&Vec::new()).unwrap_err();
    assert_eq!(err, WordleError::PolicyFailure);
}
