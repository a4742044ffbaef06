use wordle_tournament_lib::error::WordleError;
use wordle_tournament_lib::hint::{HintType, WordleHint};

#[test]
fn test_to_char_markers() {
    assert_eq!(HintType::Correct.to_char(), 'O');
    assert_eq!(HintType::Present.to_char(), '~');
    assert_eq!(HintType::Absent.to_char(), 'X');
}

#[test]
fn test_new_hint_round_trips_markers() {
    let h = WordleHint::new_hint(String::from("crane"), String::from("O~XO~")).unwrap();
    assert_eq!(h.word, "crane");
    assert_eq!(h.hints(), "O~XO~");
}

#[test]
fn test_new_hint_rejects_wrong_word_length() {
    let err = WordleHint::new_hint(String::from("cranes"), String::from("OOOOO")).unwrap_err();
    assert_eq!(err, WordleError::InvalidInputLength);
}

#[test]
fn test_new_hint_rejects_mismatched_hint_length() {
    let err = WordleHint::new_hint(String::from("crane"), String::from("OOOO")).unwrap_err();
    assert_eq!(err, WordleError::InvalidInputLength);
}

#[test]
fn test_new_hint_rejects_invalid_marker() {
    let err = WordleHint::new_hint(String::from("crane"), String::from("OOZOO")).unwrap_err();
    assert_eq!(err, WordleError::InvalidHintCharacter);
}

#[test]
fn test_new_all_correct_is_fully_correct() {
    let h = WordleHint::new_all_correct(String::from("crane"));
    assert!(h.is_fully_correct());
    assert_eq!(h.hints(), "OOOOO");
}

#[test]
fn test_is_fully_correct_rejects_partial() {
    let h = WordleHint::new_hint(String::from("crane"), String::from("OOOO~")).unwrap();
    assert!(!h.is_fully_correct());
}

#[test]
fn test_word_hint_pairs_zips_letters_with_markers() {
    let h = WordleHint::new_hint(String::from("crane"), String::from("O~XXO")).unwrap();
    assert_eq!(
        h.word_hint_pairs(),
        vec![('c', 'O'), ('r', '~'), ('a', 'X'), ('n', 'X'), ('e', 'O')]
    );
}

#[test]
fn test_visualize_hint_two_lines() {
    let h = WordleHint::new_hint(String::from("crane"), String::from("O~XXO")).unwrap();
    assert_eq!(h.visualize_hint(), "C R A N E\n🟩 🟨 ⬜ ⬜ 🟩");
}

#[test]
fn test_error_messages_are_nonempty() {
    assert!(!WordleError::InvalidGuess(String::from("zzzzz")).message().is_empty());
    assert!(!WordleError::UnsolvedWithinBudget(3).message().is_empty());
    assert!(!WordleError::NonDeterministicPolicy.message().is_empty());
    assert!(!WordleError::BackendProtocolError.message().is_empty());
}
