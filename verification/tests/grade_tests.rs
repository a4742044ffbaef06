use wordle_tournament_lib::error::WordleError;
use wordle_tournament_lib::grade::{grade_guess, grade_guess_py};

#[test]
fn test_all_absent() {
    let result = grade_guess("crane", "built");
    assert_eq!(result.hints(), "XXXXX");
}

#[test]
fn test_all_correct() {
    let result = grade_guess("crane", "crane");
    assert_eq!(result.hints(), "OOOOO");
}

#[test]
fn test_duplicate_in_target_causes_present() {
    let result = grade_guess("roost", "robot");
    assert_eq!(result.hints(), "OO~XO");
}

#[test]
fn test_guess_has_more_duplicates_than_target() {
    let result = grade_guess("allee", "apple");
    assert_eq!(result.hints(), "O~XXO");
}

#[test]
fn test_no_matches() {
    let result = grade_guess("crane", "yummy");
    assert_eq!(result.hints(), "XXXXX");
}

#[test]
fn test_mixed_duplicates_and_correct() {
    let result = grade_guess("ABBEY", "BANAL");
    assert_eq!(result.hints(), "~~XXX");
}

#[test]
fn test_duplicate_correct_and_present_same_letter() {
    let result = grade_guess("array", "alarm");
    assert_eq!(result.hints(), "O~X~X");
}

#[test]
fn test_present_does_not_steal_from_correct() {
    let result = grade_guess("babee", "aback");
    assert_eq!(result.hints(), "~~XXX");
}

#[test]
fn test_grade_records_the_guess_word() {
    let result = grade_guess("crane", "built");
    assert_eq!(result.word, "crane");
}

#[test]
fn test_grade_is_deterministic_on_identical_inputs() {
    let first = grade_guess("allee", "apple");
    let second = grade_guess("allee", "apple");
    assert_eq!(first.hints(), second.hints());
    assert_eq!(first.word, second.word);
}

#[test]
fn test_grade_guess_py_accepts_valid_lengths() {
    let result = grade_guess_py(String::from("roost"), String::from("robot")).unwrap();
    assert_eq!(result.hints(), "OO~XO");
}

#[test]
fn test_grade_guess_py_rejects_short_guess() {
    let err = grade_guess_py(String::from("rock"), String::from("robot")).unwrap_err();
    assert_eq!(err, WordleError::InvalidInputLength);
}

#[test]
fn test_grade_guess_py_rejects_long_answer() {
    let err = grade_guess_py(String::from("roost"), String::from("robots")).unwrap_err();
    assert_eq!(err, WordleError::InvalidInputLength);
}
