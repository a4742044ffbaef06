use wordle_tournament_lib::backend::{decode_hint_batch, GradingBackend, LocalGradingBackend};
use wordle_tournament_lib::common::sentinel_guess;
use wordle_tournament_lib::error::WordleError;

#[test]
fn test_local_backend_grades_each_guess_against_its_target() {
    let backend = LocalGradingBackend::new(vec![String::from("crane"), String::from("robot")]);
    assert_eq!(backend.num_targets(), 2);
    let hints = backend
        .grade_batch(&vec![String::from("crane"), String::from("roost")])
        .unwrap();
    assert_eq!(hints.len(), 2);
    assert_eq!(hints[0].hints(), "OOOOO");
    assert_eq!(hints[1].hints(), "OO~XO");
}

#[test]
fn test_local_backend_maps_sentinel_to_all_correct() {
    let backend = LocalGradingBackend::new(vec![String::from("crane")]);
    let hints = backend.grade_batch(&vec![sentinel_guess()]).unwrap();
    assert_eq!(hints.len(), 1);
    assert!(hints[0].is_fully_correct());
    assert_eq!(hints[0].word, sentinel_guess());
}

#[test]
fn test_local_backend_start_and_end_never_fail() {
    let backend = LocalGradingBackend::new(vec![String::from("crane")]);
    assert!(backend.start("team").is_ok());
    assert!(backend.end("team").is_ok());
}

#[test]
fn test_decode_hint_batch_decodes_markers() {
    let guesses = vec![String::from("crane"), String::from("roost")];
    let hint_strs = vec![String::from("XXXXX"), String::from("OO~XO")];
    let hints = decode_hint_batch(&guesses, &hint_strs).unwrap();
    assert_eq!(hints.len(), 2);
    assert_eq!(hints[0].hints(), "XXXXX");
    assert_eq!(hints[0].word, "crane");
    assert_eq!(hints[1].hints(), "OO~XO");
}

#[test]
fn test_decode_hint_batch_replaces_sentinel_with_all_correct() {
    let guesses = vec![sentinel_guess()];
    let hint_strs = vec![String::from("XXXXX")];
    let hints = decode_hint_batch(&guesses, &hint_strs).unwrap();
    assert!(hints[0].is_fully_correct());
}

#[test]
fn test_decode_hint_batch_rejects_mismatched_lengths() {
    let guesses = vec![String::from("crane"), String::from("roost")];
    let hint_strs = vec![String::from("XXXXX")];
    let err = decode_hint_batch(&guesses, &hint_strs).unwrap_err();
    assert_eq!(err, WordleError::BackendProtocolError);
}

#[test]
fn test_decode_hint_batch_rejects_invalid_marker() {
    let guesses = vec![String::from("crane")];
    let hint_strs = vec![String::from("XXAXX")];
    let err = decode_hint_batch(&guesses, &hint_strs).unwrap_err();
    assert_eq!(err, WordleError::BackendProtocolError);
}
