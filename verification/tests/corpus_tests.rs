use wordle_tournament_lib::common::WORD_LENGTH;
use wordle_tournament_lib::corpus::{get_corpus, get_grading_answer_key, is_valid_word, Corpus};

#[test]
fn test_corpus_loads() {
    let corpus = get_corpus();
    assert!(!corpus.is_empty(), "Corpus should not be empty");
    assert!(corpus.len() > 1000, "Corpus should have many words");
}

#[test]
fn test_all_words_correct_length() {
    let corpus = get_corpus();
    for word in corpus.words() {
        assert_eq!(
            word.len(),
            WORD_LENGTH,
            "Word '{}' is not {} letters",
            word,
            WORD_LENGTH
        );
    }
}

#[test]
fn test_is_valid_word() {
    assert!(is_valid_word("crane"));
    assert!(is_valid_word("hello"));
    assert!(!is_valid_word("zzzzz"));
    assert!(!is_valid_word("notinlist"));
}

#[test]
fn test_case_sensitive() {
    // Assuming corpus is lowercase
    assert!(is_valid_word("crane"));
    assert!(!is_valid_word("CRANE"));
}

#[test]
fn test_corpus_and_key_are_fixed_across_calls() {
    assert_eq!(get_corpus().words(), get_corpus().words());
    assert_eq!(get_grading_answer_key(), get_grading_answer_key());
}

#[test]
fn test_answer_key_words_are_word_length() {
    let key = get_grading_answer_key();
    assert!(!key.is_empty());
    for word in &key {
        assert_eq!(word.len(), WORD_LENGTH);
    }
}

#[test]
fn test_corpus_new_keeps_only_word_length_entries() {
    let corpus = Corpus::new(vec![
        String::from("crane"),
        String::from("toolong"),
        String::from("hi"),
        String::from("hello"),
    ]);
    assert_eq!(corpus.len(), 2);
    assert!(corpus.contains_word("crane"));
    assert!(corpus.contains_word("hello"));
    assert!(!corpus.contains_word("toolong"));
}
