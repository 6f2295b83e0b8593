use indicator_sync::text::{any_lowercase, chars_of, contains, contains_char, same_text};

#[test]
fn characters_of_a_text() {
    assert_eq!(chars_of("a-ß€"), vec!['a', '-', 'ß', '€']);
    assert!(chars_of("").is_empty());
}

#[test]
fn texts_are_compared_by_their_characters() {
    assert!(same_text("FRED", "FRED"));
    assert!(!same_text("FRED", "FRED "));
    assert!(!same_text("FRED", "FREd"));
    assert!(same_text("", ""));
    assert!(!same_text("", "x"));
}

#[test]
fn containment_is_by_neighbouring_characters() {
    assert!(contains("HTTP 429 Too Many Requests", "429"));
    assert!(contains("429", "429"));
    assert!(contains("x429", "429"));
    assert!(!contains("42 9", "429"));
    assert!(!contains("42", "429"));
    assert!(contains("anything", ""));
    assert!(contains("", ""));
    assert!(!contains("", "a"));
    assert!(contains("aab", "ab"));
    assert!(contains("Daily Limit Reached", "Limit Reached"));
    assert!(!contains("Limit  Reached", "Limit Reached"));
    assert!(contains("préfixe 403", "403"));
}

#[test]
fn single_characters_are_found() {
    assert!(contains_char("BTC-USD", '-'));
    assert!(!contains_char("BTCUSD", '-'));
    assert!(!contains_char("", '-'));
}

#[test]
fn lowercase_letters_of_any_script_count() {
    assert!(any_lowercase("DGS10x"));
    assert!(!any_lowercase("DGS10X"));
    assert!(!any_lowercase("1234_-"));
    assert!(any_lowercase("Δδ"));
    assert!(!any_lowercase("ΔΣ"));
    assert!(!any_lowercase(""));
}
