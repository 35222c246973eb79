use vietflux::rules::{is_valid_initial, is_valid_final, is_valid_vowel_pattern};
use vietflux::keys;

#[test]
fn test_valid_initials() {
    assert!(is_valid_initial(&[keys::B]));
    assert!(is_valid_initial(&[keys::C, keys::H]));
    assert!(is_valid_initial(&[keys::N, keys::G, keys::H]));
    assert!(!is_valid_initial(&[keys::B, keys::L]));
}

#[test]
fn test_valid_finals() {
    assert!(is_valid_final(&[]));
    assert!(is_valid_final(&[keys::N]));
    assert!(is_valid_final(&[keys::N, keys::G]));
    assert!(!is_valid_final(&[keys::B]));
}

#[test]
fn test_valid_vowels() {
    assert!(is_valid_vowel_pattern(&[keys::A]));
    assert!(is_valid_vowel_pattern(&[keys::A, keys::I]));
    assert!(is_valid_vowel_pattern(&[keys::O, keys::A, keys::I]));
}
