use vietflux::keycodes::{is_vowel, is_consonant, from_char, to_char};
use vietflux::keys;

#[test]
fn test_vowel_detection() {
    assert!(is_vowel(keys::A));
    assert!(is_vowel(keys::E));
    assert!(is_vowel(keys::I));
    assert!(is_vowel(keys::O));
    assert!(is_vowel(keys::U));
    assert!(is_vowel(keys::Y));
    assert!(!is_vowel(keys::B));
    assert!(!is_vowel(keys::D));
}

#[test]
fn test_consonant_detection() {
    assert!(is_consonant(keys::B));
    assert!(is_consonant(keys::C));
    assert!(is_consonant(keys::D));
    assert!(!is_consonant(keys::A));
    assert!(!is_consonant(keys::E));
}

#[test]
fn test_char_conversion() {
    assert_eq!(from_char('a'), Some(keys::A));
    assert_eq!(from_char('A'), Some(keys::A));
    assert_eq!(to_char(keys::A, false), Some('a'));
    assert_eq!(to_char(keys::A, true), Some('A'));
}
