use vietflux::validator::is_valid;
use vietflux::keycodes::from_char;

fn keys_from_str(s: &str) -> Vec<u16> {
    s.chars().filter_map(from_char).collect()
}

#[test]
fn validator_test_valid_syllables() {
    assert!(is_valid(&keys_from_str("ba")));
    assert!(is_valid(&keys_from_str("an")));
    assert!(is_valid(&keys_from_str("em")));
    assert!(is_valid(&keys_from_str("viet")));
    assert!(is_valid(&keys_from_str("nam")));
}

#[test]
fn test_invalid_no_vowel() {
    assert!(!is_valid(&keys_from_str("bcd")));
    assert!(!is_valid(&keys_from_str("xyz")));
}

#[test]
fn test_invalid_initial() {
    assert!(!is_valid(&keys_from_str("bla")));
    assert!(!is_valid(&keys_from_str("clau")));
}

#[test]
fn validator_test_spelling_rules() {
    assert!(!is_valid(&keys_from_str("ci")));
    assert!(!is_valid(&keys_from_str("ce")));
    assert!(is_valid(&keys_from_str("ki")));
    assert!(is_valid(&keys_from_str("ke")));
}
