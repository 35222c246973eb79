use vietflux::validation::{
    is_valid_syllable, is_foreign_word_pattern, check_spelling_rules, is_word_boundary,
};

#[test]
fn validation_test_valid_syllables() {
    assert!(is_valid_syllable("an"));
    assert!(is_valid_syllable("em"));
    assert!(is_valid_syllable("anh"));
    assert!(is_valid_syllable("nam"));
    assert!(is_valid_syllable("xin"));
}

#[test]
fn test_invalid_syllables() {
    assert!(!is_valid_syllable("xyz"));
    assert!(!is_valid_syllable("bcd"));
    assert!(!is_valid_syllable("mmm"));
}

#[test]
fn test_foreign_word_detection() {
    assert!(is_foreign_word_pattern("programming", None));
    assert!(is_foreign_word_pattern("describe", Some('s')));
    assert!(is_foreign_word_pattern("spectrum", None));
    assert!(!is_foreign_word_pattern("việt", None));
    assert!(!is_foreign_word_pattern("xin", None));
}

#[test]
fn validation_test_spelling_rules() {
    assert!(check_spelling_rules("c", "a"));
    assert!(!check_spelling_rules("c", "e"));
    assert!(check_spelling_rules("k", "e"));

    assert!(check_spelling_rules("g", "a"));
    assert!(!check_spelling_rules("g", "e"));
    assert!(check_spelling_rules("gh", "e"));
}

#[test]
fn test_word_boundary() {
    assert!(is_word_boundary(' '));
    assert!(is_word_boundary('.'));
    assert!(is_word_boundary('='));
    assert!(is_word_boundary('{'));
    assert!(!is_word_boundary('a'));
}

#[test]
fn test_ethnic_minority_k_final() {
    assert!(is_valid_syllable("đắk"));
    assert!(is_valid_syllable("lắk"));
    assert!(is_valid_syllable("búk"));
}

#[test]
fn test_new_triphthongs() {
    assert!(is_valid_syllable("khuỷu"));
    assert!(is_valid_syllable("nguều"));
    assert!(is_valid_syllable("ngoào"));
}

#[test]
fn test_breve_followed_by_vowel_invalid() {
    assert!(!is_valid_syllable("tăi"));
    assert!(!is_valid_syllable("băo"));
    assert!(!is_valid_syllable("tău"));

    assert!(is_valid_syllable("ăn"));
    assert!(is_valid_syllable("tăm"));
    assert!(is_valid_syllable("tắc"));

    assert!(is_valid_syllable("xoăn"));
}

#[test]
fn test_english_pattern_w_initial() {
    assert!(is_foreign_word_pattern("wn", None));
    assert!(is_foreign_word_pattern("wr", None));
    assert!(is_foreign_word_pattern("wl", None));
}

#[test]
fn test_english_pattern_ei_pair() {
    assert!(is_foreign_word_pattern("their", None));
    assert!(is_foreign_word_pattern("weird", None));
    assert!(is_foreign_word_pattern("receive", None));
}

#[test]
fn test_english_pattern_f_initial() {
    assert!(is_foreign_word_pattern("fix", None));
    assert!(is_foreign_word_pattern("file", None));
    assert!(is_foreign_word_pattern("focus", None));
}

#[test]
fn test_english_pattern_w_final() {
    assert!(is_foreign_word_pattern("raw", None));
    assert!(is_foreign_word_pattern("law", None));
    assert!(is_foreign_word_pattern("saw", None));
}

#[test]
fn test_english_pattern_p_ai() {
    assert!(is_foreign_word_pattern("pair", None));
    assert!(is_foreign_word_pattern("paint", None));
}

#[test]
fn test_english_pattern_double_oo() {
    assert!(is_foreign_word_pattern("look", None));
    assert!(is_foreign_word_pattern("took", None));
    assert!(is_foreign_word_pattern("book", None));
}
