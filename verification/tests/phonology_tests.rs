use vietflux::phonology::{VowelInfo, find_mark_position};
use vietflux::keys;

fn vowel(key: u16, pos: usize, has_tone: bool) -> VowelInfo {
    VowelInfo { key, pos, has_tone_mod: has_tone }
}

#[test]
fn test_single_vowel() {
    let vowels = vec![vowel(keys::A, 0, false)];
    assert_eq!(find_mark_position(&vowels, false, false, false, true), 0);
}

#[test]
fn test_ai_pattern() {
    let vowels = vec![vowel(keys::A, 0, false), vowel(keys::I, 1, false)];
    assert_eq!(find_mark_position(&vowels, false, false, false, true), 0);
}

#[test]
fn test_oa_modern() {
    let vowels = vec![vowel(keys::O, 0, false), vowel(keys::A, 1, false)];
    assert_eq!(find_mark_position(&vowels, false, false, false, true), 1);
}

#[test]
fn test_oa_traditional() {
    let vowels = vec![vowel(keys::O, 0, false), vowel(keys::A, 1, false)];
    assert_eq!(find_mark_position(&vowels, false, false, false, false), 0);
}

#[test]
fn test_with_final_consonant() {
    let vowels = vec![vowel(keys::O, 0, false), vowel(keys::A, 1, false)];
    assert_eq!(find_mark_position(&vowels, true, false, false, true), 1);
}
