use vietflux::chars::{is_vowel, with_tone, with_modifier, ToneMark, VowelMod};

#[test]
fn test_is_vowel() {
    assert!(is_vowel('a'));
    assert!(is_vowel('ă'));
    assert!(is_vowel('ấ'));
    assert!(!is_vowel('b'));
}

#[test]
fn test_with_tone() {
    assert_eq!(with_tone('a', ToneMark::Acute), Some('á'));
    assert_eq!(with_tone('â', ToneMark::Grave), Some('ầ'));
    assert_eq!(with_tone('A', ToneMark::Acute), Some('Á'));
}

#[test]
fn test_with_modifier() {
    assert_eq!(with_modifier('a', VowelMod::Circumflex), Some('â'));
    assert_eq!(with_modifier('á', VowelMod::Circumflex), Some('ấ'));
    assert_eq!(with_modifier('o', VowelMod::Horn), Some('ơ'));
}
