use vietflux::transform::{
    apply_tone, apply_modifier, remove_diacritics, toggle_stroke, find_tone_position,
    find_vowel_indices, apply_uo_compound, should_undo_tone,
};
use vietflux::chars::{ToneMark, VowelMod};

#[test]
fn test_apply_tone() {
    assert_eq!(apply_tone('a', ToneMark::Acute), Some('á'));
    assert_eq!(apply_tone('â', ToneMark::Grave), Some('ầ'));
    assert_eq!(apply_tone('A', ToneMark::Tilde), Some('Ã'));
}

#[test]
fn test_apply_modifier() {
    assert_eq!(apply_modifier('a', VowelMod::Circumflex), Some('â'));
    assert_eq!(apply_modifier('o', VowelMod::Horn), Some('ơ'));
    assert_eq!(apply_modifier('a', VowelMod::Breve), Some('ă'));
}

#[test]
fn test_remove_diacritics() {
    assert_eq!(remove_diacritics('á'), 'a');
    assert_eq!(remove_diacritics('ầ'), 'a');
    assert_eq!(remove_diacritics('đ'), 'd');
    assert_eq!(remove_diacritics('Đ'), 'D');
}

#[test]
fn test_toggle_stroke() {
    assert_eq!(toggle_stroke('d'), 'đ');
    assert_eq!(toggle_stroke('đ'), 'd');
    assert_eq!(toggle_stroke('D'), 'Đ');
}

#[test]
fn test_tone_position_single() {
    let chars: Vec<char> = "van".chars().collect();
    let vowels = find_vowel_indices(&chars);
    assert_eq!(find_tone_position(&chars, &vowels, true), Some(1));
}

#[test]
fn test_tone_position_two() {
    let chars: Vec<char> = "tien".chars().collect();
    let vowels = find_vowel_indices(&chars);
    assert_eq!(find_tone_position(&chars, &vowels, true), Some(2));
}

#[test]
fn test_tone_position_three() {
    let chars: Vec<char> = "uyen".chars().collect();
    let vowels = find_vowel_indices(&chars);
    assert_eq!(find_tone_position(&chars, &vowels, true), Some(1));
}

#[test]
fn test_tone_position_final_and_style() {
    // A final consonant forces the last vowel regardless of the pair.
    let chars: Vec<char> = "oan".chars().collect();
    let vowels = find_vowel_indices(&chars);
    assert_eq!(find_tone_position(&chars, &vowels, true), Some(1));
    assert_eq!(find_tone_position(&chars, &vowels, false), Some(1));

    // Without one, oa follows the placement style.
    let chars: Vec<char> = "hoa".chars().collect();
    let vowels = find_vowel_indices(&chars);
    assert_eq!(find_tone_position(&chars, &vowels, true), Some(2));
    assert_eq!(find_tone_position(&chars, &vowels, false), Some(1));
}

#[test]
fn test_should_undo() {
    assert!(should_undo_tone('á', ToneMark::Acute));
    assert!(!should_undo_tone('á', ToneMark::Grave));
    assert!(!should_undo_tone('a', ToneMark::Acute));
}

#[test]
fn test_uo_compound() {
    let mut chars: Vec<char> = "duoc".chars().collect();
    let result = apply_uo_compound(&mut chars, 1);
    assert!(result.success);
    assert_eq!(chars[1], 'ư');
    assert_eq!(chars[2], 'ơ');
}
