use vietflux::unicode::{compose_char, decompose_char};
use vietflux::keys;
use vietflux::mark;
use vietflux::tone;

#[test]
fn test_compose_basic() {
    assert_eq!(compose_char(keys::A, false, 0, 0), Some('a'));
    assert_eq!(compose_char(keys::A, true, 0, 0), Some('A'));
}

#[test]
fn test_compose_with_tone() {
    assert_eq!(compose_char(keys::A, false, tone::CIRCUMFLEX, 0), Some('â'));
    assert_eq!(compose_char(keys::O, false, tone::HORN, 0), Some('ơ'));
    assert_eq!(compose_char(keys::U, false, tone::HORN, 0), Some('ư'));
}

#[test]
fn test_compose_with_mark() {
    assert_eq!(compose_char(keys::A, false, 0, mark::ACUTE), Some('á'));
    assert_eq!(compose_char(keys::A, false, 0, mark::GRAVE), Some('à'));
    assert_eq!(compose_char(keys::A, false, tone::CIRCUMFLEX, mark::ACUTE), Some('ấ'));
}

#[test]
fn test_decompose() {
    let c = decompose_char('á').unwrap();
    assert_eq!(c.key, keys::A);
    assert_eq!(c.mark_type, mark::ACUTE);

    let c = decompose_char('ấ').unwrap();
    assert_eq!(c.key, keys::A);
    assert_eq!(c.tone_mod, tone::CIRCUMFLEX);
    assert_eq!(c.mark_type, mark::ACUTE);
}
