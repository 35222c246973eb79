use vietflux::methods::{InputMethod, KeyAction, Telex};
use vietflux::chars::{ToneMark, VowelMod};

#[test]
fn test_telex_tones() {
    let telex = Telex;
    assert_eq!(telex.process('s', None), KeyAction::Tone(ToneMark::Acute));
    assert_eq!(telex.process('f', None), KeyAction::Tone(ToneMark::Grave));
    assert_eq!(telex.process('r', None), KeyAction::Tone(ToneMark::Hook));
    assert_eq!(telex.process('x', None), KeyAction::Tone(ToneMark::Tilde));
    assert_eq!(telex.process('j', None), KeyAction::Tone(ToneMark::Dot));
}

#[test]
fn telex_test_telex_circumflex() {
    let telex = Telex;
    assert_eq!(
        telex.process('a', Some('a')),
        KeyAction::Modifier(VowelMod::Circumflex)
    );
    assert_eq!(
        telex.process('e', Some('e')),
        KeyAction::Modifier(VowelMod::Circumflex)
    );
    assert_eq!(
        telex.process('o', Some('o')),
        KeyAction::Modifier(VowelMod::Circumflex)
    );
}

#[test]
fn test_telex_horn_breve() {
    let telex = Telex;
    assert_eq!(
        telex.process('w', Some('a')),
        KeyAction::Modifier(VowelMod::Breve)
    );
    assert_eq!(
        telex.process('w', Some('o')),
        KeyAction::Modifier(VowelMod::Horn)
    );
    assert_eq!(
        telex.process('w', Some('u')),
        KeyAction::Modifier(VowelMod::Horn)
    );
}

#[test]
fn test_telex_stroke() {
    let telex = Telex;
    assert_eq!(telex.process('d', Some('d')), KeyAction::Stroke);
}

#[test]
fn test_telex_quick_telex() {
    let telex = Telex;
    assert_eq!(telex.process('c', Some('c')), KeyAction::QuickTelex('c', 'h'));
    assert_eq!(telex.process('g', Some('g')), KeyAction::QuickTelex('g', 'h'));
    assert_eq!(telex.process('n', Some('n')), KeyAction::QuickTelex('n', 'h'));
    assert_eq!(telex.process('p', Some('p')), KeyAction::QuickTelex('p', 'h'));
    assert_eq!(telex.process('t', Some('t')), KeyAction::QuickTelex('t', 'h'));
    assert_eq!(telex.process('q', Some('q')), KeyAction::QuickTelex('q', 'u'));
    assert_eq!(telex.process('k', Some('k')), KeyAction::QuickTelex('k', 'h'));
}
