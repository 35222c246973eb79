use vietflux::methods::{InputMethod, KeyAction, Vni};
use vietflux::chars::{ToneMark, VowelMod};

#[test]
fn test_vni_tones() {
    let vni = Vni;
    assert_eq!(vni.process('1', None), KeyAction::Tone(ToneMark::Acute));
    assert_eq!(vni.process('2', None), KeyAction::Tone(ToneMark::Grave));
    assert_eq!(vni.process('3', None), KeyAction::Tone(ToneMark::Hook));
    assert_eq!(vni.process('4', None), KeyAction::Tone(ToneMark::Tilde));
    assert_eq!(vni.process('5', None), KeyAction::Tone(ToneMark::Dot));
}

#[test]
fn test_vni_modifiers() {
    let vni = Vni;
    assert_eq!(vni.process('6', None), KeyAction::Modifier(VowelMod::Circumflex));
    assert_eq!(vni.process('7', None), KeyAction::Modifier(VowelMod::Horn));
    assert_eq!(vni.process('8', None), KeyAction::Modifier(VowelMod::Breve));
}

#[test]
fn test_vni_stroke() {
    let vni = Vni;
    assert_eq!(vni.process('9', Some('d')), KeyAction::Stroke);
    assert_eq!(vni.process('9', Some('a')), KeyAction::Ordinary);
}
