//! End-to-end runs of the engine over whole key sequences, and concrete
//! checks of the library's stated properties.

use vietflux::engine::{Engine, Action};
use vietflux::chars::{compose, VietChar, ToneMark, VowelMod};
use vietflux::transform::remove_diacritics;
use vietflux::unicode::{compose_char, decompose_char};
use vietflux::validator;
use vietflux::validation;
use vietflux::keycodes::from_char;
use vietflux::keys;

fn type_word(engine: &mut Engine, word: &str) {
    for c in word.chars() {
        engine.process_key(c, false);
    }
}

#[test]
fn viet_then_tone_then_commit() {
    let mut engine = Engine::new();
    engine.set_options(false, false, true);

    type_word(&mut engine, "viet");
    assert_eq!(engine.get_buffer(), "viet");

    engine.process_key('j', false);
    assert_eq!(engine.get_buffer(), "việt");

    let result = engine.process_key(' ', false);
    assert_eq!(result.action, Action::Commit);
    assert_eq!(result.output, "việt ");
    assert_eq!(engine.get_buffer(), "");
}

#[test]
fn hoa_modern_and_traditional() {
    let mut engine = Engine::new();
    engine.set_options(false, false, true);
    type_word(&mut engine, "hoaf");
    assert_eq!(engine.get_buffer(), "hoà");

    let mut engine = Engine::new();
    engine.set_options(false, false, true);
    engine.set_modern_style(false);
    type_word(&mut engine, "hoaf");
    assert_eq!(engine.get_buffer(), "hòa");
}

#[test]
fn duoc_compound_then_tone() {
    let mut engine = Engine::new();
    engine.set_options(false, false, true);
    type_word(&mut engine, "duowc");
    assert_eq!(engine.get_buffer(), "dươc");

    engine.process_key('j', false);
    assert_eq!(engine.get_buffer(), "dược");
}

#[test]
fn double_press_cancels_tone() {
    let mut engine = Engine::new();
    engine.set_options(false, false, true);

    engine.process_key('a', false);
    engine.process_key('s', false);
    assert_eq!(engine.get_buffer(), "á");

    engine.process_key('s', false);
    assert_eq!(engine.get_buffer(), "as");
}

#[test]
fn stroke_preserves_case() {
    let mut engine = Engine::new();
    engine.set_options(false, false, true);

    engine.process_key('D', false);
    engine.process_key('D', false);
    assert_eq!(engine.get_buffer(), "Đ");
}

#[test]
fn vni_digit_after_consonant_stays_literal() {
    let mut engine = Engine::new();
    engine.set_options(false, false, true);
    engine.set_method("vni");

    type_word(&mut engine, "var1");
    assert_eq!(engine.get_buffer(), "var1");
}

#[test]
fn vni_digit_after_vowel_places_tone() {
    let mut engine = Engine::new();
    engine.set_options(false, false, true);
    engine.set_method("vni");

    type_word(&mut engine, "ba1");
    assert_eq!(engine.get_buffer(), "bá");
}

#[test]
fn default_shortcut_expands_at_boundary() {
    let mut engine = Engine::new();
    engine.set_options(false, false, true);

    type_word(&mut engine, "ko");
    let result = engine.process_key(' ', false);
    assert_eq!(result.output, "không ");
    assert_eq!(engine.get_buffer(), "");
}

#[test]
fn prefixed_shortcut_expands_with_backspace() {
    let mut engine = Engine::new();
    engine.set_options(false, false, true);
    engine.add_shortcut("#vn", "Việt Nam");

    engine.process_key('#', false);
    engine.process_key('v', false);
    engine.process_key('n', false);
    let result = engine.process_key(' ', false);
    assert_eq!(result.output, "Việt Nam ");
    assert_eq!(result.backspace, 3);
    assert_eq!(engine.get_buffer(), "");
}

#[test]
fn hello_is_not_turned_vietnamese() {
    let mut engine = Engine::new();
    engine.set_options(false, false, true);

    type_word(&mut engine, "hello");
    assert_eq!(engine.get_buffer(), "hello");
    assert_eq!(engine.get_raw_buffer(), "hello");

    let result = engine.process_key(' ', false);
    assert_eq!(result.output, "hello ");
    assert_eq!(engine.get_buffer(), "");
}

#[test]
fn foreign_gate_degrades_transforms() {
    let mut engine = Engine::new();
    engine.set_options(false, false, true);

    // A leading f marks the word foreign; the later tone key must then be
    // taken literally.
    type_word(&mut engine, "fas");
    assert_eq!(engine.get_buffer(), "fas");
}

#[test]
fn auto_capitalize_after_sentence_end() {
    let mut engine = Engine::new();
    engine.set_options(true, false, true);

    let result = engine.process_key('h', false);
    assert_eq!(result.output, "H");
    engine.process_key('i', false);
    engine.process_key('.', false);
    engine.process_key(' ', false);
    let result = engine.process_key('t', false);
    assert_eq!(result.output, "T");
}

#[test]
fn smart_quotes_open_and_close() {
    let mut engine = Engine::new();
    engine.set_options(false, true, true);

    let result = engine.process_key('"', false);
    assert_eq!(result.output, "\u{201c}");
    engine.process_key('a', false);
    let result = engine.process_key('"', false);
    assert!(result.output.ends_with("\u{201d}"));

    let mut engine = Engine::new();
    engine.set_options(false, true, true);
    let result = engine.process_key('\'', false);
    assert_eq!(result.output, "\u{2018}");
}

#[test]
fn buffer_channels_stay_equal_and_bounded() {
    let mut engine = Engine::new();
    engine.set_options(false, false, false);

    for _ in 0..40 {
        engine.process_key('m', false);
    }
    let current: Vec<char> = engine.get_buffer().chars().collect();
    let raw: Vec<char> = engine.get_raw_buffer().chars().collect();
    assert_eq!(current.len(), raw.len());
    assert!(current.len() <= 32);
}

#[test]
fn updates_mirror_the_buffer() {
    let mut engine = Engine::new();
    engine.set_options(false, false, true);

    let mut screen = String::new();
    for c in "duowcj".chars() {
        let result = engine.process_key(c, false);
        assert_eq!(result.action, Action::Update);
        let kept: String = {
            let chars: Vec<char> = screen.chars().collect();
            chars[..chars.len() - result.backspace].iter().collect()
        };
        screen = format!("{}{}", kept, result.output);
        assert_eq!(screen, engine.get_buffer());
    }
    assert_eq!(screen, "dược");
}

#[test]
fn edit_scripts_are_minimal() {
    let mut engine = Engine::new();
    engine.set_options(false, false, true);

    // Typing a fresh character erases nothing.
    let result = engine.process_key('d', false);
    assert_eq!(result.backspace, 0);
    assert_eq!(result.output, "d");

    // A tone on the first vowel of a pair rewrites only the changed tail.
    engine.process_key('u', false);
    engine.process_key('o', false);
    let result = engine.process_key('w', false);
    assert_eq!(result.backspace, 2);
    assert_eq!(result.output, "ươ");
}

#[test]
fn commit_resets_the_word_state() {
    let mut engine = Engine::new();
    engine.set_options(false, false, true);

    type_word(&mut engine, "fax");
    engine.process_key(' ', false);
    assert_eq!(engine.get_buffer(), "");

    // The foreign flag died with the word: a tone in the next word works.
    type_word(&mut engine, "bas");
    assert_eq!(engine.get_buffer(), "bá");
}

#[test]
fn strip_recovers_the_base_letter() {
    for &(base, modifier, tone) in &[
        ('a', VowelMod::Circumflex, ToneMark::Acute),
        ('a', VowelMod::Breve, ToneMark::Tilde),
        ('e', VowelMod::Circumflex, ToneMark::Dot),
        ('o', VowelMod::Horn, ToneMark::Grave),
        ('u', VowelMod::Horn, ToneMark::Hook),
        ('i', VowelMod::Plain, ToneMark::Acute),
        ('y', VowelMod::Plain, ToneMark::Dot),
    ] {
        let composed = compose(base, modifier, tone).unwrap();
        assert_eq!(remove_diacritics(composed), base);
    }
}

#[test]
fn compose_then_decompose_round_trips() {
    let composed = compose_char(keys::U, false, 2, 5).unwrap();
    assert_eq!(composed, 'ự');
    let comp = decompose_char(composed).unwrap();
    assert_eq!(comp.key, keys::U);
    assert!(!comp.uppercase);
    assert_eq!(comp.tone_mod, 2);
    assert_eq!(comp.mark_type, 5);

    let decomp = vietflux::chars::decomp('ữ').unwrap();
    assert_eq!(
        decomp,
        VietChar { base: 'u', modifier: VowelMod::Horn, tone: ToneMark::Tilde }
    );
}

fn keys_of(s: &str) -> Vec<u16> {
    s.chars().filter_map(from_char).collect()
}

#[test]
fn validator_reports_each_failure_class() {
    assert_eq!(validator::validate_keys(&keys_of("nam")), validator::ValidationResult::Valid);
    assert_eq!(validator::validate_keys(&keys_of("bcd")), validator::ValidationResult::NoVowel);
    assert_eq!(
        validator::validate_keys(&keys_of("bla")),
        validator::ValidationResult::InvalidInitial
    );
    assert_eq!(
        validator::validate_keys(&keys_of("bab")),
        validator::ValidationResult::InvalidFinal
    );
    assert_eq!(
        validator::validate_keys(&keys_of("ci")),
        validator::ValidationResult::InvalidSpelling
    );
    assert_eq!(
        validator::validate_keys(&keys_of("caia")),
        validator::ValidationResult::InvalidVowelPattern
    );
}

#[test]
fn char_validator_reports_failure_classes() {
    assert_eq!(validation::validate("nam"), validation::ValidationResult::Valid);
    assert_eq!(validation::validate(""), validation::ValidationResult::NoVowel);
    assert_eq!(validation::validate("bcd"), validation::ValidationResult::NoVowel);
    assert_eq!(validation::validate("hello"), validation::ValidationResult::ForeignWord);
    assert_eq!(validation::validate("mxa"), validation::ValidationResult::InvalidSpelling);
    assert_eq!(validation::validate("tăi"), validation::ValidationResult::InvalidVowelPattern);
}

#[test]
fn quick_telex_expands_doubled_consonants() {
    let mut engine = Engine::new();
    engine.set_options(false, false, false);

    engine.process_key('c', false);
    engine.process_key('c', false);
    assert_eq!(engine.get_buffer(), "ch");
}

#[test]
fn remove_diacritics_key_strips_the_word() {
    let mut engine = Engine::new();
    engine.set_options(false, false, true);

    type_word(&mut engine, "viets");
    assert_eq!(engine.get_buffer(), "viết");
    engine.process_key('z', false);
    assert_eq!(engine.get_buffer(), "viet");
}

#[test]
fn backspace_models_external_erase() {
    let mut engine = Engine::new();
    engine.set_options(false, false, true);

    type_word(&mut engine, "viet");
    let prior = engine.backspace();
    assert_eq!(prior, 4);
    assert_eq!(engine.get_buffer(), "vie");
}

#[test]
fn disabled_engine_passes_keys_through() {
    let mut engine = Engine::new();
    engine.set_options(false, false, true);
    engine.set_enabled(false);

    let result = engine.process_key('a', false);
    assert_eq!(result.action, Action::Passthrough);
    assert_eq!(result.output, "");
    assert_eq!(result.backspace, 0);
    assert_eq!(engine.get_buffer(), "");
}

#[test]
fn restore_returns_raw_keystrokes() {
    let mut engine = Engine::new();
    engine.set_options(false, false, true);

    // A doubled o turns into a circumflex, but the nucleus it makes is
    // not Vietnamese; the boundary restores the raw keys.
    type_word(&mut engine, "aoo");
    assert_eq!(engine.get_buffer(), "aô");
    let result = engine.process_key(' ', false);
    assert_eq!(result.action, Action::Restore);
    assert!(result.restored);
    assert_eq!(result.output, "ao ");
    assert_eq!(result.backspace, 2);
    assert_eq!(engine.get_buffer(), "");
}

#[test]
fn plain_commit_drops_pending_prefix() {
    let mut engine = Engine::new();
    engine.set_options(false, false, true);

    // The sigil passes through, but the word that follows is no shortcut;
    // the plain commit must still forget the sigil, so the next word is
    // matched without it.
    engine.process_key('#', false);
    assert!(engine.shortcut_prefix.is_some());
    engine.process_key('x', false);
    engine.process_key('e', false);
    let result = engine.process_key(' ', false);
    assert_eq!(result.action, Action::Commit);
    assert!(engine.shortcut_prefix.is_none());

    type_word(&mut engine, "ko");
    let result = engine.process_key(' ', false);
    assert_eq!(result.output, "không ");
    assert_eq!(result.backspace, 2);
}

#[test]
fn compose_refuses_disallowed_modifiers() {
    assert_eq!(compose_char(keys::E, false, 2, 0), None);
    assert_eq!(compose_char(keys::I, false, 1, 0), None);
    assert_eq!(compose_char(keys::U, false, 1, 0), None);
    assert_eq!(compose_char(keys::Y, false, 2, 0), None);
    assert_eq!(compose(
        'e',
        VowelMod::Horn,
        ToneMark::Level,
    ), None);
}

#[test]
fn keycode_validator_checks_final_before_spelling() {
    assert_eq!(
        validator::validate_keys(&keys_of("cib")),
        validator::ValidationResult::InvalidFinal
    );
}

#[test]
fn unicode_whitespace_closes_the_word() {
    assert!(vietflux::validation::is_word_boundary('\u{a0}'));
    assert!(vietflux::validation::is_word_boundary('\u{2003}'));

    let mut engine = Engine::new();
    engine.set_options(false, false, true);
    type_word(&mut engine, "viets");
    let result = engine.process_key('\u{a0}', false);
    assert_eq!(result.action, Action::Commit);
    assert_eq!(result.output, "viết\u{a0}");
    assert_eq!(engine.get_buffer(), "");
}
