use vietflux::engine::{Engine, Action};

#[test]
fn test_telex_basic() {
    let mut engine = Engine::new();
    engine.set_options(false, false, false);
    engine.set_method("telex");

    engine.process_key('v', false);
    engine.process_key('i', false);
    engine.process_key('e', false);
    engine.process_key('t', false);

    assert_eq!(engine.get_buffer(), "viet");
}

#[test]
fn test_telex_tone() {
    let mut engine = Engine::new();
    engine.set_options(false, false, false);
    engine.set_method("telex");

    engine.process_key('a', false);
    engine.process_key('s', false);

    assert_eq!(engine.get_buffer(), "á");
}

#[test]
fn engine_test_telex_circumflex() {
    let mut engine = Engine::new();
    engine.set_options(false, false, false);
    engine.set_method("telex");

    engine.process_key('a', false);
    engine.process_key('a', false);

    assert_eq!(engine.get_buffer(), "â");
}

#[test]
fn test_double_mark_undo() {
    let mut engine = Engine::new();
    engine.set_options(false, false, false);
    engine.set_method("telex");

    engine.process_key('a', false);
    engine.process_key('s', false);
    engine.process_key('s', false);

    assert_eq!(engine.get_buffer(), "as");
}

#[test]
fn test_vni_basic() {
    let mut engine = Engine::new();
    engine.set_options(false, false, false);
    engine.set_method("vni");

    engine.process_key('a', false);
    engine.process_key('1', false);

    assert_eq!(engine.get_buffer(), "á");
}

#[test]
fn test_shortcut_expansion() {
    let mut engine = Engine::new();
    engine.set_options(false, false, false);

    engine.process_key('k', false);
    engine.process_key('o', false);

    assert_eq!(engine.get_buffer(), "ko");

    let result = engine.process_key(' ', false);

    assert_eq!(result.output, "không ");
}

#[test]
fn test_shortcut_with_prefix() {
    let mut engine = Engine::new();
    engine.set_options(false, false, false);
    engine.add_shortcut("#vn", "Việt Nam");

    let result = engine.process_key('#', false);
    assert_eq!(result.action, Action::Passthrough);
    assert!(engine.shortcut_prefix.is_some());

    engine.process_key('v', false);
    assert_eq!(engine.get_buffer(), "v");

    engine.process_key('n', false);
    assert_eq!(engine.get_buffer(), "vn");

    let result = engine.process_key(' ', false);

    assert_eq!(result.action, Action::Update);
    assert_eq!(result.output, "Việt Nam ");
    assert_eq!(result.backspace, 3);
}

#[test]
fn test_auto_capitalize() {
    let mut engine = Engine::new();
    engine.set_options(true, false, true);

    let result = engine.process_key('h', false);
    assert_eq!(result.output, "H");

    engine.process_key('i', false);

    let _ = engine.process_key('.', false);
    assert!(engine.next_char_upper);

    let _ = engine.process_key(' ', false);
    assert!(engine.next_char_upper);

    let result = engine.process_key('t', false);
    assert_eq!(result.output, "T");
    assert!(!engine.next_char_upper);
}

#[test]
fn test_smart_quotes() {
    let mut engine = Engine::new();
    engine.set_options(false, true, true);

    let result = engine.process_key('"', false);
    assert_eq!(result.output, "“");

    engine.process_key('a', false);

    let result = engine.process_key('"', false);
    assert!(result.output.ends_with("”"));
}
