use vietflux::composition::{CompositionBuffer, InputUnit};
use vietflux::keys;
use vietflux::mark;

#[test]
fn test_input_unit_creation() {
    let unit = InputUnit::new(keys::A, false);
    assert_eq!(unit.key, keys::A);
    assert!(!unit.is_uppercase);
    assert!(unit.is_vowel());
    assert!(!unit.has_modifier());
}

#[test]
fn test_buffer_push_pop() {
    let mut buf = CompositionBuffer::new();
    assert!(buf.is_empty());

    buf.push(InputUnit::new(keys::A, false), 'a');
    assert_eq!(buf.len(), 1);

    let popped = buf.pop();
    assert!(popped.is_some());
    assert!(buf.is_empty());
}

#[test]
fn test_buffer_to_string() {
    let mut buf = CompositionBuffer::new();
    buf.push(InputUnit::new(keys::V, false), 'v');
    buf.push(InputUnit::new(keys::I, false), 'i');
    buf.push(InputUnit::new(keys::E, false), 'e');
    buf.push(InputUnit::new(keys::T, false), 't');

    assert_eq!(buf.to_string(), "viet");
}

#[test]
fn test_buffer_with_modifiers() {
    let mut buf = CompositionBuffer::new();

    let mut unit = InputUnit::new(keys::A, false);
    unit.mark_type = mark::ACUTE;
    buf.push(unit, 'a');

    assert_eq!(buf.to_string(), "á");
}
