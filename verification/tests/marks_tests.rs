use vietflux::composition::{CompositionBuffer, InputUnit};
use vietflux::keycodes::from_char;
use vietflux::marks::{apply_stroke, apply_mark};
use vietflux::mark;

fn make_buffer(s: &str) -> CompositionBuffer {
    let mut buf = CompositionBuffer::new();
    for c in s.chars() {
        if let Some(key) = from_char(c) {
            buf.push(InputUnit::new(key, c.is_uppercase()), c);
        }
    }
    buf
}

#[test]
fn test_apply_stroke() {
    let mut buf = make_buffer("do");
    let result = apply_stroke(&mut buf);
    assert!(result.applied);
    assert!(buf.get(0).unwrap().is_stroked);
    assert_eq!(buf.to_string(), "đo");
}

#[test]
fn test_apply_mark() {
    let mut buf = make_buffer("an");
    let result = apply_mark(&mut buf, mark::ACUTE, true);
    assert!(result.applied);
    assert_eq!(buf.to_string(), "án");
}
