use vietflux::buffer::Buffer;

#[test]
fn test_buffer_basic() {
    let mut buf = Buffer::new();
    buf.push_simple('v');
    buf.push_simple('i');
    buf.push_simple('e');
    buf.push_simple('t');

    assert_eq!(buf.len(), 4);
    assert_eq!(buf.get_text(), "viet");
}

#[test]
fn test_buffer_transform() {
    let mut buf = Buffer::new();
    buf.push_simple('v');
    buf.push_simple('i');
    buf.push('ệ', 'e');
    buf.push_simple('t');

    assert_eq!(buf.get_text(), "việt");
    assert_eq!(buf.get_raw(), "viet");
}

#[test]
fn test_find_vowels() {
    let mut buf = Buffer::new();
    buf.push_simple('v');
    buf.push_simple('i');
    buf.push_simple('e');
    buf.push_simple('t');

    let vowels = buf.find_vowels();
    assert_eq!(vowels, vec![1, 2]);
}
