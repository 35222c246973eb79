use vietflux::processor::{Processor, InputMethod};
use vietflux::keys;

#[test]
fn test_basic_telex() {
    let mut processor = Processor::new();
    processor.set_method(InputMethod::Telex);

    let _result = processor.process_key(keys::A, false, false);
    assert_eq!(processor.get_buffer(), "a");

    let _result = processor.process_key(keys::S, false, false);
    assert_eq!(processor.get_buffer(), "á");
}

#[test]
fn test_circumflex() {
    let mut processor = Processor::new();
    processor.set_method(InputMethod::Telex);

    processor.process_key(keys::A, false, false);
    processor.process_key(keys::A, false, false);
    assert_eq!(processor.get_buffer(), "â");
}

#[test]
fn test_stroke() {
    let mut processor = Processor::new();
    processor.set_method(InputMethod::Telex);

    processor.process_key(keys::D, false, false);
    processor.process_key(keys::D, false, false);
    assert_eq!(processor.get_buffer(), "đ");
}
