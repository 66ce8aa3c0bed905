use kernel_core::decoder::KeyDecoder;
use kernel_core::decoder::KeyOutput;

#[test]
fn letter_press_decodes_to_lowercase() {
    let mut dec = KeyDecoder::new();
    match dec.feed(0x1E) {
        Some(KeyOutput::Unicode(c)) => assert_eq!(c, 'a'),
        other => panic!("expected a decoded 'a', got {:?}", other),
    }
}

#[test]
fn shift_makes_uppercase() {
    let mut dec = KeyDecoder::new();
    match dec.feed(0x2A) {
        Some(KeyOutput::RawKey(name)) => assert_eq!(name, "LShift"),
        other => panic!("expected the shift key event, got {:?}", other),
    }
    match dec.feed(0x1E) {
        Some(KeyOutput::Unicode(c)) => assert_eq!(c, 'A'),
        other => panic!("expected a decoded 'A', got {:?}", other),
    }
}

#[test]
fn plain_release_produces_no_output() {
    let mut dec = KeyDecoder::new();
    assert!(dec.feed(0x1E).is_some());
    // Key-up of a plain letter maps to nothing.
    assert!(dec.feed(0x9E).is_none());
}
