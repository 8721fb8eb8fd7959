use kernel::hid::pckbd::{key_of, KeyCode, PCKeyboard, ScanCode, COMMAND_QUEUE_SIZE};

#[test]
fn press_and_release_of_a_key() {
    let mut k = PCKeyboard::new();
    assert!(k.push_scancode(0x1E));
    assert!(k.push_scancode(0x9E));
    assert_eq!(k.next_event(), Some(ScanCode::Press(KeyCode::A)));
    assert_eq!(k.next_event(), Some(ScanCode::Release(KeyCode::A)));
    assert_eq!(k.next_event(), None);
}

#[test]
fn extended_sequences_are_consumed_whole() {
    let mut k = PCKeyboard::new();
    // Extended up-arrow press and release, then the key 1.
    for b in [0xE0u8, 0x48, 0xE0, 0xC8, 0x02] {
        assert!(k.push_scancode(b));
    }
    assert_eq!(k.next_event(), Some(ScanCode::Press(KeyCode::N1)));
    assert_eq!(k.next_event(), None);
}

#[test]
fn unrecognised_bytes_are_dropped() {
    let mut k = PCKeyboard::new();
    // Escape press and release, left shift, then the slash key.
    for b in [0x01u8, 0x81, 0x2A, 0x35] {
        k.push_scancode(b);
    }
    assert_eq!(k.next_event(), Some(ScanCode::Press(KeyCode::Slash)));
    assert_eq!(k.next_event(), None);
}

#[test]
fn extended_prefix_spans_calls() {
    let mut k = PCKeyboard::new();
    k.push_scancode(0xE0);
    assert_eq!(k.next_event(), None);
    k.push_scancode(0x1C);
    assert_eq!(k.next_event(), None);
    k.push_scancode(0x1C);
    assert_eq!(k.next_event(), None);
    k.push_scancode(0x10);
    assert_eq!(k.next_event(), Some(ScanCode::Press(KeyCode::Q)));
}

#[test]
fn decode_one_byte_at_a_time() {
    let mut k = PCKeyboard::new();
    assert_eq!(k.decode(0x2C), Some(ScanCode::Press(KeyCode::Z)));
    assert_eq!(k.decode(0xE0), None);
    assert_eq!(k.decode(0x2C), None);
    assert_eq!(k.decode(0xAC), Some(ScanCode::Release(KeyCode::Z)));
}

#[test]
fn full_queue_drops_new_bytes() {
    let mut k = PCKeyboard::new();
    for _ in 0..COMMAND_QUEUE_SIZE {
        assert!(k.push_scancode(0x10));
    }
    assert!(!k.push_scancode(0x11));
    for _ in 0..COMMAND_QUEUE_SIZE {
        assert_eq!(k.next_event(), Some(ScanCode::Press(KeyCode::Q)));
    }
    assert_eq!(k.next_event(), None);
}

#[test]
fn set_one_table() {
    assert_eq!(key_of(0x0B), Some(KeyCode::N0));
    assert_eq!(key_of(0x0A), Some(KeyCode::N9));
    assert_eq!(key_of(0x29), Some(KeyCode::Tick));
    assert_eq!(key_of(0x2B), Some(KeyCode::BackSlash));
    assert_eq!(key_of(0x33), Some(KeyCode::Comma));
    assert_eq!(key_of(0x34), Some(KeyCode::Dot));
    assert_eq!(key_of(0x32), Some(KeyCode::M));
    assert_eq!(key_of(0x1C), None);
    assert_eq!(key_of(0x00), None);
}

#[test]
fn keys_echo_as_ascii() {
    assert_eq!(KeyCode::A.ascii(), b'a');
    assert_eq!(KeyCode::Z.ascii(), b'z');
    assert_eq!(KeyCode::N7.ascii(), b'7');
    assert_eq!(KeyCode::At.ascii(), b'@');
    assert_eq!(KeyCode::Excl.ascii(), b'!');
    assert_eq!(KeyCode::BackSlash.ascii(), b'\\');
    assert_eq!(KeyCode::Tick.ascii(), b'`');
}
