use rvterminal::scanner::{decode_events, ScanKey, ScanSession};

#[test]
fn one_scan_per_terminator() {
    let events = vec![
        (0i32, ScanKey::HexA),
        (0, ScanKey::Digit1),
        (0, ScanKey::HexB),
        (0, ScanKey::Digit2),
        (0, ScanKey::HexC),
        (0, ScanKey::Digit3),
        (0, ScanKey::Enter),
        (0, ScanKey::Digit9),
        (0, ScanKey::Enter),
    ];
    let emitted = decode_events(&events);
    assert_eq!(emitted, vec!["a1b2c3".to_string(), "9".to_string()]);
}

#[test]
fn buffer_is_empty_after_each_emission() {
    let mut session = ScanSession::new();
    assert_eq!(session.feed(0, ScanKey::Digit5), None);
    assert_eq!(session.feed(0, ScanKey::HexF), None);
    assert_eq!(session.feed(0, ScanKey::Enter), Some("5f".to_string()));
    // The very next terminator emits only what arrived in between.
    assert_eq!(session.feed(0, ScanKey::Enter), Some("".to_string()));
}

#[test]
fn presses_and_unmapped_keys_are_ignored() {
    let events = vec![
        (1i32, ScanKey::HexA),   // press transition: ignored
        (0, ScanKey::Other),     // unmapped key: ignored
        (0, ScanKey::HexA),
        (1, ScanKey::Enter),     // terminator press: ignored, no emission
        (0, ScanKey::Enter),
    ];
    let emitted = decode_events(&events);
    assert_eq!(emitted, vec!["a".to_string()]);
}

#[test]
fn every_mapped_key_decodes() {
    let keys = [
        (ScanKey::Digit0, '0'),
        (ScanKey::Digit1, '1'),
        (ScanKey::Digit2, '2'),
        (ScanKey::Digit3, '3'),
        (ScanKey::Digit4, '4'),
        (ScanKey::Digit5, '5'),
        (ScanKey::Digit6, '6'),
        (ScanKey::Digit7, '7'),
        (ScanKey::Digit8, '8'),
        (ScanKey::Digit9, '9'),
        (ScanKey::HexA, 'a'),
        (ScanKey::HexB, 'b'),
        (ScanKey::HexC, 'c'),
        (ScanKey::HexD, 'd'),
        (ScanKey::HexE, 'e'),
        (ScanKey::HexF, 'f'),
    ];
    let mut session = ScanSession::new();
    let mut expected = String::new();
    for (key, c) in keys {
        assert_eq!(session.feed(0, key), None);
        expected.push(c);
    }
    assert_eq!(session.feed(0, ScanKey::Enter), Some(expected));
}
