use serial_exchange::frame::{decode, ends_with_terminator, received, TERMINATOR};

#[test]
fn terminator_is_the_line_feed() {
    assert_eq!(TERMINATOR, b'\n');
}

#[test]
fn decode_keeps_well_formed_text() {
    assert_eq!(decode(b"PONG\n"), "PONG\n");
    assert_eq!(decode("grüße ✓\n".as_bytes()), "grüße ✓\n");
    assert_eq!(decode(b""), "");
}

#[test]
fn decode_replaces_ill_formed_bytes() {
    assert_eq!(decode(&[0x66, 0xFF, 0x6F]), "f\u{FFFD}o");
    assert_eq!(decode(&[0xC3]), "\u{FFFD}");
    assert_eq!(decode(&[0x80, 0x0A]), "\u{FFFD}\n");
    assert_eq!(decode(&[0xE2, 0x9C, 0x0A]), "\u{FFFD}\n");
}

#[test]
fn terminated_text_ends_in_line_feed() {
    assert!(ends_with_terminator("\n"));
    assert!(ends_with_terminator("OK\n"));
    assert!(ends_with_terminator("a\nb\n"));
    assert!(ends_with_terminator("é\n"));
}

#[test]
fn unterminated_text_is_not_complete() {
    assert!(!ends_with_terminator(""));
    assert!(!ends_with_terminator("OK"));
    assert!(!ends_with_terminator("OK\n "));
    assert!(!ends_with_terminator("OK\r"));
    assert!(!ends_with_terminator("\nOK"));
}

#[test]
fn terminator_byte_inside_wider_characters_does_not_count() {
    // U+010A and U+0A0A hold the value 0x0A in their code point, not in the last byte.
    assert!(!ends_with_terminator("\u{010A}"));
    assert!(!ends_with_terminator("\u{0A0A}"));
    assert!(!ends_with_terminator("\u{8A}"));
    assert!(ends_with_terminator("\u{010A}\n"));
}

#[test]
fn received_cuts_the_buffer_to_the_count() {
    assert_eq!(received(vec![1, 2, 3, 4], 2), vec![1, 2]);
    assert_eq!(received(vec![1, 2, 3, 4], 0), Vec::<u8>::new());
    assert_eq!(received(vec![1, 2, 3, 4], 4), vec![1, 2, 3, 4]);
    assert_eq!(received(vec![0; 1000], 3), vec![0, 0, 0]);
}

#[test]
fn received_with_count_beyond_the_buffer_keeps_it_whole() {
    assert_eq!(received(vec![1, 2, 3], 9), vec![1, 2, 3]);
    assert_eq!(received(Vec::new(), 1), Vec::<u8>::new());
}
