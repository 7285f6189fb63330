use kilo_core::next_key;
use kilo_core::Key;

#[test]
fn printable_bytes_decode_to_chars() {
    for b in 0x20u8..=0x7e {
        let (key, used) = next_key(&vec![b]);
        assert_eq!(key, Some(Key::Char(b as char)));
        assert_eq!(used, 1);
    }
}

#[test]
fn printable_byte_with_trailing_input_consumes_one() {
    let (key, used) = next_key(&vec![b'x', b'y', b'z']);
    assert_eq!(key, Some(Key::Char('x')));
    assert_eq!(used, 1);
}

#[test]
fn control_bytes_decode_to_ctrl_letters() {
    for b in 0x01u8..=0x1a {
        let (key, used) = next_key(&vec![b]);
        assert_eq!(key, Some(Key::Ctrl((b - 1 + b'a') as char)));
        assert_eq!(used, 1);
    }
}

#[test]
fn ctrl_q_byte_decodes_to_ctrl_q() {
    let (key, used) = next_key(&vec![0x11]);
    assert_eq!(key, Some(Key::Ctrl('q')));
    assert_eq!(used, 1);
}

#[test]
fn csi_letters_decode_to_arrows() {
    assert_eq!(next_key(&vec![0x1b, b'[', b'A']), (Some(Key::ArrowUp), 3));
    assert_eq!(next_key(&vec![0x1b, b'[', b'B']), (Some(Key::ArrowDown), 3));
    assert_eq!(next_key(&vec![0x1b, b'[', b'C']), (Some(Key::ArrowRight), 3));
    assert_eq!(next_key(&vec![0x1b, b'[', b'D']), (Some(Key::ArrowLeft), 3));
}

#[test]
fn csi_tilde_digits_decode_to_paging_keys() {
    assert_eq!(next_key(&vec![0x1b, b'[', b'5', b'~']), (Some(Key::PageUp), 4));
    assert_eq!(next_key(&vec![0x1b, b'[', b'6', b'~']), (Some(Key::PageDown), 4));
}

#[test]
fn unrecognized_tilde_digit_decodes_to_escape_char() {
    assert_eq!(
        next_key(&vec![0x1b, b'[', b'9', b'~']),
        (Some(Key::Char('\x1b')), 4)
    );
}

#[test]
fn lone_escape_decodes_to_escape_char() {
    assert_eq!(next_key(&vec![0x1b]), (Some(Key::Char('\x1b')), 1));
}

#[test]
fn escape_without_bracket_decodes_to_escape_char() {
    assert_eq!(next_key(&vec![0x1b, b'x']), (Some(Key::Char('\x1b')), 2));
}

#[test]
fn truncated_csi_decodes_to_escape_char() {
    assert_eq!(next_key(&vec![0x1b, b'[']), (Some(Key::Char('\x1b')), 2));
}

#[test]
fn unrecognized_csi_byte_decodes_to_escape_char() {
    assert_eq!(next_key(&vec![0x1b, b'[', b'Z']), (Some(Key::Char('\x1b')), 3));
}

#[test]
fn truncated_digit_sequence_decodes_to_escape_char() {
    assert_eq!(
        next_key(&vec![0x1b, b'[', b'5']),
        (Some(Key::Char('\x1b')), 3)
    );
}

#[test]
fn digit_sequence_without_tilde_decodes_to_escape_char() {
    assert_eq!(
        next_key(&vec![0x1b, b'[', b'5', b'x']),
        (Some(Key::Char('\x1b')), 4)
    );
}

#[test]
fn high_bit_byte_is_dropped() {
    for b in [0x80u8, 0xc3, 0xff] {
        let (key, used) = next_key(&vec![b]);
        assert_eq!(key, None);
        assert_eq!(used, 1);
    }
}

#[test]
fn empty_input_decodes_to_nothing() {
    assert_eq!(next_key(&vec![]), (None, 0));
}
