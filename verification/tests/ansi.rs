use kilo_core::ansi;

#[test]
fn escape_sequences_have_their_wire_bytes() {
    assert_eq!(ansi::enter_alt_screen(), b"\x1b[?1049h".to_vec());
    assert_eq!(ansi::leave_alt_screen(), b"\x1b[?1049l".to_vec());
    assert_eq!(ansi::hide_cursor(), b"\x1b[?25l".to_vec());
    assert_eq!(ansi::show_cursor(), b"\x1b[?25h".to_vec());
    assert_eq!(ansi::cursor_home(), b"\x1b[H".to_vec());
    assert_eq!(ansi::clear_screen(), b"\x1b[2J".to_vec());
    assert_eq!(ansi::clear_line(), b"\x1b[K".to_vec());
    assert_eq!(ansi::cursor_bottom_right(), b"\x1b[999C\x1b[999B".to_vec());
    assert_eq!(ansi::report_cursor(), b"\x1b[6n".to_vec());
}
