use kilo_core::render::build_frame;
use kilo_core::render::draw_rows;
use kilo_core::render::draw_welcome_message;
use kilo_core::render::push_cursor_move;
use kilo_core::render::push_dec;
use kilo_core::render::welcome_bytes;
use kilo_core::AppendBuffer;

const BANNER: &str = "Editor -- version 0.0.1";

fn expected_empty_frame(rows: usize, cols: usize, cx: usize, cy: usize) -> Vec<u8> {
    let mut expect = Vec::new();
    expect.extend_from_slice(b"\x1b[?25l\x1b[H");
    for y in 0..rows {
        if y == rows / 3 {
            let wlen = BANNER.len().min(cols);
            let mut padding = (cols - wlen) / 2;
            if padding > 0 {
                expect.push(b'~');
                padding -= 1;
            }
            for _ in 0..padding {
                expect.push(b' ');
            }
            expect.extend_from_slice(&BANNER.as_bytes()[..wlen]);
        } else {
            expect.push(b'~');
        }
        expect.extend_from_slice(b"\x1b[K");
        if y < rows - 1 {
            expect.extend_from_slice(b"\r\n");
        }
    }
    expect.extend_from_slice(format!("\x1b[{};{}H", cy + 1, cx + 1).as_bytes());
    expect.extend_from_slice(b"\x1b[?25h");
    expect
}

#[test]
fn empty_frame_24_by_80_renders_exactly() {
    let frame = build_frame(24, 80, 0, 0, &vec![]);
    assert_eq!(frame.bytes, expected_empty_frame(24, 80, 0, 0));
}

#[test]
fn empty_frame_has_24_row_segments_and_banner_on_row_8() {
    let frame = build_frame(24, 80, 0, 0, &vec![]);
    let bytes = frame.bytes;
    // One flushed write produces one buffer; its rows are separated by CRLF.
    let body_start = b"\x1b[?25l\x1b[H".len();
    assert_eq!(&bytes[..body_start], b"\x1b[?25l\x1b[H");
    assert!(bytes.ends_with(b"\x1b[1;1H\x1b[?25h"));
    let body_end = bytes.len() - b"\x1b[1;1H\x1b[?25h".len();
    let body = &bytes[body_start..body_end];
    let segments: Vec<&[u8]> = body.split(|&b| b == b'\n').collect();
    assert_eq!(segments.len(), 24);
    for (y, seg) in segments.iter().enumerate() {
        let seg = if seg.ends_with(b"\r") {
            &seg[..seg.len() - 1]
        } else {
            seg
        };
        if y == 8 {
            let mut banner_row = Vec::new();
            banner_row.push(b'~');
            for _ in 0..27 {
                banner_row.push(b' ');
            }
            banner_row.extend_from_slice(BANNER.as_bytes());
            banner_row.extend_from_slice(b"\x1b[K");
            assert_eq!(*seg, banner_row[..]);
        } else {
            assert_eq!(*seg, b"~\x1b[K"[..]);
        }
    }
}

#[test]
fn frame_cursor_sequence_matches_cursor_state() {
    let frame = build_frame(24, 80, 5, 3, &vec![]);
    let bytes = frame.bytes;
    assert!(bytes.ends_with(b"\x1b[4;6H\x1b[?25h"));
}

#[test]
fn frame_shows_line_content_truncated_to_width() {
    let lines = vec![b"hello".to_vec(), b"ab".to_vec()];
    let frame = build_frame(2, 3, 0, 0, &lines);
    assert_eq!(frame.bytes, b"\x1b[?25l\x1b[Hhel\x1b[K\r\nab\x1b[K\x1b[1;1H\x1b[?25h".to_vec());
}

#[test]
fn nonempty_document_renders_filler_not_banner() {
    let lines = vec![b"x".to_vec()];
    let mut buf = AppendBuffer::new();
    draw_rows(&mut buf, 6, 80, &lines);
    // Row 2 (6 / 3) is a filler row because content exists.
    assert_eq!(
        buf.bytes,
        b"x\x1b[K\r\n~\x1b[K\r\n~\x1b[K\r\n~\x1b[K\r\n~\x1b[K\r\n~\x1b[K".to_vec()
    );
}

#[test]
fn welcome_message_centers_with_filler_and_spaces() {
    let mut buf = AppendBuffer::new();
    draw_welcome_message(&mut buf, 80);
    let mut expect = Vec::new();
    expect.push(b'~');
    for _ in 0..27 {
        expect.push(b' ');
    }
    expect.extend_from_slice(BANNER.as_bytes());
    assert_eq!(buf.bytes, expect);
}

#[test]
fn welcome_message_truncates_on_narrow_screen() {
    let mut buf = AppendBuffer::new();
    draw_welcome_message(&mut buf, 10);
    assert_eq!(buf.bytes, BANNER.as_bytes()[..10].to_vec());
}

#[test]
fn welcome_bytes_spell_the_banner() {
    assert_eq!(welcome_bytes(), BANNER.as_bytes().to_vec());
}

#[test]
fn push_dec_writes_decimal_digits() {
    for (n, s) in [(0u16, "0"), (7, "7"), (42, "42"), (999, "999"), (65535, "65535")] {
        let mut buf = AppendBuffer::new();
        push_dec(&mut buf, n);
        assert_eq!(buf.bytes, s.as_bytes().to_vec());
    }
}

#[test]
fn push_cursor_move_writes_wire_coordinates() {
    let mut buf = AppendBuffer::new();
    push_cursor_move(&mut buf, 24, 80);
    assert_eq!(buf.bytes, b"\x1b[24;80H".to_vec());
}

#[test]
fn one_cell_screen_renders_truncated_banner_without_line_break() {
    let frame = build_frame(1, 1, 0, 0, &vec![]);
    // Row 0 is the banner row (1 / 3 == 0); one column leaves room for one
    // banner byte and no padding, and the single row takes no line break.
    assert_eq!(frame.bytes, b"\x1b[?25l\x1b[HE\x1b[K\x1b[1;1H\x1b[?25h".to_vec());
}

#[test]
fn zero_rows_render_no_row_segments() {
    let mut buf = AppendBuffer::new();
    draw_rows(&mut buf, 0, 80, &vec![]);
    assert_eq!(buf.bytes, Vec::<u8>::new());
}

#[test]
fn append_buffer_accumulates_writes() {
    let mut buf = AppendBuffer::new();
    assert_eq!(buf.bytes, Vec::<u8>::new());
    let n = buf.write(b"abc");
    assert_eq!(n, 3);
    buf.push(b'd');
    buf.flush();
    assert_eq!(buf.bytes, b"abcd".to_vec());
}
