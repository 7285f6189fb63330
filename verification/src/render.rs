//! Building one screen frame as a single byte sequence.
//!
//! A frame hides the cursor, homes it, draws every screen row (content,
//! filler, or the centered welcome banner), clears to the end of each line,
//! repositions the cursor, and shows it again — all appended to one buffer
//! so the caller can flush the frame in a single write.
use vstd::prelude::*;

use crate::ansi;
use crate::buffer::AppendBuffer;

verus! {

/// The welcome banner's text, `Editor -- version 0.0.1`, as bytes.
pub open spec fn welcome_text() -> Seq<u8> {
    seq![
        0x45u8,
        0x64u8,
        0x69u8,
        0x74u8,
        0x6fu8,
        0x72u8,
        0x20u8,
        0x2du8,
        0x2du8,
        0x20u8,
        0x76u8,
        0x65u8,
        0x72u8,
        0x73u8,
        0x69u8,
        0x6fu8,
        0x6eu8,
        0x20u8,
        0x30u8,
        0x2eu8,
        0x30u8,
        0x2eu8,
        0x31u8,
    ]
}

/// `n` space bytes.
pub open spec fn spaces(n: int) -> Seq<u8> {
    Seq::new(n as nat, |i: int| 0x20u8)
}

/// The banner row: the welcome text truncated to the screen width and
/// centered by a filler glyph and spaces on its left.
pub open spec fn spec_welcome_row(cols: int) -> Seq<u8> {
    let wlen = if welcome_text().len() as int <= cols {
        welcome_text().len() as int
    } else {
        cols
    };
    let padding = (cols - wlen) / 2;
    (if padding > 0 {
        seq![0x7eu8] + spaces(padding - 1)
    } else {
        Seq::<u8>::empty()
    }) + welcome_text().take(wlen)
}

/// The decimal digits of `n`, most significant first.
pub open spec fn dec_rep(n: int) -> Seq<u8>
    recommends
        n >= 0,
    decreases n,
{
    if n < 10 {
        seq![(0x30 + n) as u8]
    } else {
        dec_rep(n / 10).push((0x30 + n % 10) as u8)
    }
}

/// `ESC [ <row> ; <col> H`: absolute cursor positioning, 1-based.
pub open spec fn cursor_move_seq(row1: int, col1: int) -> Seq<u8> {
    seq![27u8, 0x5bu8] + dec_rep(row1) + seq![0x3bu8] + dec_rep(col1) + seq![0x48u8]
}

/// What one screen row shows: its content line truncated to the width; on
/// an empty document, the banner at one third of the height; a filler
/// glyph otherwise.
pub open spec fn row_content(rows: int, cols: int, lines: Seq<Seq<u8>>, y: int) -> Seq<u8> {
    if 0 <= y < lines.len() {
        let m = if lines[y].len() as int <= cols {
            lines[y].len() as int
        } else {
            cols
        };
        lines[y].take(m)
    } else if lines.len() == 0 && y == rows / 3 {
        spec_welcome_row(cols)
    } else {
        seq![0x7eu8]
    }
}

/// One row's bytes: its content, clear-to-end-of-line, and a line break
/// after every row but the last.
pub open spec fn row_piece(rows: int, cols: int, lines: Seq<Seq<u8>>, y: int) -> Seq<u8> {
    row_content(rows, cols, lines, y) + ansi::clear_line_seq() + (if y + 1 < rows {
        ansi::crlf_seq()
    } else {
        Seq::<u8>::empty()
    })
}

/// The bytes of the first `y` rows.
pub open spec fn rows_prefix(rows: int, cols: int, lines: Seq<Seq<u8>>, y: int) -> Seq<u8>
    decreases y,
{
    if y <= 0 {
        Seq::<u8>::empty()
    } else {
        rows_prefix(rows, cols, lines, y - 1) + row_piece(rows, cols, lines, y - 1)
    }
}

/// The bytes of all screen rows.
pub open spec fn frame_rows(rows: int, cols: int, lines: Seq<Seq<u8>>) -> Seq<u8> {
    rows_prefix(rows, cols, lines, rows)
}

/// A whole frame: hide the cursor, home it, draw every row, position the
/// cursor at its 1-based screen coordinates, show it again.
pub open spec fn spec_frame(rows: int, cols: int, cx: int, cy: int, lines: Seq<Seq<u8>>) -> Seq<
    u8,
> {
    ansi::hide_cursor_seq() + ansi::cursor_home_seq() + frame_rows(rows, cols, lines)
        + cursor_move_seq(cy + 1, cx + 1) + ansi::show_cursor_seq()
}

/// A frame brackets its rows: it begins by hiding the cursor and homing it,
/// and ends by positioning the cursor at its 1-based screen coordinates and
/// showing it again — so the cursor is hidden before any row content is
/// drawn and reappears only at its proper place.
pub proof fn lemma_frame_brackets(rows: int, cols: int, cx: int, cy: int, lines: Seq<Seq<u8>>)
    ensures
        spec_frame(rows, cols, cx, cy, lines).take(9) == ansi::hide_cursor_seq()
            + ansi::cursor_home_seq(),
        spec_frame(rows, cols, cx, cy, lines).skip(
            spec_frame(rows, cols, cx, cy, lines).len() - (cursor_move_seq(cy + 1, cx + 1).len()
                + 6),
        ) == cursor_move_seq(cy + 1, cx + 1) + ansi::show_cursor_seq(),
{
    let f = spec_frame(rows, cols, cx, cy, lines);
    assert(f.take(9) =~= ansi::hide_cursor_seq() + ansi::cursor_home_seq());
    assert(f.skip(f.len() - (cursor_move_seq(cy + 1, cx + 1).len() + 6)) =~= cursor_move_seq(
        cy + 1,
        cx + 1,
    ) + ansi::show_cursor_seq());
}

/// Builds the welcome banner's text as bytes.
pub fn welcome_bytes() -> (r: Vec<u8>)
    ensures
        r@ == welcome_text(),
{
    let v = vec![
        0x45u8,
        0x64u8,
        0x69u8,
        0x74u8,
        0x6fu8,
        0x72u8,
        0x20u8,
        0x2du8,
        0x2du8,
        0x20u8,
        0x76u8,
        0x65u8,
        0x72u8,
        0x73u8,
        0x69u8,
        0x6fu8,
        0x6eu8,
        0x20u8,
        0x30u8,
        0x2eu8,
        0x30u8,
        0x2eu8,
        0x31u8,
    ];
    proof {
        assert(v@ =~= welcome_text());
    }
    v
}

/// Appends `n` spaces.
fn push_spaces(buf: &mut AppendBuffer, n: usize)
    ensures
        final(buf).bytes@ == old(buf).bytes@ + spaces(n as int),
{
    let mut k: usize = 0;
    while k < n
        invariant
            k <= n,
            buf.bytes@ == old(buf).bytes@ + spaces(k as int),
        decreases n - k,
    {
        proof {
            assert(spaces(k as int).push(0x20u8) =~= spaces(k as int + 1));
        }
        buf.push(0x20);
        k = k + 1;
    }
}

/// Appends the welcome banner row, centered within `cols` columns.
pub fn draw_welcome_message(buf: &mut AppendBuffer, cols: u16)
    ensures
        final(buf).bytes@ == old(buf).bytes@ + spec_welcome_row(cols as int),
{
    let welcome = welcome_bytes();
    let wlen: usize = if (cols as usize) < welcome.len() {
        cols as usize
    } else {
        welcome.len()
    };
    let padding: usize = (cols as usize - wlen) / 2;
    if padding > 0 {
        buf.push(0x7e);
        push_spaces(buf, padding - 1);
    }
    let sl = vstd::slice::slice_subrange(welcome.as_slice(), 0, wlen);
    buf.write(sl);
    proof {
        assert(buf.bytes@ =~= old(buf).bytes@ + spec_welcome_row(cols as int));
    }
}

/// Appends the decimal digits of `n`.
pub fn push_dec(buf: &mut AppendBuffer, n: u16)
    ensures
        final(buf).bytes@ == old(buf).bytes@ + dec_rep(n as int),
    decreases n,
{
    if n >= 10 {
        push_dec(buf, n / 10);
    }
    buf.push(0x30 + (n % 10) as u8);
    proof {
        if n < 10 {
            assert(old(buf).bytes@.push((0x30 + n as int) as u8) =~= old(buf).bytes@ + dec_rep(
                n as int,
            ));
        } else {
            assert(buf.bytes@ =~= old(buf).bytes@ + dec_rep(n as int));
        }
    }
}

/// Appends an absolute cursor-positioning sequence for the 1-based
/// coordinates (`row1`, `col1`).
pub fn push_cursor_move(buf: &mut AppendBuffer, row1: u16, col1: u16)
    ensures
        final(buf).bytes@ == old(buf).bytes@ + cursor_move_seq(row1 as int, col1 as int),
{
    buf.push(27);
    buf.push(0x5b);
    push_dec(buf, row1);
    buf.push(0x3b);
    push_dec(buf, col1);
    buf.push(0x48);
    proof {
        assert(buf.bytes@ =~= old(buf).bytes@ + cursor_move_seq(row1 as int, col1 as int));
    }
}

/// Appends every screen row: content where a line exists, the banner or a
/// filler glyph otherwise, each row ending in clear-to-end-of-line and — on
/// all rows but the last — a line break.
#[verifier::rlimit(60)]
pub fn draw_rows(buf: &mut AppendBuffer, rows: u16, cols: u16, lines: &Vec<Vec<u8>>)
    ensures
        final(buf).bytes@ == old(buf).bytes@ + frame_rows(
            rows as int,
            cols as int,
            lines.deep_view(),
        ),
{
    let ghost dlines = lines.deep_view();
    let mut y: u16 = 0;
    while y < rows
        invariant
            y <= rows,
            dlines == lines.deep_view(),
            buf.bytes@ == old(buf).bytes@ + rows_prefix(rows as int, cols as int, dlines, y as int),
        decreases rows - y,
    {
        let ghost at_entry = buf.bytes@;
        if (y as usize) < lines.len() {
            let line = &lines[y as usize];
            let m: usize = if line.len() <= cols as usize {
                line.len()
            } else {
                cols as usize
            };
            let sl = vstd::slice::slice_subrange(line.as_slice(), 0, m);
            buf.write(sl);
            proof {
                assert(lines@[y as int].deep_view() =~= lines@[y as int]@);
                assert(sl@ =~= row_content(rows as int, cols as int, dlines, y as int));
            }
        } else if lines.len() == 0 && y == rows / 3 {
            draw_welcome_message(buf, cols);
        } else {
            buf.push(0x7e);
            proof {
                assert(seq![0x7eu8] =~= row_content(rows as int, cols as int, dlines, y as int));
            }
        }
        buf.push(27);
        buf.push(0x5b);
        buf.push(0x4b);
        if y < rows - 1 {
            buf.push(0x0d);
            buf.push(0x0a);
        }
        proof {
            assert(buf.bytes@ =~= at_entry + row_piece(rows as int, cols as int, dlines, y as int));
            assert(rows_prefix(rows as int, cols as int, dlines, y as int + 1) =~= rows_prefix(
                rows as int,
                cols as int,
                dlines,
                y as int,
            ) + row_piece(rows as int, cols as int, dlines, y as int));
        }
        y = y + 1;
    }
}

/// Builds one whole frame for a `rows` x `cols` screen whose cursor sits at
/// the 0-based position (`cx`, `cy`), showing `lines` from the top. The
/// result is flushed by the caller in a single write.
pub fn build_frame(rows: u16, cols: u16, cx: u16, cy: u16, lines: &Vec<Vec<u8>>) -> (r:
    AppendBuffer)
    requires
        cx < cols,
        cy < rows,
    ensures
        r.bytes@ == spec_frame(rows as int, cols as int, cx as int, cy as int, lines.deep_view()),
{
    let mut buf = AppendBuffer::new();
    let hide = ansi::hide_cursor();
    buf.write(hide.as_slice());
    let home = ansi::cursor_home();
    buf.write(home.as_slice());
    draw_rows(&mut buf, rows, cols, lines);
    push_cursor_move(&mut buf, cy + 1, cx + 1);
    let show = ansi::show_cursor();
    buf.write(show.as_slice());
    proof {
        assert(buf.bytes@ =~= spec_frame(
            rows as int,
            cols as int,
            cx as int,
            cy as int,
            lines.deep_view(),
        ));
    }
    buf
}

} // verus!
