//! The ANSI/VT100 escape sequences the editor emits, as byte sequences.
//!
//! Each spec function names the exact wire bytes of one sequence; the exec
//! functions hand those bytes to callers (the renderer here, and the screen
//! and probing code around the library) as plain vectors.
use vstd::prelude::*;

verus! {

/// `ESC [ ? 1 0 4 9 h`: enter the alternate screen buffer.
pub open spec fn enter_alt_screen_seq() -> Seq<u8> {
    seq![27u8, 0x5bu8, 0x3fu8, 0x31u8, 0x30u8, 0x34u8, 0x39u8, 0x68u8]
}

/// `ESC [ ? 1 0 4 9 l`: leave the alternate screen buffer.
pub open spec fn leave_alt_screen_seq() -> Seq<u8> {
    seq![27u8, 0x5bu8, 0x3fu8, 0x31u8, 0x30u8, 0x34u8, 0x39u8, 0x6cu8]
}

/// `ESC [ ? 2 5 l`: hide the cursor.
pub open spec fn hide_cursor_seq() -> Seq<u8> {
    seq![27u8, 0x5bu8, 0x3fu8, 0x32u8, 0x35u8, 0x6cu8]
}

/// `ESC [ ? 2 5 h`: show the cursor.
pub open spec fn show_cursor_seq() -> Seq<u8> {
    seq![27u8, 0x5bu8, 0x3fu8, 0x32u8, 0x35u8, 0x68u8]
}

/// `ESC [ H`: move the cursor to row 1, column 1.
pub open spec fn cursor_home_seq() -> Seq<u8> {
    seq![27u8, 0x5bu8, 0x48u8]
}

/// `ESC [ 2 J`: clear the entire screen.
pub open spec fn clear_screen_seq() -> Seq<u8> {
    seq![27u8, 0x5bu8, 0x32u8, 0x4au8]
}

/// `ESC [ K`: clear from the cursor to the end of the line.
pub open spec fn clear_line_seq() -> Seq<u8> {
    seq![27u8, 0x5bu8, 0x4bu8]
}

/// `ESC [ 9 9 9 C ESC [ 9 9 9 B`: move the cursor far right, then far down;
/// the terminal clamps both moves at its real edge.
pub open spec fn cursor_bottom_right_seq() -> Seq<u8> {
    seq![27u8, 0x5bu8, 0x39u8, 0x39u8, 0x39u8, 0x43u8, 27u8, 0x5bu8, 0x39u8, 0x39u8, 0x39u8, 0x42u8]
}

/// `ESC [ 6 n`: ask the terminal to report the cursor position.
pub open spec fn report_cursor_seq() -> Seq<u8> {
    seq![27u8, 0x5bu8, 0x36u8, 0x6eu8]
}

/// `CR LF`: line break between rendered rows.
pub open spec fn crlf_seq() -> Seq<u8> {
    seq![0x0du8, 0x0au8]
}

/// Builds the enter-alternate-screen bytes.
pub fn enter_alt_screen() -> (r: Vec<u8>)
    ensures
        r@ == enter_alt_screen_seq(),
{
    let v = vec![27u8, 0x5bu8, 0x3fu8, 0x31u8, 0x30u8, 0x34u8, 0x39u8, 0x68u8];
    proof {
        assert(v@ =~= enter_alt_screen_seq());
    }
    v
}

/// Builds the leave-alternate-screen bytes.
pub fn leave_alt_screen() -> (r: Vec<u8>)
    ensures
        r@ == leave_alt_screen_seq(),
{
    let v = vec![27u8, 0x5bu8, 0x3fu8, 0x31u8, 0x30u8, 0x34u8, 0x39u8, 0x6cu8];
    proof {
        assert(v@ =~= leave_alt_screen_seq());
    }
    v
}

/// Builds the hide-cursor bytes.
pub fn hide_cursor() -> (r: Vec<u8>)
    ensures
        r@ == hide_cursor_seq(),
{
    let v = vec![27u8, 0x5bu8, 0x3fu8, 0x32u8, 0x35u8, 0x6cu8];
    proof {
        assert(v@ =~= hide_cursor_seq());
    }
    v
}

/// Builds the show-cursor bytes.
pub fn show_cursor() -> (r: Vec<u8>)
    ensures
        r@ == show_cursor_seq(),
{
    let v = vec![27u8, 0x5bu8, 0x3fu8, 0x32u8, 0x35u8, 0x68u8];
    proof {
        assert(v@ =~= show_cursor_seq());
    }
    v
}

/// Builds the cursor-home bytes.
pub fn cursor_home() -> (r: Vec<u8>)
    ensures
        r@ == cursor_home_seq(),
{
    let v = vec![27u8, 0x5bu8, 0x48u8];
    proof {
        assert(v@ =~= cursor_home_seq());
    }
    v
}

/// Builds the clear-screen bytes.
pub fn clear_screen() -> (r: Vec<u8>)
    ensures
        r@ == clear_screen_seq(),
{
    let v = vec![27u8, 0x5bu8, 0x32u8, 0x4au8];
    proof {
        assert(v@ =~= clear_screen_seq());
    }
    v
}

/// Builds the clear-to-end-of-line bytes.
pub fn clear_line() -> (r: Vec<u8>)
    ensures
        r@ == clear_line_seq(),
{
    let v = vec![27u8, 0x5bu8, 0x4bu8];
    proof {
        assert(v@ =~= clear_line_seq());
    }
    v
}

/// Builds the far-right-then-far-down probing bytes.
pub fn cursor_bottom_right() -> (r: Vec<u8>)
    ensures
        r@ == cursor_bottom_right_seq(),
{
    let v = vec![
        27u8,
        0x5bu8,
        0x39u8,
        0x39u8,
        0x39u8,
        0x43u8,
        27u8,
        0x5bu8,
        0x39u8,
        0x39u8,
        0x39u8,
        0x42u8,
    ];
    proof {
        assert(v@ =~= cursor_bottom_right_seq());
    }
    v
}

/// Builds the report-cursor-position request bytes.
pub fn report_cursor() -> (r: Vec<u8>)
    ensures
        r@ == report_cursor_seq(),
{
    let v = vec![27u8, 0x5bu8, 0x36u8, 0x6eu8];
    proof {
        assert(v@ =~= report_cursor_seq());
    }
    v
}

} // verus!
