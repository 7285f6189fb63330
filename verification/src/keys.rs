//! Decoding of the raw keyboard byte stream into logical key events.
//!
//! The decoder works on the bytes currently available from the input stream:
//! it consumes one byte for an ordinary key, and up to four for an escape
//! sequence. A truncated or unrecognized escape sequence degrades to a
//! literal escape keypress rather than an error, so a malformed sequence can
//! never corrupt the decoding of what follows it.
use vstd::prelude::*;

verus! {

/// One logical keypress.
#[derive(Clone, Copy, Debug, PartialEq, Eq, Structural)]
pub enum Key {
    /// A printable (or otherwise ordinary) character.
    Char(char),
    /// A control-key combination, carrying the base letter (Ctrl+Q is 'q').
    Ctrl(char),
    ArrowLeft,
    ArrowRight,
    ArrowUp,
    ArrowDown,
    PageUp,
    PageDown,
}

/// The escape byte, 0x1b.
pub open spec fn esc_byte() -> u8 {
    27
}

/// The key event decoded from the available bytes `s`, or `None` when
/// nothing is available or the first byte is outside the single-byte
/// protocol (high bit set).
pub open spec fn spec_key_of(s: Seq<u8>) -> Option<Key> {
    if s.len() == 0 {
        None
    } else if s[0] == esc_byte() {
        Some(spec_escape_key(s))
    } else if 0x01 <= s[0] <= 0x1a {
        Some(Key::Ctrl(((s[0] - 1 + 0x61) as u8) as char))
    } else if s[0] <= 0x7f {
        Some(Key::Char(s[0] as char))
    } else {
        None
    }
}

/// The key event decoded from an escape sequence beginning at `s[0]`.
/// Any truncated or unrecognized sequence yields a literal escape character.
pub open spec fn spec_escape_key(s: Seq<u8>) -> Key
    recommends
        s.len() >= 1,
        s[0] == esc_byte(),
{
    if s.len() < 2 || s[1] != 0x5b {
        Key::Char(esc_byte() as char)
    } else if s.len() < 3 {
        Key::Char(esc_byte() as char)
    } else if s[2] == 0x41 {
        Key::ArrowUp
    } else if s[2] == 0x42 {
        Key::ArrowDown
    } else if s[2] == 0x43 {
        Key::ArrowRight
    } else if s[2] == 0x44 {
        Key::ArrowLeft
    } else if 0x30 <= s[2] <= 0x39 {
        if s.len() >= 4 && s[3] == 0x7e {
            if s[2] == 0x35 {
                Key::PageUp
            } else if s[2] == 0x36 {
                Key::PageDown
            } else {
                Key::Char(esc_byte() as char)
            }
        } else {
            Key::Char(esc_byte() as char)
        }
    } else {
        Key::Char(esc_byte() as char)
    }
}

/// How many of the available bytes `s` one decoding step consumes.
pub open spec fn spec_key_consumed(s: Seq<u8>) -> int {
    if s.len() == 0 {
        0
    } else if s[0] == esc_byte() {
        if s.len() < 2 {
            1
        } else if s[1] != 0x5b || s.len() < 3 {
            2
        } else if 0x30 <= s[2] <= 0x39 {
            if s.len() < 4 {
                3
            } else {
                4
            }
        } else {
            3
        }
    } else {
        1
    }
}

/// Decodes one key event from the bytes currently available on the input
/// stream. Returns the event (`None` when no byte is available, or when the
/// first byte has the high bit set and is dropped) and how many of the given
/// bytes were consumed. Bounded lookahead: never more than four bytes.
pub fn next_key(avail: &Vec<u8>) -> (r: (Option<Key>, usize))
    ensures
        r.0 == spec_key_of(avail@),
        r.1 as int == spec_key_consumed(avail@),
        r.1 <= avail@.len(),
        avail@.len() > 0 ==> 1 <= r.1 <= 4,
{
    if avail.len() == 0 {
        return (None, 0);
    }
    let b0 = avail[0];
    if b0 == 27 {
        if avail.len() < 2 {
            return (Some(Key::Char(27 as char)), 1);
        }
        let b1 = avail[1];
        if b1 != 0x5b {
            return (Some(Key::Char(27 as char)), 2);
        }
        if avail.len() < 3 {
            return (Some(Key::Char(27 as char)), 2);
        }
        let b2 = avail[2];
        if b2 == 0x41 {
            (Some(Key::ArrowUp), 3)
        } else if b2 == 0x42 {
            (Some(Key::ArrowDown), 3)
        } else if b2 == 0x43 {
            (Some(Key::ArrowRight), 3)
        } else if b2 == 0x44 {
            (Some(Key::ArrowLeft), 3)
        } else if 0x30 <= b2 && b2 <= 0x39 {
            if avail.len() < 4 {
                return (Some(Key::Char(27 as char)), 3);
            }
            let b3 = avail[3];
            if b3 == 0x7e {
                if b2 == 0x35 {
                    (Some(Key::PageUp), 4)
                } else if b2 == 0x36 {
                    (Some(Key::PageDown), 4)
                } else {
                    (Some(Key::Char(27 as char)), 4)
                }
            } else {
                (Some(Key::Char(27 as char)), 4)
            }
        } else {
            (Some(Key::Char(27 as char)), 3)
        }
    } else if 0x01 <= b0 && b0 <= 0x1a {
        (Some(Key::Ctrl(((b0 - 1 + 0x61) as u8) as char)), 1)
    } else if b0 <= 0x7f {
        (Some(Key::Char(b0 as char)), 1)
    } else {
        (None, 1)
    }
}

/// Every printable ASCII byte decodes, alone at the head of the stream, to a
/// printable-character event carrying exactly that character, consuming one
/// byte.
pub proof fn lemma_printable_byte_decodes_to_char(s: Seq<u8>)
    requires
        s.len() >= 1,
        0x20 <= s[0] <= 0x7e,
    ensures
        spec_key_of(s) == Some(Key::Char(s[0] as char)),
        spec_key_consumed(s) == 1,
{
}

/// Every byte in the control range 0x01..=0x1a decodes to a
/// control-combination event whose base letter is the byte's offset from
/// 0x01 applied to 'a', consuming one byte.
pub proof fn lemma_control_byte_decodes_to_ctrl(s: Seq<u8>)
    requires
        s.len() >= 1,
        0x01 <= s[0] <= 0x1a,
    ensures
        spec_key_of(s) == Some(Key::Ctrl(((s[0] - 1 + 0x61) as u8) as char)),
        spec_key_consumed(s) == 1,
{
}

/// A lone escape byte, with no further byte available, decodes to a literal
/// escape-character event.
pub proof fn lemma_lone_escape_decodes_to_escape_char(s: Seq<u8>)
    requires
        s.len() == 1,
        s[0] == esc_byte(),
    ensures
        spec_key_of(s) == Some(Key::Char(esc_byte() as char)),
        spec_key_consumed(s) == 1,
{
}

} // verus!
