//! Parsing of the terminal's cursor-position report.
//!
//! When the direct size query is unavailable, the terminal's size is probed
//! by moving the cursor to the bottom-right corner and asking the terminal
//! where the cursor rests. The reply arrives on the input stream as the
//! byte sequence `ESC [ <row> ; <col> R`, with both numbers written in
//! decimal and 1-based.
use vstd::prelude::*;

use crate::TerminalProtocolError;

verus! {

/// Whether `b` is an ASCII decimal digit.
pub open spec fn is_ascii_digit(b: u8) -> bool {
    0x30 <= b <= 0x39
}

/// The value of a run of ASCII digits read in base 10.
pub open spec fn digits_val(s: Seq<u8>) -> nat
    decreases s.len(),
{
    if s.len() == 0 {
        0
    } else {
        digits_val(s.drop_last()) * 10 + (s.last() - 0x30) as nat
    }
}

/// Whether every byte of `s` is an ASCII decimal digit.
pub open spec fn all_digits(s: Seq<u8>) -> bool {
    forall|i: int| 0 <= i < s.len() ==> is_ascii_digit(#[trigger] s[i])
}

/// Whether `s` has the exact shape of a cursor-position report with its
/// semicolon at `semi`: `ESC [`, a non-empty digit run, `;`, a non-empty
/// digit run, `R`, with nothing before or after.
pub open spec fn is_report_shape(s: Seq<u8>, semi: int) -> bool {
    &&& s.len() >= 6
    &&& s[0] == 27
    &&& s[1] == 0x5b
    &&& 3 <= semi <= s.len() - 3
    &&& s[semi] == 0x3b
    &&& s.last() == 0x52
    &&& all_digits(s.subrange(2, semi))
    &&& all_digits(s.subrange(semi + 1, s.len() - 1))
}

/// Whether `s` is a well-formed cursor-position report whose row and column
/// both fit in 16 bits.
pub open spec fn valid_report(s: Seq<u8>) -> bool {
    exists|semi: int|
        {
            &&& #[trigger] is_report_shape(s, semi)
            &&& digits_val(s.subrange(2, semi)) <= u16::MAX
            &&& digits_val(s.subrange(semi + 1, s.len() - 1)) <= u16::MAX
        }
}

/// The (row, column) pair a well-formed report carries.
pub open spec fn report_pos(s: Seq<u8>) -> (nat, nat) {
    let semi = choose|semi: int| #[trigger] is_report_shape(s, semi);
    (digits_val(s.subrange(2, semi)), digits_val(s.subrange(semi + 1, s.len() - 1)))
}

/// A digit run holds no semicolon, so two witnesses to the report shape
/// must place the semicolon at the same position.
pub proof fn lemma_report_shape_unique(s: Seq<u8>, a: int, b: int)
    requires
        is_report_shape(s, a),
        is_report_shape(s, b),
    ensures
        a == b,
{
    if a < b {
        assert(s.subrange(a + 1, s.len() - 1)[b - a - 1] == s[b]);
        assert(is_ascii_digit(s.subrange(a + 1, s.len() - 1)[b - a - 1]));
    }
    if b < a {
        assert(s.subrange(b + 1, s.len() - 1)[a - b - 1] == s[a]);
        assert(is_ascii_digit(s.subrange(b + 1, s.len() - 1)[a - b - 1]));
    }
}

/// Where `semi` is the first semicolon after the prefix, any witness to the
/// report shape places the semicolon exactly there.
proof fn lemma_shape_semi_is_first(s: Seq<u8>, semi: int, k: int)
    requires
        2 <= semi < s.len(),
        s[semi] == 0x3b,
        forall|j: int| 2 <= j < semi ==> s[j] != 0x3b,
        is_report_shape(s, k),
    ensures
        k == semi,
{
    if k < semi {
        assert(s[k] != 0x3b);
    }
    if k > semi {
        assert(s.subrange(2, k)[semi - 2] == s[semi]);
        assert(is_ascii_digit(s.subrange(2, k)[semi - 2]));
    }
}

/// Appending one digit multiplies the accumulated value by ten and adds it.
proof fn lemma_digits_val_push(s: Seq<u8>, b: u8)
    requires
        0x30 <= b,
    ensures
        digits_val(s.push(b)) == digits_val(s) * 10 + (b - 0x30),
{
    assert(s.push(b).drop_last() =~= s);
}

/// A digit run's value never shrinks as the run is extended to the right.
proof fn lemma_digits_val_grows(p: Seq<u8>, s: Seq<u8>)
    requires
        p.len() <= s.len(),
        p == s.subrange(0, p.len() as int),
    ensures
        digits_val(p) <= digits_val(s),
    decreases s.len(),
{
    if p.len() < s.len() {
        assert(p =~= s.drop_last().subrange(0, p.len() as int));
        lemma_digits_val_grows(p, s.drop_last());
    } else {
        assert(p =~= s);
    }
}

/// Parses the digit run `s[from..to]`, accumulating into a 16-bit value and
/// failing where the run's value would overflow it.
fn parse_digits(s: &Vec<u8>, from: usize, to: usize) -> (r: Result<u16, TerminalProtocolError>)
    requires
        from <= to <= s@.len(),
        all_digits(s@.subrange(from as int, to as int)),
    ensures
        digits_val(s@.subrange(from as int, to as int)) <= u16::MAX ==> r == Result::<
            u16,
            TerminalProtocolError,
        >::Ok(digits_val(s@.subrange(from as int, to as int)) as u16),
        digits_val(s@.subrange(from as int, to as int)) > u16::MAX ==> r == Result::<
            u16,
            TerminalProtocolError,
        >::Err(TerminalProtocolError),
{
    let ghost whole = s@.subrange(from as int, to as int);
    let mut acc: u32 = 0;
    let mut i: usize = from;
    while i < to
        invariant
            from <= i <= to <= s@.len(),
            all_digits(whole),
            whole == s@.subrange(from as int, to as int),
            acc == digits_val(s@.subrange(from as int, i as int)),
            acc <= u16::MAX,
        decreases to - i,
    {
        assert(is_ascii_digit(whole[i - from]) && whole[i - from] == s@[i as int]);
        proof {
            lemma_digits_val_push(s@.subrange(from as int, i as int), s@[i as int]);
            assert(s@.subrange(from as int, i as int).push(s@[i as int]) =~= s@.subrange(
                from as int,
                i as int + 1,
            ));
        }
        let d = s[i];
        acc = acc * 10 + (d - 0x30) as u32;
        i = i + 1;
        if acc > 0xffff {
            proof {
                assert(s@.subrange(from as int, i as int) =~= whole.subrange(
                    0,
                    i as int - from as int,
                ));
                lemma_digits_val_grows(s@.subrange(from as int, i as int), whole);
            }
            return Err(TerminalProtocolError);
        }
    }
    assert(s@.subrange(from as int, i as int) =~= whole);
    Ok(acc as u16)
}

/// Parses a cursor-position reply of the form `ESC [ row ; col R` into the
/// 1-based (row, column) pair it reports. Fails with a protocol error when
/// the prefix is wrong, a digit run is empty or holds a non-digit, the
/// terminator is missing, or a number overflows 16 bits.
pub fn parse_cursor_report(buf: &Vec<u8>) -> (r: Result<(u16, u16), TerminalProtocolError>)
    ensures
        valid_report(buf@) ==> (r matches Ok(p) && (p.0 as nat, p.1 as nat) == report_pos(buf@)),
        !valid_report(buf@) ==> r == Result::<(u16, u16), TerminalProtocolError>::Err(
            TerminalProtocolError,
        ),
{
    if buf.len() < 6 {
        return Err(TerminalProtocolError);
    }
    if buf[0] != 27 || buf[1] != 0x5b || buf[buf.len() - 1] != 0x52 {
        return Err(TerminalProtocolError);
    }
    // Find the first semicolon after the `ESC [` prefix.
    let mut i: usize = 2;
    while i < buf.len() - 1 && buf[i] != 0x3b
        invariant
            2 <= i <= buf@.len() - 1,
            buf@.len() >= 6,
            forall|j: int| 2 <= j < i ==> buf@[j] != 0x3b,
        decreases buf@.len() - i,
    {
        i = i + 1;
    }
    if i >= buf.len() - 1 {
        // No semicolon anywhere between the prefix and the terminator.
        proof {
            assert forall|k: int| !is_report_shape(buf@, k) by {
                if 3 <= k <= buf@.len() - 3 {
                    assert(buf@[k] != 0x3b);
                }
            }
        }
        return Err(TerminalProtocolError);
    }
    let semi = i;
    if semi < 3 || semi > buf.len() - 3 {
        // The first semicolon leaves no room for a digit run on one side,
        // and any other witness to the shape is ruled out by it.
        proof {
            assert forall|k: int| is_report_shape(buf@, k) implies false by {
                lemma_shape_semi_is_first(buf@, semi as int, k);
            }
        }
        return Err(TerminalProtocolError);
    }
    // Every byte of the row run must be a digit.
    let mut j: usize = 2;
    while j < semi
        invariant
            2 <= j <= semi < buf@.len() - 1,
            buf@.len() >= 6,
            buf@[semi as int] == 0x3b,
            forall|m: int| 2 <= m < semi ==> buf@[m] != 0x3b,
            forall|m: int| 2 <= m < j ==> is_ascii_digit(#[trigger] buf@[m]),
        decreases semi - j,
    {
        let b = buf[j];
        if b < 0x30 || b > 0x39 {
            proof {
                assert forall|k: int| is_report_shape(buf@, k) implies false by {
                    lemma_shape_semi_is_first(buf@, semi as int, k);
                    assert(buf@.subrange(2, k)[j - 2] == buf@[j as int]);
                    assert(is_ascii_digit(buf@.subrange(2, k)[j - 2]));
                }
            }
            return Err(TerminalProtocolError);
        }
        j = j + 1;
    }
    // Every byte of the column run must be a digit.
    let mut k: usize = semi + 1;
    while k < buf.len() - 1
        invariant
            semi < k <= buf@.len() - 1,
            3 <= semi <= buf@.len() - 3,
            buf@.len() >= 6,
            buf@[semi as int] == 0x3b,
            forall|m: int| 2 <= m < semi ==> buf@[m] != 0x3b,
            forall|m: int| semi < m < k ==> is_ascii_digit(#[trigger] buf@[m]),
        decreases buf@.len() - k,
    {
        let b = buf[k];
        if b < 0x30 || b > 0x39 {
            proof {
                assert forall|w: int| is_report_shape(buf@, w) implies false by {
                    lemma_shape_semi_is_first(buf@, semi as int, w);
                    assert(buf@.subrange(w + 1, buf@.len() - 1)[k - w - 1] == buf@[k as int]);
                    assert(is_ascii_digit(buf@.subrange(w + 1, buf@.len() - 1)[k - w - 1]));
                }
            }
            return Err(TerminalProtocolError);
        }
        k = k + 1;
    }
    assert forall|m: int| 0 <= m < semi - 2 implies is_ascii_digit(
        #[trigger] buf@.subrange(2, semi as int)[m],
    ) by {
        assert(buf@.subrange(2, semi as int)[m] == buf@[m + 2]);
    }
    assert forall|m: int| 0 <= m < buf@.len() - semi - 2 implies is_ascii_digit(
        #[trigger] buf@.subrange(semi as int + 1, buf@.len() - 1)[m],
    ) by {
        assert(buf@.subrange(semi as int + 1, buf@.len() - 1)[m] == buf@[m + semi + 1]);
    }
    assert(is_report_shape(buf@, semi as int));
    let row = match parse_digits(buf, 2, semi) {
        Ok(v) => v,
        Err(_) => {
            proof {
                lemma_overflow_not_valid(buf@, semi as int);
            }
            return Err(TerminalProtocolError);
        },
    };
    let col = match parse_digits(buf, semi + 1, buf.len() - 1) {
        Ok(v) => v,
        Err(_) => {
            proof {
                lemma_overflow_not_valid(buf@, semi as int);
            }
            return Err(TerminalProtocolError);
        },
    };
    proof {
        assert(valid_report(buf@));
        let w = choose|w: int| #[trigger] is_report_shape(buf@, w);
        lemma_report_shape_unique(buf@, semi as int, w);
    }
    Ok((row, col))
}

/// Once the shape is fixed, an overflowing digit run rules validity out.
proof fn lemma_overflow_not_valid(s: Seq<u8>, semi: int)
    requires
        is_report_shape(s, semi),
        digits_val(s.subrange(2, semi)) > u16::MAX || digits_val(s.subrange(semi + 1, s.len() - 1))
            > u16::MAX,
    ensures
        !valid_report(s),
{
    assert forall|w: int| is_report_shape(s, w) implies !(digits_val(s.subrange(2, w)) <= u16::MAX
        && digits_val(s.subrange(w + 1, s.len() - 1)) <= u16::MAX) by {
        lemma_report_shape_unique(s, semi, w);
    }
}

} // verus!
