//! Raw-mode attribute handling, on a model of the terminal's attributes.
//!
//! The platform's attribute words (input, output, control and local flags)
//! are held as plain 32-bit values. Entering raw mode snapshots the current
//! attributes and derives a modified set from the platform's flag masks;
//! leaving raw mode hands the untouched snapshot back, so the attributes
//! restored on exit are exactly the attributes captured on entry.
use vstd::prelude::*;

verus! {

/// A snapshot of the terminal's attribute words.
#[derive(Clone, Copy, Debug, PartialEq, Eq, Structural)]
pub struct TermAttrs {
    /// Input flags.
    pub iflag: u32,
    /// Output flags.
    pub oflag: u32,
    /// Control flags.
    pub cflag: u32,
    /// Local flags.
    pub lflag: u32,
}

/// The platform's flag masks, as the surrounding code reads them from its
/// terminal interface.
#[derive(Clone, Copy, Debug, PartialEq, Eq, Structural)]
pub struct RawMasks {
    /// Break-condition signalling (input flag).
    pub brkint: u32,
    /// Carriage-return to newline translation (input flag).
    pub icrnl: u32,
    /// Input parity checking (input flag).
    pub inpck: u32,
    /// Stripping of the eighth bit (input flag).
    pub istrip: u32,
    /// Software flow control (input flag).
    pub ixon: u32,
    /// Output post-processing (output flag).
    pub opost: u32,
    /// 8-bit character size (control flag).
    pub cs8: u32,
    /// Local echo (local flag).
    pub echo: u32,
    /// Canonical, line-buffered input (local flag).
    pub icanon: u32,
    /// Extended input processing (local flag).
    pub iexten: u32,
    /// Signal generation from control keys (local flag).
    pub isig: u32,
}

/// The raw-mode attribute set derived from `a`: every input translation,
/// output post-processing and local interpretation mask cleared, and the
/// 8-bit character size forced on.
pub open spec fn spec_raw_attrs(a: TermAttrs, m: RawMasks) -> TermAttrs {
    TermAttrs {
        iflag: a.iflag & !(m.brkint | m.icrnl | m.inpck | m.istrip | m.ixon),
        oflag: a.oflag & !m.opost,
        cflag: a.cflag | m.cs8,
        lflag: a.lflag & !(m.echo | m.icanon | m.iexten | m.isig),
    }
}

/// An entered raw-mode session: the attribute snapshot taken on entry,
/// kept to be restored on exit and never overwritten meanwhile.
pub struct RawSession {
    saved: TermAttrs,
}

impl RawSession {
    /// The snapshot the session holds.
    pub closed spec fn spec_saved(self) -> TermAttrs {
        self.saved
    }
}

/// The session that entering raw mode from attributes `a` opens.
pub closed spec fn spec_begin_raw(a: TermAttrs) -> RawSession {
    RawSession { saved: a }
}

/// The session entering raw mode opens holds exactly the attributes it was
/// entered from.
pub proof fn lemma_begin_raw_saves(a: TermAttrs)
    ensures
        spec_begin_raw(a).spec_saved() == a,
{
}

/// The attributes that ending session `s` restores: its untouched snapshot.
pub open spec fn spec_end_raw(s: RawSession) -> TermAttrs {
    s.spec_saved()
}

/// Enters raw mode at the model level: snapshots the current attributes
/// into a session and derives the raw attribute set to apply.
pub fn begin_raw(current: &TermAttrs, m: &RawMasks) -> (r: (RawSession, TermAttrs))
    ensures
        r.0 == spec_begin_raw(*current),
        r.0.spec_saved() == *current,
        r.1 == spec_raw_attrs(*current, *m),
{
    let session = RawSession { saved: *current };
    let raw = TermAttrs {
        iflag: current.iflag & !(m.brkint | m.icrnl | m.inpck | m.istrip | m.ixon),
        oflag: current.oflag & !m.opost,
        cflag: current.cflag | m.cs8,
        lflag: current.lflag & !(m.echo | m.icanon | m.iexten | m.isig),
    };
    (session, raw)
}

/// Leaves raw mode at the model level: hands back the attribute set to
/// restore, which is exactly the snapshot taken on entry.
pub fn end_raw(s: RawSession) -> (r: TermAttrs)
    ensures
        r == spec_end_raw(s),
        r == s.spec_saved(),
{
    s.saved
}

/// Entering and then leaving raw mode restores the attributes captured on
/// entry, identically in every field: the session never alters its
/// snapshot, whatever the platform's masks are.
pub proof fn lemma_raw_mode_round_trip(a: TermAttrs)
    ensures
        spec_end_raw(spec_begin_raw(a)) == a,
{
}

} // verus!
