//! Core of a terminal screen editor: raw-mode attribute handling, key-event
//! decoding, cursor-report parsing, and frame rendering, with verified
//! contracts over mathematical models of the terminal protocol.
use vstd::prelude::*;

pub mod ansi;
pub mod buffer;
pub mod editor;
pub mod keys;
pub mod probe;
pub mod rawmode;
pub mod render;
pub mod sys;

pub use buffer::AppendBuffer;
pub use editor::Action;
pub use editor::EditorState;

pub use keys::Key;
pub use keys::next_key;
pub use probe::parse_cursor_report;
pub use rawmode::RawMasks;
pub use rawmode::RawSession;
pub use rawmode::TermAttrs;
pub use rawmode::begin_raw;
pub use rawmode::end_raw;
pub use sys::cvt;
pub use sys::IsMinusOne;

verus! {

/// A terminal attribute get/set operation failed at the platform level.
#[derive(Clone, Copy, Debug, PartialEq, Eq, Structural)]
pub struct TerminalQueryError;

/// A cursor-position reply read back from the terminal was malformed.
#[derive(Clone, Copy, Debug, PartialEq, Eq, Structural)]
pub struct TerminalProtocolError;

} // verus!
