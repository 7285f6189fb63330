//! The editor's per-frame state and its reaction to key events.
//!
//! The state holds the screen size and a cursor position that always stays
//! inside the screen. Handling a key event moves the cursor (clamped at the
//! screen's edges) or asks the surrounding loop to shut down; every other
//! event is accepted and ignored.
use vstd::prelude::*;

use crate::keys::Key;

verus! {

/// What the surrounding loop must do after one key event.
#[derive(Clone, Copy, Debug, PartialEq, Eq, Structural)]
pub enum Action {
    /// Render the next frame and keep reading input.
    Continue,
    /// Restore the terminal and end the process.
    Quit,
}

/// The editor's screen size and 0-based cursor position.
#[derive(Clone, Copy, Debug, PartialEq, Eq, Structural)]
pub struct EditorState {
    /// Cursor column, 0-based.
    pub cx: u16,
    /// Cursor row, 0-based.
    pub cy: u16,
    /// Screen height in rows.
    pub screen_rows: u16,
    /// Screen width in columns.
    pub screen_cols: u16,
}

impl EditorState {
    /// The cursor lies inside the screen.
    pub open spec fn wf(self) -> bool {
        self.cx < self.screen_cols && self.cy < self.screen_rows
    }

    /// Where one arrow key moves the cursor: one cell, clamped at the
    /// screen's edge; any other key leaves it in place.
    pub open spec fn spec_move(self, key: Key) -> EditorState {
        match key {
            Key::ArrowLeft => if self.cx != 0 {
                EditorState { cx: (self.cx - 1) as u16, ..self }
            } else {
                self
            },
            Key::ArrowRight => if self.cx != self.screen_cols - 1 {
                EditorState { cx: (self.cx + 1) as u16, ..self }
            } else {
                self
            },
            Key::ArrowUp => if self.cy != 0 {
                EditorState { cy: (self.cy - 1) as u16, ..self }
            } else {
                self
            },
            Key::ArrowDown => if self.cy != self.screen_rows - 1 {
                EditorState { cy: (self.cy + 1) as u16, ..self }
            } else {
                self
            },
            _ => self,
        }
    }

    /// Creates a well-formed state with the cursor at the top-left corner.
    pub fn new(screen_rows: u16, screen_cols: u16) -> (r: EditorState)
        requires
            screen_rows >= 1,
            screen_cols >= 1,
        ensures
            r == (EditorState { cx: 0, cy: 0, screen_rows, screen_cols }),
            r.wf(),
    {
        EditorState { cx: 0, cy: 0, screen_rows, screen_cols }
    }

    /// Moves the cursor one cell for an arrow key, clamped at the screen's
    /// edges; leaves it unchanged for every other key.
    pub fn move_cursor(&mut self, key: Key)
        requires
            old(self).wf(),
        ensures
            *final(self) == old(self).spec_move(key),
            final(self).wf(),
    {
        match key {
            Key::ArrowLeft => {
                if self.cx != 0 {
                    self.cx = self.cx - 1;
                }
            },
            Key::ArrowRight => {
                if self.cx != self.screen_cols - 1 {
                    self.cx = self.cx + 1;
                }
            },
            Key::ArrowUp => {
                if self.cy != 0 {
                    self.cy = self.cy - 1;
                }
            },
            Key::ArrowDown => {
                if self.cy != self.screen_rows - 1 {
                    self.cy = self.cy + 1;
                }
            },
            _ => {},
        }
    }

    /// Reacts to one decoded key event, if any. Ctrl+Q asks the loop to
    /// quit; arrows move the cursor one cell; paging keys repeat the
    /// vertical movement once per screen row, which lands the cursor on the
    /// top or bottom row; everything else is ignored.
    pub fn handle_key(&mut self, key: Option<Key>) -> (r: Action)
        requires
            old(self).wf(),
        ensures
            final(self).wf(),
            final(self).screen_rows == old(self).screen_rows,
            final(self).screen_cols == old(self).screen_cols,
            (r == Action::Quit) <==> key == Some(Key::Ctrl('q')),
            key == Some(Key::ArrowUp) ==> *final(self) == old(self).spec_move(Key::ArrowUp),
            key == Some(Key::ArrowDown) ==> *final(self) == old(self).spec_move(Key::ArrowDown),
            key == Some(Key::ArrowLeft) ==> *final(self) == old(self).spec_move(Key::ArrowLeft),
            key == Some(Key::ArrowRight) ==> *final(self) == old(self).spec_move(Key::ArrowRight),
            key == Some(Key::PageUp) ==> *final(self) == (EditorState { cy: 0, ..*old(self) }),
            key == Some(Key::PageDown) ==> *final(self) == (EditorState {
                cy: (old(self).screen_rows - 1) as u16,
                ..*old(self)
            }),
            key is None ==> *final(self) == *old(self),
            (key matches Some(k) && (k matches Key::Char(_) || k matches Key::Ctrl(_)))
                ==> *final(self) == *old(self),
    {
        if let Some(c) = key {
            match c {
                Key::Ctrl(l) => {
                    if l == 'q' {
                        Action::Quit
                    } else {
                        Action::Continue
                    }
                },
                Key::ArrowUp | Key::ArrowDown | Key::ArrowLeft | Key::ArrowRight => {
                    self.move_cursor(c);
                    Action::Continue
                },
                Key::PageUp => {
                    let times = self.screen_rows;
                    let mut t: u16 = 0;
                    while t < times
                        invariant
                            t <= times,
                            times == self.screen_rows,
                            self.wf(),
                            self.cx == old(self).cx,
                            self.screen_rows == old(self).screen_rows,
                            self.screen_cols == old(self).screen_cols,
                            self.cy as int == if old(self).cy >= t as int {
                                old(self).cy - t as int
                            } else {
                                0
                            },
                        decreases times - t,
                    {
                        self.move_cursor(Key::ArrowUp);
                        t = t + 1;
                    }
                    Action::Continue
                },
                Key::PageDown => {
                    let times = self.screen_rows;
                    let mut t: u16 = 0;
                    while t < times
                        invariant
                            t <= times,
                            times == self.screen_rows,
                            self.wf(),
                            self.cx == old(self).cx,
                            self.screen_rows == old(self).screen_rows,
                            self.screen_cols == old(self).screen_cols,
                            self.cy as int == if old(self).cy + t as int <= old(self).screen_rows
                                - 1 {
                                old(self).cy + t as int
                            } else {
                                old(self).screen_rows - 1
                            },
                        decreases times - t,
                    {
                        self.move_cursor(Key::ArrowDown);
                        t = t + 1;
                    }
                    Action::Continue
                },
                Key::Char(_) => Action::Continue,
            }
        } else {
            Action::Continue
        }
    }
}

/// Cursor movement is idempotent at the screen's edges: an arrow key that
/// points off the screen leaves the cursor where it is.
pub proof fn lemma_move_cursor_boundary(s: EditorState)
    requires
        s.wf(),
    ensures
        s.cx == 0 ==> s.spec_move(Key::ArrowLeft) == s,
        s.cx == s.screen_cols - 1 ==> s.spec_move(Key::ArrowRight) == s,
        s.cy == 0 ==> s.spec_move(Key::ArrowUp) == s,
        s.cy == s.screen_rows - 1 ==> s.spec_move(Key::ArrowDown) == s,
{
}

} // verus!
