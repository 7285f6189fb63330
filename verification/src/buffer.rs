//! The in-memory frame buffer.
//!
//! One render pass appends every escape sequence and row of content here and
//! hands the finished bytes to a single terminal write, so a frame can never
//! tear across several small writes.
use vstd::prelude::*;

verus! {

/// A growable byte buffer that only ever appends.
pub struct AppendBuffer {
    /// The bytes accumulated so far, in append order.
    pub bytes: Vec<u8>,
}

impl AppendBuffer {
    /// An empty buffer for a fresh frame.
    pub fn new() -> (r: Self)
        ensures
            r.bytes@ == Seq::<u8>::empty(),
    {
        AppendBuffer { bytes: Vec::new() }
    }

    /// Appends one byte.
    pub fn push(&mut self, b: u8)
        ensures
            final(self).bytes@ == old(self).bytes@.push(b),
    {
        self.bytes.push(b);
    }

    /// Appends all of `b`, reporting how many bytes were taken: always all
    /// of them.
    pub fn write(&mut self, b: &[u8]) -> (n: usize)
        ensures
            final(self).bytes@ == old(self).bytes@ + b@,
            n == b@.len(),
    {
        let mut i: usize = 0;
        while i < b.len()
            invariant
                i <= b@.len(),
                self.bytes@ == old(self).bytes@ + b@.subrange(0, i as int),
            decreases b@.len() - i,
        {
            proof {
                assert(b@.subrange(0, i as int).push(b@[i as int]) =~= b@.subrange(
                    0,
                    i as int + 1,
                ));
            }
            self.bytes.push(b[i]);
            i = i + 1;
        }
        proof {
            assert(b@.subrange(0, b@.len() as int) =~= b@);
        }
        i
    }

    /// Flushing an in-memory buffer does nothing: the bytes leave it only
    /// when a render pass hands them to the terminal in one write.
    pub fn flush(&mut self)
        ensures
            *final(self) == *old(self),
    {
    }
}

} // verus!
