//! The byte-stream capability a codec sees: an in-memory buffer with a
//! read position, supporting bounded reads and seeking.

use vstd::prelude::*;
use crate::errors::{ErrorKind, FlowError};

verus! {

/// Whether a stream is read by decoders or written by encoders.
#[derive(Clone, Copy, Debug, PartialEq, Eq, Structural)]
pub enum IoDirection {
    In,
    Out,
}

/// One byte stream: its contents and the current read position.
pub struct IoProxy {
    pub io_id: i32,
    pub bytes: Vec<u8>,
    pub pos: usize,
}

impl IoProxy {
    /// The read position never passes the end of the buffer.
    pub open spec fn wf(&self) -> bool {
        self.pos <= self.bytes@.len()
    }

    /// The bytes still ahead of the read position.
    pub open spec fn remaining(&self) -> Seq<u8> {
        self.bytes@.skip(self.pos as int)
    }

    pub fn create(io_id: i32, bytes: Vec<u8>) -> (r: IoProxy)
        ensures
            r.io_id == io_id,
            r.bytes == bytes,
            r.pos == 0,
            r.wf(),
    {
        IoProxy { io_id, bytes, pos: 0 }
    }

    /// Read up to `n` bytes from the current position, advancing it.
    /// Returns fewer than `n` bytes only when the stream ends first.
    pub fn read_to_buffer(&mut self, n: usize) -> (r: Vec<u8>)
        requires
            old(self).wf(),
        ensures
            final(self).wf(),
            final(self).io_id == old(self).io_id,
            final(self).bytes == old(self).bytes,
            n as int <= old(self).remaining().len()
                ==> r@ == old(self).remaining().take(n as int),
            n as int > old(self).remaining().len() ==> r@ == old(self).remaining(),
            final(self).pos == old(self).pos + r@.len(),
    {
        let len = self.bytes.len();
        let avail = len - self.pos;
        let count = if n < avail { n } else { avail };
        let end = self.pos + count;
        let mut r: Vec<u8> = Vec::new();
        let mut i: usize = self.pos;
        while i < end
            invariant
                self == old(self),
                old(self).wf(),
                old(self).pos <= i <= end,
                end <= self.bytes@.len(),
                r@ =~= self.bytes@.subrange(old(self).pos as int, i as int),
            decreases end - i,
        {
            r.push(self.bytes[i]);
            i += 1;
        }
        self.pos = end;
        proof {
            if n as int <= old(self).remaining().len() {
                assert(r@ =~= old(self).remaining().take(n as int));
            } else {
                assert(r@ =~= old(self).remaining());
            }
        }
        r
    }

    /// Move the read position. Succeeds exactly when the offset lies
    /// within the stream.
    pub fn seek(&mut self, offset: usize) -> (r: Result<(), FlowError>)
        ensures
            final(self).io_id == old(self).io_id,
            final(self).bytes == old(self).bytes,
            r is Ok <==> offset <= old(self).bytes@.len(),
            r is Ok ==> final(self).pos == offset && final(self).wf(),
            r is Err ==> final(self).pos == old(self).pos
                && r->Err_0.kind == ErrorKind::InvalidArgument,
    {
        if offset <= self.bytes.len() {
            self.pos = offset;
            Ok(())
        } else {
            Err(FlowError::new(ErrorKind::InvalidArgument))
        }
    }
}

} // verus!
