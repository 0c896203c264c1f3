use vstd::prelude::*;
use vstd::slice::slice_subrange;
use crate::error::ProtocolError;

verus! {

/// A read position over a borrowed byte buffer.
///
/// Every reader of the crate takes its input from a `ByteCursor` and moves it
/// forward by exactly the bytes it used.
#[derive(Clone, Copy, Debug)]
pub struct ByteCursor<'a> {
    data: &'a [u8],
    pos: usize,
}

impl<'a> ByteCursor<'a> {
    /// The whole buffer the cursor runs over.
    pub closed spec fn bytes(&self) -> Seq<u8> {
        self.data@
    }

    /// Number of bytes already consumed.
    pub closed spec fn offset(&self) -> nat {
        self.pos as nat
    }

    /// The position never leaves the buffer.
    pub open spec fn wf(&self) -> bool {
        self.offset() <= self.bytes().len()
    }

    /// The bytes that have not been consumed yet.
    pub open spec fn remaining(&self) -> Seq<u8> {
        self.bytes().skip(self.offset() as int)
    }

    /// A cursor at the start of `data`.
    pub fn new(data: &'a [u8]) -> (cursor: Self)
        ensures
            cursor.wf(),
            cursor.bytes() == data@,
            cursor.offset() == 0,
    {
        ByteCursor { data, pos: 0 }
    }

    /// Number of bytes consumed so far.
    pub fn position(&self) -> (pos: usize)
        ensures
            pos == self.offset(),
    {
        self.pos
    }

    /// Number of bytes still to be read.
    pub fn remaining_len(&self) -> (len: usize)
        requires
            self.wf(),
        ensures
            len == self.remaining().len(),
    {
        self.data.len() - self.pos
    }

    /// Whether every byte has been consumed.
    pub fn is_exhausted(&self) -> (done: bool)
        requires
            self.wf(),
        ensures
            done == (self.remaining().len() == 0),
    {
        self.pos >= self.data.len()
    }

    /// Reads one byte, or fails with `UnexpectedEof` at the end of the buffer.
    pub fn read_u8(&mut self) -> (r: Result<u8, ProtocolError>)
        requires
            old(self).wf(),
        ensures
            final(self).wf(),
            final(self).bytes() == old(self).bytes(),
            match r {
                Ok(b) => old(self).remaining().len() >= 1 && b == old(self).remaining()[0]
                    && final(self).offset() == old(self).offset() + 1,
                Err(e) => old(self).remaining().len() == 0 && e == ProtocolError::UnexpectedEof
                    && final(self).offset() == old(self).offset(),
            },
    {
        if self.pos < self.data.len() {
            let b = self.data[self.pos];
            self.pos = self.pos + 1;
            Ok(b)
        } else {
            Err(ProtocolError::UnexpectedEof)
        }
    }

    /// Takes the next `n` bytes, or fails with `UnexpectedEof` and leaves the
    /// cursor where it was when fewer than `n` remain.
    pub fn read_exact(&mut self, n: usize) -> (r: Result<&'a [u8], ProtocolError>)
        requires
            old(self).wf(),
        ensures
            final(self).wf(),
            final(self).bytes() == old(self).bytes(),
            match r {
                Ok(taken) => n <= old(self).remaining().len()
                    && taken@ == old(self).remaining().take(n as int)
                    && final(self).offset() == old(self).offset() + n,
                Err(e) => n > old(self).remaining().len() && e == ProtocolError::UnexpectedEof
                    && final(self).offset() == old(self).offset(),
            },
    {
        if n <= self.data.len() - self.pos {
            let taken = slice_subrange(self.data, self.pos, self.pos + n);
            assert(taken@ =~= self.remaining().take(n as int));
            self.pos = self.pos + n;
            Ok(taken)
        } else {
            Err(ProtocolError::UnexpectedEof)
        }
    }
}

} // verus!
