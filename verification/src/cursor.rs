use vstd::prelude::*;

verus! {

/// A positional, read-only view over a finite byte sequence.
///
/// A cursor borrows the whole input for the duration of a decoding run and
/// tracks how many bytes have been committed so far.  A decoder advances the
/// position by exactly the number of bytes it consumes on success and leaves
/// the position where it found it on failure.  A cursor is single-owner
/// state: nothing here is meant to be shared across threads.
pub struct Cursor<'a> {
    data: &'a [u8],
    pos: usize,
}

impl<'a> Cursor<'a> {
    /// The whole underlying byte sequence, independent of the position.
    pub closed spec fn data(&self) -> Seq<u8> {
        self.data@
    }

    /// The current read position, counted from the start of the input.
    pub closed spec fn pos(&self) -> int {
        self.pos as int
    }

    /// The position never lies past the end of the input.
    pub open spec fn wf(&self) -> bool {
        0 <= self.pos() <= self.data().len()
    }

    /// The bytes that have not been consumed yet.
    pub open spec fn remaining(&self) -> Seq<u8> {
        self.data().skip(self.pos())
    }

    /// A fresh cursor standing at the start of `data`.
    pub fn new(data: &'a [u8]) -> (c: Cursor<'a>)
        ensures
            c.wf(),
            c.data() == data@,
            c.pos() == 0,
    {
        Cursor { data, pos: 0 }
    }

    /// The number of bytes consumed so far.
    pub fn position(&self) -> (p: usize)
        ensures
            p == self.pos(),
    {
        self.pos
    }

    /// How many bytes are still available.
    pub fn remaining_len(&self) -> (n: usize)
        requires
            self.wf(),
        ensures
            n == self.remaining().len(),
    {
        self.data.len() - self.pos
    }

    /// Read the byte `i` places past the current position without consuming it.
    pub fn peek(&self, i: usize) -> (b: u8)
        requires
            self.wf(),
            i < self.remaining().len(),
        ensures
            b == self.remaining()[i as int],
    {
        // The call to len bounds the slice's length, so the sum below
        // cannot overflow.
        let _total = self.data.len();
        self.data[self.pos + i]
    }

    /// Consume the next byte.
    pub fn read_byte(&mut self) -> (b: u8)
        requires
            old(self).wf(),
            old(self).remaining().len() >= 1,
        ensures
            final(self).wf(),
            final(self).data() == old(self).data(),
            final(self).pos() == old(self).pos() + 1,
            b == old(self).remaining()[0],
    {
        let b = self.data[self.pos];
        self.pos = self.pos + 1;
        b
    }

    /// Consume the next `n` bytes and hand them back as a fresh buffer.
    pub fn read_bytes(&mut self, n: usize) -> (out: Vec<u8>)
        requires
            old(self).wf(),
            n <= old(self).remaining().len(),
        ensures
            final(self).wf(),
            final(self).data() == old(self).data(),
            final(self).pos() == old(self).pos() + n,
            out@ == old(self).remaining().take(n as int),
    {
        // The call to len bounds the slice's length for the index
        // arithmetic in the loop and for the final advance.
        let _total = self.data.len();
        let mut out: Vec<u8> = Vec::new();
        let mut i: usize = 0;
        while i < n
            invariant
                self.wf(),
                self.data().len() <= usize::MAX,
                self.data() == old(self).data(),
                self.pos() == old(self).pos(),
                i <= n,
                n <= self.remaining().len(),
                out@ == self.remaining().take(i as int),
            decreases n - i,
        {
            let b = self.data[self.pos + i];
            out.push(b);
            proof {
                assert(self.remaining().take(i + 1) =~= self.remaining().take(i as int).push(b));
            }
            i = i + 1;
        }
        self.pos = self.pos + n;
        out
    }

    /// Move the position back to an earlier point of the input, for example
    /// to roll back the partial consumption of a failed composite decode.
    pub fn set_position(&mut self, p: usize)
        requires
            old(self).wf(),
            p <= old(self).data().len(),
        ensures
            final(self).wf(),
            final(self).data() == old(self).data(),
            final(self).pos() == p,
    {
        self.pos = p;
    }
}

} // verus!
