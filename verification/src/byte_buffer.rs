//! A linear byte buffer of bounded capacity: bytes are appended at the back
//! and consumed from the front, the rest moving down.
use vstd::prelude::*;

verus! {

pub struct ByteBuffer {
    buf: Vec<u8>,
    capacity: usize,
}

impl View for ByteBuffer {
    type V = Seq<u8>;

    /// The bytes held, oldest first.
    closed spec fn view(&self) -> Seq<u8> {
        self.buf@
    }
}

impl ByteBuffer {
    /// The most bytes the buffer takes.
    pub closed spec fn spec_capacity(&self) -> nat {
        self.capacity as nat
    }

    pub fn new(length: usize) -> (b: Self)
        ensures
            b@ == Seq::<u8>::empty(),
            b.spec_capacity() == length,
    {
        ByteBuffer { buf: Vec::new(), capacity: length }
    }

    /// Room left for more bytes.
    pub fn remaining(&self) -> (n: usize)
        ensures
            n == (if self@.len() <= self.spec_capacity() {
                self.spec_capacity() - self@.len()
            } else {
                0
            }),
    {
        if self.buf.len() <= self.capacity {
            self.capacity - self.buf.len()
        } else {
            0
        }
    }

    /// Appends `data`; returns whether any byte was added.
    pub fn read_from(&mut self, data: &[u8]) -> (r: bool)
        requires
            old(self)@.len() + data@.len() <= old(self).spec_capacity(),
        ensures
            final(self)@ == old(self)@ + data@,
            final(self).spec_capacity() == old(self).spec_capacity(),
            r == (data@.len() > 0),
    {
        let mut i: usize = 0;
        while i < data.len()
            invariant
                i <= data@.len(),
                self.capacity == old(self).capacity,
                self@ == old(self)@ + data@.take(i as int),
            decreases data@.len() - i,
        {
            self.buf.push(data[i]);
            assert(self@ =~= old(self)@ + data@.take(i + 1));
            i = i + 1;
        }
        assert(data@.take(data@.len() as int) =~= data@);
        data.len() > 0
    }

    /// The bytes held.
    pub fn peek(&self) -> (r: &[u8])
        ensures
            r@ == self@,
    {
        self.buf.as_slice()
    }

    /// The bytes held, to be changed in place.
    pub fn peek_mut(&mut self) -> (r: &mut [u8])
        ensures
            r@ == old(self)@,
            final(self).spec_capacity() == old(self).spec_capacity(),
            final(self)@ == final(r)@,
    {
        self.buf.as_mut_slice()
    }

    /// Drops the first `length` bytes.
    pub fn consume(&mut self, length: usize)
        requires
            length <= old(self)@.len(),
        ensures
            final(self)@ == old(self)@.skip(length as int),
            final(self).spec_capacity() == old(self).spec_capacity(),
    {
        let total = self.buf.len();
        let n = total - length;
        let mut i: usize = 0;
        while i < n
            invariant
                total == self.buf@.len(),
                self.capacity == old(self).capacity,
                n == old(self)@.len() - length,
                length <= old(self)@.len(),
                self.buf@.len() == old(self)@.len(),
                i <= n,
                forall|j: int| 0 <= j < i ==> self.buf@[j] == old(self)@[length + j],
                forall|j: int| i + length <= j < self.buf@.len() ==> self.buf@[j] == old(self)@[j],
            decreases n - i,
        {
            let b = self.buf[i + length];
            self.buf.set(i, b);
            i = i + 1;
        }
        self.buf.truncate(n);
        assert(self@ =~= old(self)@.skip(length as int));
    }
}

} // verus!
