//! A bounded circular byte buffer holding a stream in transit: bytes go in at
//! the back and leave from the front, in order.
use vstd::prelude::*;

verus! {

pub struct StreamBuffer {
    buf: Vec<u8>,
    head: usize,
    tail: usize,
}

impl View for StreamBuffer {
    type V = Seq<u8>;

    /// The bytes held, oldest first.
    closed spec fn view(&self) -> Seq<u8> {
        if self.tail <= self.head {
            self.buf@.subrange(self.tail as int, self.head as int)
        } else {
            self.buf@.subrange(self.tail as int, self.buf@.len() as int) + self.buf@.subrange(
                0,
                self.head as int,
            )
        }
    }
}

impl StreamBuffer {
    /// The internal indices lie inside the storage, which keeps one slot free.
    pub closed spec fn wf(&self) -> bool {
        &&& 1 <= self.buf@.len() <= usize::MAX
        &&& self.head < self.buf@.len()
        &&& self.tail < self.buf@.len()
    }

    /// The most bytes the buffer can hold.
    pub closed spec fn spec_capacity(&self) -> nat {
        (self.buf@.len() - 1) as nat
    }

    proof fn lemma_view_len(&self)
        requires
            self.wf(),
        ensures
            self@.len() <= self.spec_capacity(),
            self@.len() == (if self.tail <= self.head {
                self.head - self.tail
            } else {
                self.head + self.buf@.len() - self.tail
            }),
    {
    }

    /// The contents never exceed the capacity.
    pub proof fn lemma_len_bound(&self)
        requires
            self.wf(),
        ensures
            self@.len() <= self.spec_capacity(),
    {
        self.lemma_view_len();
    }

    pub fn new(capacity: usize) -> (b: Self)
        requires
            capacity < usize::MAX,
        ensures
            b.wf(),
            b@ == Seq::<u8>::empty(),
            b.spec_capacity() == capacity,
    {
        let b = StreamBuffer { buf: vec![0u8; capacity + 1], head: 0, tail: 0 };
        assert(b@ =~= Seq::<u8>::empty());
        b
    }

    pub fn capacity(&self) -> (c: usize)
        requires
            self.wf(),
        ensures
            c == self.spec_capacity(),
    {
        self.buf.len() - 1
    }

    pub fn is_empty(&self) -> (b: bool)
        requires
            self.wf(),
        ensures
            b == (self@.len() == 0),
    {
        proof { self.lemma_view_len(); }
        self.head == self.tail
    }

    pub fn size(&self) -> (n: usize)
        requires
            self.wf(),
        ensures
            n == self@.len(),
    {
        proof { self.lemma_view_len(); }
        if self.tail <= self.head {
            self.head - self.tail
        } else {
            self.buf.len() - self.tail + self.head
        }
    }

    pub fn remaining(&self) -> (n: usize)
        requires
            self.wf(),
        ensures
            n == self.spec_capacity() - self@.len(),
    {
        proof { self.lemma_view_len(); }
        self.capacity() - self.size()
    }

    /// Appends one byte; there must be room for it.
    fn push_byte(&mut self, b: u8)
        requires
            old(self).wf(),
            old(self)@.len() < old(self).spec_capacity(),
        ensures
            final(self).wf(),
            final(self)@ == old(self)@.push(b),
            final(self).spec_capacity() == old(self).spec_capacity(),
    {
        proof { self.lemma_view_len(); }
        let h = self.head;
        self.buf.set(h, b);
        self.head = if h + 1 == self.buf.len() { 0 } else { h + 1 };
        proof {
            let o = old(self);
            if o.tail <= o.head {
                if h + 1 == self.buf@.len() {
                    assert(self@ =~= o@.push(b));
                } else {
                    assert(self@ =~= o@.push(b));
                }
            } else {
                assert(self@ =~= o@.push(b));
            }
        }
    }

    /// Appends all of `source` at the back.
    pub fn read_from(&mut self, source: &[u8])
        requires
            old(self).wf(),
            source@.len() <= old(self).spec_capacity() - old(self)@.len(),
        ensures
            final(self).wf(),
            final(self)@ == old(self)@ + source@,
            final(self).spec_capacity() == old(self).spec_capacity(),
    {
        let mut i: usize = 0;
        while i < source.len()
            invariant
                self.wf(),
                i <= source@.len(),
                self@ == old(self)@ + source@.take(i as int),
                self.spec_capacity() == old(self).spec_capacity(),
                source@.len() <= old(self).spec_capacity() - old(self)@.len(),
            decreases source@.len() - i,
        {
            self.push_byte(source[i]);
            assert(source@.take(i + 1) =~= source@.take(i as int).push(source@[i as int]));
            assert(old(self)@ + source@.take(i + 1) =~= (old(self)@ + source@.take(i as int)).push(
                source@[i as int],
            ));
            i = i + 1;
        }
        assert(source@.take(source@.len() as int) =~= source@);
    }

    /// The front bytes that lie contiguously in storage: a prefix of the
    /// contents, empty only when the buffer is.
    pub fn chunk(&self) -> (c: &[u8])
        requires
            self.wf(),
        ensures
            c@ == self@.take(c@.len() as int),
            c@.len() <= self@.len(),
            (c@.len() == 0) == (self@.len() == 0),
            c@.len() == self.chunk_len(),
    {
        if self.tail <= self.head {
            let c = vstd::slice::slice_subrange(self.buf.as_slice(), self.tail, self.head);
            assert(c@ =~= self@.take(c@.len() as int));
            c
        } else {
            let c = vstd::slice::slice_subrange(self.buf.as_slice(), self.tail, self.buf.len());
            assert(c@ =~= self@.take(c@.len() as int));
            c
        }
    }

    /// Drops `n` bytes from the front; they must lie in the front chunk.
    pub fn consume(&mut self, n: usize)
        requires
            old(self).wf(),
            n <= old(self).chunk_len(),
        ensures
            final(self).wf(),
            final(self)@ == old(self)@.skip(n as int),
            final(self).spec_capacity() == old(self).spec_capacity(),
    {
        let t = self.tail + n;
        self.tail = if t == self.buf.len() { 0 } else { t };
        proof {
            let o = old(self);
            assert(self@ =~= o@.skip(n as int));
        }
    }

    /// The length of the front chunk, which bounds what `consume` takes.
    pub closed spec fn chunk_len(&self) -> int {
        if self.tail <= self.head {
            self.head - self.tail
        } else {
            self.buf@.len() - self.tail
        }
    }

    /// The front chunk is never longer than the contents.
    pub proof fn lemma_chunk_len(&self)
        requires
            self.wf(),
        ensures
            0 <= self.chunk_len() <= self@.len(),
            (self.chunk_len() == 0) == (self@.len() == 0),
    {
    }
}

} // verus!
