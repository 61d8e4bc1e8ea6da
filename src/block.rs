use vstd::prelude::*;

verus! {

/// A ring of single elements for block-at-a-time exchange, with no pacing
/// and no catch-up: a write stores as much of a block as there is room for,
/// a read takes up to a given count, and each cursor moves by the number of
/// elements actually moved.
pub struct BlockRing<T> {
    buf: Vec<T>,
    head: usize,
    len: usize,
}

impl<T: Copy> BlockRing<T> {
    /// The number of element positions.
    pub closed spec fn cap(&self) -> nat {
        self.buf@.len()
    }

    /// Where the `i`-th unread element sits in storage.
    closed spec fn position(&self, i: int) -> int {
        if self.head + i < self.buf@.len() {
            self.head + i
        } else {
            self.head + i - self.buf@.len()
        }
    }

    /// The cursors lie inside storage.
    pub closed spec fn wf(&self) -> bool {
        &&& self.buf@.len() > 0
        &&& self.head < self.buf@.len()
        &&& self.len <= self.buf@.len()
    }

    /// The unread elements, oldest first.
    pub closed spec fn contents(&self) -> Seq<T> {
        Seq::new(self.len as nat, |i: int| self.buf@[self.position(i)])
    }

    /// An empty ring of `capacity` positions; `fill` only initialises storage.
    pub fn new(capacity: usize, fill: T) -> (r: Self)
        requires
            capacity > 0,
        ensures
            r.wf(),
            r.cap() == capacity,
            r.contents() == Seq::<T>::empty(),
    {
        let mut buf: Vec<T> = Vec::with_capacity(capacity);
        let mut k: usize = 0;
        while k < capacity
            invariant
                k <= capacity,
                buf@.len() == k,
            decreases capacity - k,
        {
            buf.push(fill);
            k = k + 1;
        }
        let r = BlockRing { buf, head: 0, len: 0 };
        assert(r.contents() =~= Seq::<T>::empty());
        r
    }

    /// The number of element positions.
    pub fn capacity(&self) -> (r: usize)
        ensures
            r == self.cap(),
    {
        self.buf.len()
    }

    /// The number of unread elements.
    pub fn len(&self) -> (r: usize)
        requires
            self.wf(),
        ensures
            r == self.contents().len(),
    {
        self.len
    }

    /// Room left for writing.
    pub fn free(&self) -> (r: usize)
        requires
            self.wf(),
        ensures
            r == self.cap() - self.contents().len(),
    {
        self.buf.len() - self.len
    }

    /// Appends as much of `data` as there is room for, oldest first, and
    /// returns how many elements were stored.
    pub fn write(&mut self, data: &[T]) -> (n: usize)
        requires
            old(self).wf(),
        ensures
            final(self).wf(),
            final(self).cap() == old(self).cap(),
            n == if data@.len() <= old(self).cap() - old(self).contents().len() {
                data@.len()
            } else {
                (old(self).cap() - old(self).contents().len()) as nat
            },
            final(self).contents() == old(self).contents() + data@.subrange(0, n as int),
    {
        let room = self.buf.len() - self.len;
        let n: usize = if data.len() <= room {
            data.len()
        } else {
            room
        };
        let mut k: usize = 0;
        while k < n
            invariant
                self.wf(),
                self.cap() == old(self).cap(),
                self.head == old(self).head,
                k <= n,
                n <= data@.len(),
                self.len == old(self).len + k,
                old(self).len + n <= self.cap(),
                self.contents() == old(self).contents() + data@.subrange(0, k as int),
            decreases n - k,
        {
            let ghost before = self.contents();
            let pos: usize = if self.len < self.buf.len() - self.head {
                self.head + self.len
            } else {
                self.len - (self.buf.len() - self.head)
            };
            self.buf.set(pos, data[k]);
            self.len = self.len + 1;
            k = k + 1;
            assert(self.contents() =~= before.push(data@[k - 1]));
            assert(data@.subrange(0, k as int) =~= data@.subrange(0, k - 1).push(data@[k - 1]));
        }
        n
    }

    /// Takes up to `max` unread elements, oldest first.
    pub fn read(&mut self, max: usize) -> (r: Vec<T>)
        requires
            old(self).wf(),
        ensures
            final(self).wf(),
            final(self).cap() == old(self).cap(),
            r@.len() == if max <= old(self).contents().len() {
                max as nat
            } else {
                old(self).contents().len()
            },
            r@ == old(self).contents().subrange(0, r@.len() as int),
            final(self).contents() == old(self).contents().subrange(r@.len() as int, old(self).contents().len() as int),
    {
        let m: usize = if max <= self.len {
            max
        } else {
            self.len
        };
        let mut out: Vec<T> = Vec::with_capacity(m);
        let mut k: usize = 0;
        while k < m
            invariant
                self.wf(),
                k <= m,
                m <= self.len,
                out@ == self.contents().subrange(0, k as int),
            decreases m - k,
        {
            let pos: usize = if k < self.buf.len() - self.head {
                self.head + k
            } else {
                k - (self.buf.len() - self.head)
            };
            out.push(self.buf[pos]);
            k = k + 1;
            assert(out@ =~= self.contents().subrange(0, k as int));
        }
        let ghost before = self.contents();
        self.head = if m < self.buf.len() - self.head {
            self.head + m
        } else {
            m - (self.buf.len() - self.head)
        };
        self.len = self.len - m;
        assert(self.contents() =~= before.subrange(m as int, before.len() as int));
        out
    }
}

} // verus!
