use vstd::prelude::*;

use crate::error::RingBufferError;

verus! {

/// A fixed number of slots, each holding one frame of a fixed length.
///
/// A slot is only ever replaced whole: every slot holds exactly
/// `frame_length` samples at all times.
pub struct SlotStore<T> {
    slots: Vec<Vec<T>>,
    frame_length: usize,
}

impl<T: Copy> SlotStore<T> {
    /// The frames held, slot by slot.
    pub closed spec fn frames(&self) -> Seq<Seq<T>> {
        Seq::new(self.slots@.len(), |i: int| self.slots@[i]@)
    }

    /// The length that every frame has.
    pub closed spec fn frame_len(&self) -> nat {
        self.frame_length as nat
    }

    /// Every slot holds a frame of the store's frame length.
    pub open spec fn wf(&self) -> bool {
        forall|i: int| 0 <= i < self.frames().len() ==> #[trigger] self.frames()[i].len() == self.frame_len()
    }

    /// `capacity` slots, each filled with `frame_length` copies of `fill`.
    pub fn new(frame_length: usize, capacity: usize, fill: T) -> (r: Self)
        ensures
            r.wf(),
            r.frame_len() == frame_length,
            r.frames() == Seq::new(capacity as nat, |i: int| Seq::new(frame_length as nat, |j: int| fill)),
    {
        let mut slots: Vec<Vec<T>> = Vec::with_capacity(capacity);
        let mut n: usize = 0;
        while n < capacity
            invariant
                n <= capacity,
                slots@.len() == n,
                forall|i: int| 0 <= i < n ==> #[trigger] slots@[i]@ == Seq::new(frame_length as nat, |j: int| fill),
            decreases capacity - n,
        {
            let mut frame: Vec<T> = Vec::with_capacity(frame_length);
            let mut k: usize = 0;
            while k < frame_length
                invariant
                    k <= frame_length,
                    frame@ == Seq::new(k as nat, |j: int| fill),
                decreases frame_length - k,
            {
                frame.push(fill);
                k = k + 1;
                assert(frame@ =~= Seq::new(k as nat, |j: int| fill));
            }
            slots.push(frame);
            n = n + 1;
        }
        let r = SlotStore { slots, frame_length };
        assert(r.frames() =~= Seq::new(capacity as nat, |i: int| Seq::new(frame_length as nat, |j: int| fill)));
        r
    }

    /// The number of slots.
    pub fn capacity(&self) -> (r: usize)
        ensures
            r == self.frames().len(),
    {
        self.slots.len()
    }

    /// The length that every frame has.
    pub fn frame_length(&self) -> (r: usize)
        ensures
            r == self.frame_len(),
    {
        self.frame_length
    }

    /// Puts `frame` in slot `index` and hands back the frame it displaced.
    /// A frame of the wrong length is refused and the store is left as it was.
    pub fn replace(&mut self, index: usize, frame: Vec<T>) -> (r: Result<Vec<T>, RingBufferError>)
        requires
            old(self).wf(),
            index < old(self).frames().len(),
        ensures
            final(self).wf(),
            final(self).frame_len() == old(self).frame_len(),
            frame@.len() != old(self).frame_len() ==> r == Err::<Vec<T>, RingBufferError>(
                RingBufferError::DataSizeMismatch,
            ) && final(self).frames() == old(self).frames(),
            frame@.len() == old(self).frame_len() ==> r is Ok && r->Ok_0@ == old(self).frames()[index as int]
                && final(self).frames() == old(self).frames().update(index as int, frame@),
    {
        if frame.len() != self.frame_length {
            return Err(RingBufferError::DataSizeMismatch);
        }
        let mut displaced = frame;
        std::mem::swap(&mut self.slots[index], &mut displaced);
        assert(self.frames() =~= old(self).frames().update(index as int, frame@));
        Ok(displaced)
    }

    /// An independent copy of the frame in slot `index`.
    pub fn snapshot(&self, index: usize) -> (r: Vec<T>)
        requires
            index < self.frames().len(),
        ensures
            r@ == self.frames()[index as int],
    {
        let slot = &self.slots[index];
        let mut copy: Vec<T> = Vec::with_capacity(slot.len());
        let mut k: usize = 0;
        while k < slot.len()
            invariant
                k <= slot@.len(),
                slot@ == self.frames()[index as int],
                copy@ == slot@.subrange(0, k as int),
            decreases slot@.len() - k,
        {
            copy.push(slot[k]);
            k = k + 1;
            assert(copy@ =~= slot@.subrange(0, k as int));
        }
        assert(copy@ =~= slot@);
        copy
    }
}

} // verus!
