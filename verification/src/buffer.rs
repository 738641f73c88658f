//! A fixed-capacity circular buffer: first in, first out, with pushes
//! refused while full and pops refused while empty.
//!
//! A lock-free deployment would advance the cursors with atomic
//! compare-and-exchange; the ring logic itself — the wrap-around cursors
//! and the full and empty conditions — is what is verified here, under
//! exclusive access.

use vstd::prelude::*;

use vstd::pervasive::VecAdditionalExecFns;

verus! {

/// The slot holding the `k`-th oldest element of a ring whose oldest
/// element sits at `tail`, in a ring of `cap` slots.
pub open spec fn ring_slot(tail: int, k: int, cap: int) -> int {
    if tail + k < cap {
        tail + k
    } else {
        tail + k - cap
    }
}

/// Why a circular-buffer operation was refused.
#[derive(Debug)]
pub enum AtomicCircularBufferError<T> {
    /// The buffer was full; the refused element is handed back.
    BufferFull(T),
    /// The buffer was empty.
    BufferEmpty,
}

/// A circular buffer over `CAPACITY` slots.
#[derive(Debug)]
pub struct AtomicCircularBuffer<T, const CAPACITY: usize> {
    /// The ring's slots; a slot is `Some` exactly while an element lives
    /// in it.
    pub slots: Vec<Option<T>>,
    /// The slot of the oldest element.
    pub tail: usize,
    /// The slot the next element goes into.
    pub head: usize,
    /// How many elements the ring holds.
    pub count: usize,
}

impl<T, const CAPACITY: usize> View for AtomicCircularBuffer<T, CAPACITY> {
    type V = Seq<T>;

    /// The elements the buffer holds, oldest first.
    open spec fn view(&self) -> Seq<T> {
        Seq::new(
            self.count as nat,
            |k: int| self.slots@[ring_slot(self.tail as int, k, CAPACITY as int)].unwrap(),
        )
    }
}

impl<T, const CAPACITY: usize> AtomicCircularBuffer<T, CAPACITY> {
    /// The ring's internal invariant: the cursors stay inside the ring,
    /// the count matches the head cursor, and every live slot is filled.
    pub open spec fn wf(self) -> bool {
        &&& self.slots@.len() == CAPACITY
        &&& self.count <= CAPACITY
        &&& (CAPACITY > 0 ==> self.tail < CAPACITY)
        &&& (CAPACITY == 0 ==> self.tail == 0 && self.head == 0)
        &&& (CAPACITY > 0 ==> self.head as int == ring_slot(
            self.tail as int,
            self.count as int,
            CAPACITY as int,
        ))
        &&& forall|k: int|
            0 <= k < self.count ==> (#[trigger] self.slots@[ring_slot(
                self.tail as int,
                k,
                CAPACITY as int,
            )]) is Some
    }

    /// An empty buffer.
    pub fn new() -> (r: Self)
        ensures
            r.wf(),
            r@ == Seq::<T>::empty(),
    {
        let mut slots: Vec<Option<T>> = Vec::new();
        let mut i: usize = 0;
        while i < CAPACITY
            invariant
                i <= CAPACITY,
                slots@.len() == i,
            decreases CAPACITY - i,
        {
            slots.push(None);
            i = i + 1;
        }
        let r = AtomicCircularBuffer { slots, tail: 0, head: 0, count: 0 };
        proof {
            assert(r@ =~= Seq::<T>::empty());
        }
        r
    }

    /// How many elements the buffer holds.
    pub fn len(&self) -> (n: usize)
        ensures
            n == self@.len(),
    {
        self.count
    }

    /// Append one element at the back, unless the buffer is full; a
    /// refused element is handed back inside the error.
    pub fn push(&mut self, data: T) -> (r: Result<(), AtomicCircularBufferError<T>>)
        requires
            old(self).wf(),
        ensures
            final(self).wf(),
            old(self)@.len() == CAPACITY ==> (final(self)@ == old(self)@ && (r matches Err(
                AtomicCircularBufferError::BufferFull(d),
            ) && d == data)),
            old(self)@.len() < CAPACITY ==> (final(self)@ == old(self)@.push(data) && r is Ok),
    {
        if self.count == CAPACITY {
            return Err(AtomicCircularBufferError::BufferFull(data));
        }
        self.slots.set(self.head, Some(data));
        self.head = if self.head + 1 == CAPACITY {
            0
        } else {
            self.head + 1
        };
        self.count = self.count + 1;
        proof {
            assert(self@ =~= old(self)@.push(data));
        }
        Ok(())
    }

    /// Remove and return the oldest element, unless the buffer is empty.
    pub fn pop(&mut self) -> (r: Result<T, AtomicCircularBufferError<T>>)
        requires
            old(self).wf(),
        ensures
            final(self).wf(),
            old(self)@.len() == 0 ==> (final(self)@ == old(self)@ && (r matches Err(e) && e
                is BufferEmpty)),
            old(self)@.len() > 0 ==> (final(self)@ == old(self)@.skip(1) && (r matches Ok(d) && d
                == old(self)@[0])),
    {
        if self.count == 0 {
            return Err(AtomicCircularBufferError::BufferEmpty);
        }
        let mut taken: Option<T> = None;
        self.slots.set_and_swap(self.tail, &mut taken);
        self.tail = if self.tail + 1 == CAPACITY {
            0
        } else {
            self.tail + 1
        };
        self.count = self.count - 1;
        proof {
            let t0 = old(self).tail as int;
            let c = CAPACITY as int;
            assert(ring_slot(t0, 0, c) == t0);
            assert(old(self).slots@[ring_slot(t0, 0, c)] is Some);
            assert forall|k: int| 0 <= k < self.count implies (#[trigger] self.slots@[ring_slot(
                self.tail as int,
                k,
                c,
            )]) is Some by {
                assert(ring_slot(self.tail as int, k, c) == ring_slot(t0, k + 1, c));
                assert(old(self).slots@[ring_slot(t0, k + 1, c)] is Some);
                assert(ring_slot(t0, k + 1, c) != t0);
            }
            assert(self.head as int == ring_slot(self.tail as int, self.count as int, c));
            assert(self@ =~= old(self)@.skip(1));
        }
        match taken {
            Some(data) => Ok(data),
            None => Err(AtomicCircularBufferError::BufferEmpty),
        }
    }
}

} // verus!
