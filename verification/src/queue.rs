//! Bounded FIFO queue of raw input bytes.
//!
//! The interrupt side pushes single bytes and never blocks: when the queue is
//! full the push fails and the byte is dropped, leaving everything already
//! queued intact.  The task side pops bytes in the exact order they were
//! pushed.

use vstd::prelude::*;

verus! {

/// What one attempted push does to the queued bytes: append when there is
/// room, drop the byte otherwise.
pub open spec fn push_model(q: Seq<u8>, cap: nat, byte: u8) -> Seq<u8> {
    if q.len() < cap {
        q.push(byte)
    } else {
        q
    }
}

/// The queued bytes after attempting to push every byte of `bytes` in order.
pub open spec fn push_all(q: Seq<u8>, cap: nat, bytes: Seq<u8>) -> Seq<u8>
    decreases bytes.len(),
{
    if bytes.len() == 0 {
        q
    } else {
        push_all(push_model(q, cap, bytes[0]), cap, bytes.skip(1))
    }
}

/// Fixed-capacity ring buffer of bytes.  The backing store is allocated once,
/// at construction, so neither pushing nor popping ever allocates — the push
/// side is safe to call from an interrupt handler.
pub struct EventQueue {
    slots: Vec<u8>,
    head: usize,
    len: usize,
}

impl View for EventQueue {
    type V = Seq<u8>;

    /// The queued bytes, oldest first: `len` slots starting at `head`,
    /// wrapping around the end of the backing store.
    closed spec fn view(&self) -> Seq<u8> {
        Seq::new(
            self.len as nat,
            |i: int|
                if self.head + i < self.slots@.len() {
                    self.slots@[self.head + i]
                } else {
                    self.slots@[self.head + i - self.slots@.len()]
                },
        )
    }
}

impl EventQueue {
    pub closed spec fn cap(&self) -> nat {
        self.slots@.len()
    }

    pub closed spec fn wf(&self) -> bool {
        self.len <= self.slots@.len() && (self.head < self.slots@.len() || self.head == 0)
    }

    pub fn with_capacity(capacity: usize) -> (q: EventQueue)
        ensures
            q.wf(),
            q@ == Seq::<u8>::empty(),
            q.cap() == capacity,
    {
        let mut slots: Vec<u8> = Vec::new();
        while slots.len() < capacity
            invariant
                slots@.len() <= capacity,
            decreases capacity - slots@.len(),
        {
            slots.push(0u8);
        }
        let q = EventQueue { slots, head: 0, len: 0 };
        proof {
            assert(q@ =~= Seq::<u8>::empty());
        }
        q
    }

    /// Never blocks: reports `false` and leaves the queue unchanged when full.
    pub fn try_push(&mut self, byte: u8) -> (ok: bool)
        requires
            old(self).wf(),
        ensures
            final(self).wf(),
            final(self).cap() == old(self).cap(),
            ok == (old(self)@.len() < old(self).cap()),
            final(self)@ == push_model(old(self)@, old(self).cap(), byte),
    {
        let cap = self.slots.len();
        if self.len < cap {
            let room = cap - self.len;
            let tail = if self.head < room {
                self.head + self.len
            } else {
                self.head - room
            };
            self.slots[tail] = byte;
            self.len = self.len + 1;
            proof {
                assert(self@ =~= old(self)@.push(byte));
            }
            true
        } else {
            false
        }
    }

    /// Removes and returns the oldest byte, or `None` when empty.
    pub fn try_pop(&mut self) -> (r: Option<u8>)
        requires
            old(self).wf(),
        ensures
            final(self).wf(),
            final(self).cap() == old(self).cap(),
            old(self)@.len() == 0 ==> r is None && final(self)@ == old(self)@,
            old(self)@.len() > 0 ==> r == Some(old(self)@[0]) && final(self)@ == old(self)@.skip(1),
    {
        if self.len > 0 {
            let cap = self.slots.len();
            let r = self.slots[self.head];
            self.head = self.head + 1;
            if self.head == cap {
                self.head = 0;
            }
            self.len = self.len - 1;
            proof {
                assert(self@ =~= old(self)@.skip(1));
            }
            Some(r)
        } else {
            None
        }
    }

    pub fn len(&self) -> (n: usize)
        ensures
            n == self@.len(),
    {
        self.len
    }

    pub fn capacity(&self) -> (c: usize)
        ensures
            c == self.cap(),
    {
        self.slots.len()
    }
}

/// Pushing a whole sequence of bytes keeps them in push order: every byte for
/// which there was room is queued behind what was already there, in the order
/// pushed, and the bytes that found the queue full are dropped without
/// touching anything already queued.
pub proof fn lemma_push_order_preserved(q: Seq<u8>, cap: nat, bytes: Seq<u8>)
    requires
        q.len() <= cap,
    ensures
        push_all(q, cap, bytes) == q + bytes.take(if q.len() + bytes.len() <= cap {
            bytes.len() as int
        } else {
            cap - q.len()
        }),
    decreases bytes.len(),
{
    let room = cap - q.len();
    let kept = if q.len() + bytes.len() <= cap {
        bytes.len() as int
    } else {
        room as int
    };
    if bytes.len() == 0 {
        assert(push_all(q, cap, bytes) == q + bytes.take(kept)) by {
            assert(q + bytes.take(0) =~= q);
        }
    } else if q.len() < cap {
        let q1 = q.push(bytes[0]);
        let rest = bytes.skip(1);
        lemma_push_order_preserved(q1, cap, rest);
        let kept1 = if q1.len() + rest.len() <= cap {
            rest.len() as int
        } else {
            cap - q1.len()
        };
        assert(push_all(q1, cap, rest) == q1 + rest.take(kept1));
        assert(q1 + rest.take(kept1) =~= q + bytes.take(kept1 + 1));
        assert(kept == kept1 + 1);
    } else {
        let rest = bytes.skip(1);
        lemma_push_order_preserved(q, cap, rest);
        assert(push_all(q, cap, rest) == q + rest.take(0));
        assert(q + rest.take(0) =~= q + bytes.take(0));
    }
}

} // verus!
