//! A growable first-in, first-out queue of bytes.
//!
//! Bytes are appended at the back and taken from the front. The queue can be
//! inspected at any offset without removing anything. It has no capacity
//! bound.

use std::collections::VecDeque;
use vstd::prelude::*;

verus! {

/// A first-in, first-out queue of bytes. Its value is the sequence of the
/// bytes it holds, oldest first.
#[derive(Debug)]
pub struct ByteQueue {
    bytes: VecDeque<u8>,
}

impl View for ByteQueue {
    type V = Seq<u8>;

    closed spec fn view(&self) -> Seq<u8> {
        self.bytes@
    }
}

impl ByteQueue {
    /// An empty queue.
    pub fn new() -> (queue: ByteQueue)
        ensures
            queue@ == Seq::<u8>::empty(),
    {
        ByteQueue { bytes: VecDeque::new() }
    }

    /// The number of bytes held.
    pub fn len(&self) -> (n: usize)
        ensures
            n == self@.len(),
    {
        self.bytes.len()
    }

    /// Whether the queue holds no byte.
    pub fn is_empty(&self) -> (empty: bool)
        ensures
            empty == (self@.len() == 0),
    {
        self.bytes.len() == 0
    }

    /// Appends all bytes of `data` at the back, in order.
    pub fn push_slice(&mut self, data: &[u8])
        ensures
            final(self)@ == old(self)@ + data@,
    {
        let mut i: usize = 0;
        while i < data.len()
            invariant
                i <= data@.len(),
                self@ == old(self)@ + data@.subrange(0, i as int),
            decreases data@.len() - i,
        {
            self.bytes.push_back(data[i]);
            i = i + 1;
            assert(self@ =~= old(self)@ + data@.subrange(0, i as int));
        }
        assert(data@.subrange(0, i as int) =~= data@);
    }

    /// The byte at `offset` from the front, if the queue is that long.
    /// Nothing is removed.
    pub fn peek(&self, offset: usize) -> (byte: Option<u8>)
        ensures
            byte == (if offset < self@.len() {
                Some(self@[offset as int])
            } else {
                None
            }),
    {
        if offset < self.bytes.len() {
            Some(self.bytes[offset])
        } else {
            None
        }
    }

    /// Removes and returns the oldest byte, if there is one.
    pub fn pop_front(&mut self) -> (byte: Option<u8>)
        ensures
            old(self)@.len() == 0 ==> byte is None && final(self)@ == old(self)@,
            old(self)@.len() > 0 ==> byte == Some(old(self)@[0]) && final(self)@ == old(self)@.skip(
                1,
            ),
    {
        self.bytes.pop_front()
    }

    /// Removes the `count` oldest bytes, or all bytes if there are fewer.
    /// Returns how many were removed.
    pub fn discard(&mut self, count: usize) -> (removed: usize)
        ensures
            removed == (if count <= old(self)@.len() {
                count as int
            } else {
                old(self)@.len() as int
            }),
            final(self)@ == old(self)@.skip(removed as int),
    {
        let mut removed: usize = 0;
        while removed < count && self.bytes.len() > 0
            invariant
                removed <= count,
                removed <= old(self)@.len(),
                self@ == old(self)@.skip(removed as int),
            decreases count - removed,
        {
            let _ = self.bytes.pop_front();
            removed = removed + 1;
            assert(self@ =~= old(self)@.skip(removed as int));
        }
        removed
    }
}

} // verus!
