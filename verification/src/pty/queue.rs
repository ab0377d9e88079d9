//! Byte queues between the two terminals.

use vstd::prelude::*;
use vstd::slice::slice_subrange;

verus! {

/// Bytes read from one side and not yet written to the other, oldest first.
///
/// Bytes leave the queue in the order in which they entered it: `append`
/// adds at the back, `consume` removes from the front, nothing else changes
/// the contents.
#[derive(Debug)]
pub struct ByteQueue {
    bytes: Vec<u8>,
}

impl View for ByteQueue {
    type V = Seq<u8>;

    closed spec fn view(&self) -> Seq<u8> {
        self.bytes@
    }
}

impl ByteQueue {
    /// An empty queue.
    pub fn new() -> (q: ByteQueue)
        ensures
            q@ == Seq::<u8>::empty(),
    {
        ByteQueue { bytes: Vec::new() }
    }

    /// Number of bytes waiting.
    pub fn len(&self) -> (n: usize)
        ensures
            n == self@.len(),
    {
        self.bytes.len()
    }

    /// Whether nothing is waiting.
    pub fn is_empty(&self) -> (b: bool)
        ensures
            b == (self@.len() == 0),
    {
        self.bytes.len() == 0
    }

    /// Adds `chunk` behind everything already waiting.
    pub fn append(&mut self, chunk: &[u8])
        ensures
            final(self)@ == old(self)@ + chunk@,
    {
        self.bytes.extend_from_slice(chunk);
        assert(self.bytes@ =~= old(self).bytes@ + chunk@);
    }

    /// Everything waiting, oldest byte first.
    pub fn pending(&self) -> (r: &[u8])
        ensures
            r@ == self@,
    {
        self.bytes.as_slice()
    }

    /// The bytes that entered after the first `mark` ones.
    pub fn since(&self, mark: usize) -> (r: &[u8])
        requires
            mark <= self@.len(),
        ensures
            r@ == self@.skip(mark as int),
    {
        let n: usize = self.bytes.len();
        slice_subrange(self.bytes.as_slice(), mark, n)
    }

    /// Removes the `n` oldest bytes and keeps the rest in order.
    pub fn consume(&mut self, n: usize)
        requires
            n <= old(self)@.len(),
        ensures
            final(self)@ == old(self)@.skip(n as int),
    {
        let rest: Vec<u8> = self.bytes.split_off(n);
        self.bytes = rest;
    }
}

} // verus!
