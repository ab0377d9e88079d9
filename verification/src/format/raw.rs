//! The raw form: the child's output and nothing else.

use vstd::prelude::*;
use crate::pty::recorder::Recorder;

verus! {

/// A recorder that keeps the child's output verbatim: every `output` slice
/// in order, with no framing, and nothing else.
#[derive(Debug)]
pub struct RawCapture {
    bytes: Vec<u8>,
}

impl View for RawCapture {
    type V = Seq<u8>;

    closed spec fn view(&self) -> Seq<u8> {
        self.bytes@
    }
}

impl RawCapture {
    /// A capture that holds nothing yet.
    pub fn new() -> (r: RawCapture)
        ensures
            r@ == Seq::<u8>::empty(),
    {
        RawCapture { bytes: Vec::new() }
    }

    /// Everything captured so far.
    pub fn bytes(&self) -> (r: &[u8])
        ensures
            r@ == self@,
    {
        self.bytes.as_slice()
    }

    /// Hands out what was captured and starts over with nothing.
    pub fn take(&mut self) -> (r: Vec<u8>)
        ensures
            r@ == old(self)@,
            final(self)@ == Seq::<u8>::empty(),
    {
        let mut taken: Vec<u8> = Vec::new();
        taken.append(&mut self.bytes);
        assert(taken@ =~= old(self)@);
        taken
    }
}

impl Recorder for RawCapture {
    fn start(&mut self, size: (u16, u16)) -> (r: Result<(), std::io::Error>)
        ensures
            r is Ok,
            final(self)@ == old(self)@,
    {
        Ok(())
    }

    fn output(&mut self, data: &[u8])
        ensures
            final(self)@ == old(self)@ + data@,
    {
        self.bytes.extend_from_slice(data);
        assert(self.bytes@ =~= old(self).bytes@ + data@);
    }

    fn input(&mut self, data: &[u8])
        ensures
            final(self)@ == old(self)@,
    {
    }

    fn resize(&mut self, size: (u16, u16))
        ensures
            final(self)@ == old(self)@,
    {
    }
}

} // verus!
