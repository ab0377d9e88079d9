//! The sink that a session reports to.

use vstd::prelude::*;
use crate::pty::protocol::{Reply, SinkCall};
use crate::pty::size::WindowSize;

verus! {

/// `std::io::Error`, the error a sink may fail to start with. It is only
/// carried through: nothing is claimed of what it holds.
#[verifier::external_type_specification]
#[verifier::external_body]
pub struct ExIoError(std::io::Error);

/// What a session hands its observations to.
///
/// Only `start` can fail, and a session whose sink fails to start ends
/// before a child exists. The other calls cannot fail as far as the session
/// is concerned: a sink that runs into trouble later deals with it itself.
/// A sink that wants times reads the clock itself; none are passed in.
pub trait Recorder {
    /// Called once, before the child exists, with the columns and rows the session starts with.
    fn start(&mut self, size: (u16, u16)) -> Result<(), std::io::Error>;

    /// Called with what was read from the child in one run of reads.
    fn output(&mut self, data: &[u8]);

    /// Called with what was read from the user in one run of reads, if the
    /// session is to capture input.
    fn input(&mut self, data: &[u8]);

    /// Called with the new columns and rows when the window changed size.
    fn resize(&mut self, size: (u16, u16));
}

/// A recorder together with the list of the calls made on it.
///
/// Every call goes through to the recorder with the arguments given, and is
/// noted; this is what lets a contract say which calls a recorder received.
pub struct Logged<'a, R: Recorder> {
    inner: &'a mut R,
    failure: Option<std::io::Error>,
    calls: Ghost<Seq<SinkCall>>,
}

impl<'a, R: Recorder> Logged<'a, R> {
    /// The calls made so far, oldest first.
    pub closed spec fn calls(&self) -> Seq<SinkCall> {
        self.calls@
    }

    /// Whether the error of a failed `start` is kept.
    pub closed spec fn holds_failure(&self) -> bool {
        self.failure is Some
    }

    /// Wraps a recorder on which no call has been made yet.
    pub fn new(inner: &'a mut R) -> (r: Self)
        ensures
            r.calls() == Seq::<SinkCall>::empty(),
            !r.holds_failure(),
    {
        Logged { inner, failure: None, calls: Ghost(Seq::empty()) }
    }

    /// Keeps the error of a `start` that failed, for [`Logged::take_failure`].
    pub fn keep_failure(&mut self, result: Result<(), std::io::Error>)
        ensures
            final(self).calls() == old(self).calls(),
            final(self).holds_failure() == (result is Err || old(self).holds_failure()),
    {
        match result {
            Ok(_) => {},
            Err(error) => {
                self.failure = Some(error);
            },
        }
    }

    /// Hands out the error that the recorder failed to start with, if it did.
    pub fn take_failure(&mut self) -> (failure: Option<std::io::Error>)
        ensures
            final(self).calls() == old(self).calls(),
            failure is Some == old(self).holds_failure(),
            !final(self).holds_failure(),
    {
        self.failure.take()
    }

    /// Calls `start` with `size` and hands back what the recorder answered.
    pub fn start(&mut self, size: WindowSize) -> (r: Result<(), std::io::Error>)
        ensures
            final(self).calls() == old(self).calls().push(SinkCall::Start(size)),
            final(self).holds_failure() == old(self).holds_failure(),
    {
        let r = self.inner.start(size.as_pair());
        proof {
            self.calls@ = self.calls@.push(SinkCall::Start(size));
        }
        r
    }

    /// Calls `output` with `data`.
    pub fn output(&mut self, data: &[u8])
        ensures
            final(self).calls() == old(self).calls().push(SinkCall::Output(data@)),
            final(self).holds_failure() == old(self).holds_failure(),
    {
        self.inner.output(data);
        proof {
            self.calls@ = self.calls@.push(SinkCall::Output(data@));
        }
    }

    /// Calls `input` with `data`.
    pub fn input(&mut self, data: &[u8])
        ensures
            final(self).calls() == old(self).calls().push(SinkCall::Input(data@)),
            final(self).holds_failure() == old(self).holds_failure(),
    {
        self.inner.input(data);
        proof {
            self.calls@ = self.calls@.push(SinkCall::Input(data@));
        }
    }

    /// Calls `resize` with `size`.
    pub fn resize(&mut self, size: WindowSize)
        ensures
            final(self).calls() == old(self).calls().push(SinkCall::Resize(size)),
            final(self).holds_failure() == old(self).holds_failure(),
    {
        self.inner.resize(size.as_pair());
        proof {
            self.calls@ = self.calls@.push(SinkCall::Resize(size));
        }
    }
}

/// The reply that tells a session how the sink's `start` went: `Done` if it
/// succeeded, `Failed` if it did not.
pub fn reply_to_start(result: &Result<(), std::io::Error>) -> (reply: Reply)
    ensures
        result is Ok ==> reply@ is Done,
        result is Err ==> reply@ is Failed,
{
    match result {
        Ok(_) => Reply::Done,
        Err(_) => Reply::Failed,
    }
}

} // verus!
