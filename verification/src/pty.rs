//! The pseudo-terminal supervisor.
//!
//! [`Session`] is the executable supervisor. [`model`] says what it
//! computes, [`run`] what a driver observes of it over time, [`sound`] what
//! stays true throughout, and [`laws`] what follows from that.

pub mod laws;
pub mod model;
pub mod protocol;
pub mod queue;
pub mod recorder;
pub mod run;
pub mod session;
pub mod size;
pub mod sound;
pub mod status;

pub use model::Phase;
pub use protocol::{Command, Interest, Readiness, Reply, Signal, Source};
pub use queue::ByteQueue;
pub use recorder::{reply_to_start, Logged, Recorder};
pub use session::Session;
pub use size::{effective_size, SizeOverride, WindowSize};
pub use status::{exit_code, ChildStatus};
