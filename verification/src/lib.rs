//! Verified core of a terminal session recorder.
//!
//! The recorder runs a command inside a pseudo-terminal, copies bytes between
//! the user's terminal and the pseudo-terminal, and hands what it sees to a
//! [`pty::Recorder`]. This crate holds every decision of that supervisor as
//! code that touches no device: the caller performs each [`pty::Command`] and
//! reports what happened as a [`pty::Reply`].
//!
//! - [`pty`] is the supervisor itself: the session, the model it follows and
//!   the laws that hold of every run.
//! - [`format`] turns what a session observes into the lines of a recording.
//! - [`launch`] decides what to run, in which environment, and how to open
//!   the file to record into.
//! - [`locale`] checks that the locale declares UTF-8.

pub mod error;
pub mod format;
pub mod launch;
pub mod locale;
pub mod pty;
