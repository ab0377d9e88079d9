//! The two forms a recording is kept in.

pub mod asciicast;
pub mod json;
pub mod probe;
pub mod raw;
