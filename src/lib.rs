//! Decision logic of a launcher that fetches a package over HTTP and
//! reports its progress: the download session is a state machine that the
//! caller drives with the outcome of each network and filesystem step.

pub mod progress;
pub mod session;
pub mod laws;
pub mod launcher;
