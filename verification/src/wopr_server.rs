//! What the server decides: the scenarios it boots, the posture it reports,
//! the bytes it persists, and how a terminal's bytes drive a session.

pub mod persist;
pub mod posture;
pub mod terminal;
