//! The 3270 protocol: telnet negotiation, EBCDIC, and the 3270 data stream.

pub mod ebcdic;
pub mod screen;
pub mod stream;
pub mod telnet;
