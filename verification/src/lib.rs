//! WOPR: a z/OS-style training simulator, as a verified library.

pub mod text;
pub mod table;
pub mod tn3270;
pub mod wopr_core;
pub mod wopr_web;
pub mod wopr_server;
