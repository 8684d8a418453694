//! The web tier: dashboard, CBSA-style REST, and the JWT lab.

pub mod api;
pub mod http;
pub mod jwt;
