//! A minimal HTTP service: one route that greets, guarded by a CORS policy
//! derived from the startup configuration, and a startup sequence that
//! installs one logging sink, checks the bind address and then serves.

pub mod cors;
pub mod options;
pub mod server;
