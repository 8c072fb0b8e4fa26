//! A store kept by a redis server.

pub mod svc;
