//! Key/value services.

pub mod redis;
