//! Buckets: checked names that partition the keys of a store.

pub mod bkt;
pub mod checker;
pub mod prefix;
pub mod svc;
