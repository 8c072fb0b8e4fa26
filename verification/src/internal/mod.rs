//! The stores behind the service.

pub mod bytemap;
pub mod btree;
pub mod kv;
pub mod kvcore;
pub mod bucket;
pub mod locked;
