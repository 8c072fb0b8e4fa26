//! Stores that keep one store per bucket.

pub mod btree;
pub mod bucketmap;
