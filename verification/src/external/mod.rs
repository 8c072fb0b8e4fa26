//! Stores kept by outside services.

pub mod kvstore;
