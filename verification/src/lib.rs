//! A key/value store reached through request messages: requests are
//! validated into commands, buckets are checked and may be folded into the
//! key as a prefix, and the stores answer with replies.

pub mod text;
pub mod uuid;
pub mod bucket;
pub mod cmd;
pub mod external;
pub mod internal;
pub mod rpc;
pub mod status;
