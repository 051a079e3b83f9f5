//! Byte-level encodings that a page token is built from.

pub mod base64url;
pub mod le;
pub mod record;
