//! Core of a small task-tracking backend: signed, expiring page tokens for
//! cursor pagination, the cursor window itself, the per-connection cache of
//! prepared statements, and the request validation around them.

pub mod api;
pub mod codec;
pub mod config;
pub mod db;
pub mod domain;
pub mod error;
pub mod pool;
pub mod repo;
pub mod signer;
pub mod text;

pub use error::Error;
