//! Decoding of registry-framed protobuf payloads.
//!
//! A payload carries a magic byte, a big-endian schema identifier, a
//! varint-encoded message-index path and the raw protobuf bytes. The decoder
//! turns the identifier into a schema closure (fetched through a caller-driven
//! registry exchange), compiles the closure into a descriptor context, resolves
//! the index path to a fully qualified message name and decodes the payload.

pub mod cache;
pub mod closure;
pub mod common;
pub mod context;
pub mod decoder;
pub mod error;
pub mod framing;
pub mod pool;
pub mod resolver;
pub mod schema_registry;
pub mod wire;
