//! Decoder for the binary messages of a database streaming-replication
//! connection: the outer physical framing (WAL data chunks and keepalive
//! pings) and the inner logical stream of typed row-change events.
//!
//! Every decoder is total: any byte buffer yields either a fully formed
//! message or a typed error, never a panic and never a partial result.

pub mod decode;
pub mod grammar;
pub mod laws;
pub mod messages;
pub mod wire;
