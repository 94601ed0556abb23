//! Authentication of inbound webhook notifications and their relay onto an
//! event bus: freshness of the claimed publish time, an HMAC-SHA3-256
//! signature over a canonical JSON encoding, and the forwarding decision.

pub mod freshness;
pub mod payload;
pub mod pipeline;
pub mod signature;
