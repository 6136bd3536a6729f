//! A connection upgrade that wraps the noise handshake, advertises a protocol
//! name qualified by a version checksum, and hands a secured channel back only
//! for peers that an approver accepts.

pub mod protocol;
pub mod upgrade;
