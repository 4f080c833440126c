//! Discovery handshake and length-delimited stream transport for a
//! client/server streaming application on a local network.
//!
//! The crate covers:
//! - protocol identity: a numeric compatibility identifier derived from the
//!   build's semantic version (`version`);
//! - the 24-byte discovery datagram and its server-side classification
//!   (`handshake`);
//! - the length-delimited frame codec, the per-half validity state and the
//!   per-stream receive buffer pool (`transport`);
//! - the catalog of message shapes carried over the stream (`packets`).
//!
//! The socket calls themselves (UDP broadcast, TCP reads and writes) live
//! outside this crate; every decision taken on the bytes they move is here
//! and verified.

pub mod handshake;
pub mod packets;
pub mod transport;
pub mod version;
