//! A monitoring client for long-lived JSON-RPC subscription streams.
//!
//! The crate decodes inbound notification frames into typed records
//! (decode-or-passthrough: a frame that does not match the schema is
//! forwarded verbatim, never dropped), drives one connection's
//! handshake/streaming/termination lifecycle with a heartbeat-based
//! liveness guard, and schedules cohort-wide restarts.  All I/O lives
//! outside this crate; everything here is pure logic with contracts.

pub mod json;
pub mod blocks;
pub mod records;
pub mod session;
pub mod supervisor;
