//! Driver core for the SDS011 particulate-matter sensor.
//!
//! The sensor speaks a fixed-size, checksummed, start/stop-delimited binary
//! protocol over a serial line. This crate holds the protocol engine: frame
//! encoding and checksums ([`codec`]), the typed command set ([`commands`]),
//! frame synchronization and validation ([`synchronizer`]), sensor state
//! tracking ([`sensor`]), and measurement decoding ([`measurement`]).
//! Opening and reading the physical port is left to the embedding program,
//! which feeds bytes to the state machines defined here.

pub mod codec;
pub mod commands;
pub mod errors;
pub mod measurement;
pub mod sensor;
pub mod synchronizer;
