//! A verifiable append-only store of fixed-size records.
//!
//! Records are admitted only under a valid ed25519 signature, kept in an
//! append-only log, and certified by a Merkle commitment that is rebuilt when
//! the log reaches a power-of-two size.
pub mod accumulator;
pub mod encoding;
pub mod log;
pub mod merkle;
pub mod protocol;
pub mod record;
pub mod signing;
