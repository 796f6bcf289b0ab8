//! Verified core of a coin-flip consumer of an external entropy oracle.
//!
//! The consumer asks the oracle for random bytes, paying a fee quoted for an
//! expected callback gas budget; the oracle later calls back with the bytes
//! and the consumer's own correlation payload, and the consumer derives a
//! heads/tails outcome from the last byte. This crate holds the protocol's
//! fee accounting, request construction, callback authentication and outcome
//! resolution, each with a proved contract; the thin host layer that moves
//! messages and funds on the wire lives outside it.

pub mod callback;
pub mod config;
pub mod error;
pub mod fee;
pub mod identity;
pub mod payload;
pub mod request;
pub mod resolve;
