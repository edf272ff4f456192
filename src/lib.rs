//! Participant engine of an append-only, authenticated channel protocol.
//!
//! The engine decides message addresses, headers, cursors and store updates;
//! the cryptographic work (sponge, signatures, key agreement, link derivation
//! and randomness) is supplied by an implementation of [`backend::Backend`].
pub mod backend;
pub mod cursors;
pub mod error;
pub mod link;
pub mod message;
pub mod publish;
pub mod receive;
pub mod sequence;
pub mod store;
pub mod user;
pub mod hdf;
