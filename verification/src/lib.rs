//! Verifiable random function proofs over the Bandersnatch curve, in a
//! non-anonymous mode and in an anonymous ring mode.

pub mod accumulator;
pub mod backend;
pub mod cache;
pub mod codec;
pub mod commitment;
pub mod context;
pub mod ffi;
pub mod laws;
pub mod points;
pub mod pvm;
pub mod ring;
pub mod ring_prover;
pub mod ring_verifier;
pub mod sign;
pub mod srs;
