//! Verification of drand randomness beacons over BLS12-381.
//!
//! A beacon round is a signature of the second group over a message point of
//! the same group, under a public key of the first. The library decodes the
//! three compressed points, checks the pairing equation between them, and
//! derives the round's randomness from a signature that holds. Around that it
//! keeps the entry points of the contract that offers the verification on a
//! chain, as functions of the stored configuration and the message.
//!
//! The curve arithmetic is the `paired` crate's; `curve` holds every call into
//! it, each with the contract that the rest of the library is proved against.

pub mod codec;
pub mod contract;
pub mod curve;
pub mod error;
pub mod msg;
pub mod pairing;
pub mod randomness;
pub mod response;
pub mod state;
pub mod text;
pub mod verification;
