//! Adapters between a transaction-verification script and the native
//! verification libraries it loads at run time: RSA (as used by DKIM),
//! secp256k1 recovery and sparse-Merkle-tree proofs.
//!
//! The native calls themselves cross a foreign boundary and are made by the
//! host around this crate. What stands here is everything that decides: the
//! argument buffers handed to a native routine, the checks made before a call,
//! how a native status becomes a result, and the DKIM candidate scan.
pub mod librsa;
pub mod libsecp256k1;
pub mod libsmt;
pub mod status;
