//! A signature-gated, content-addressed exchange for trade offers.
//!
//! An offer arrives as canonical bytes with a signature. The bytes are
//! hashed, the signature over that hash is checked against one trusted
//! public key, a short code is derived from the hash, and the bytes are
//! stored under the code, first writer wins. The code later gives the bytes
//! back.
pub mod code;
pub mod columns;
pub mod crypto;
pub mod exchange;
pub mod laws;
pub mod merge;
pub mod store;
