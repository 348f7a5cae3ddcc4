//! The two cryptographic primitives the exchange consumes: the content hash
//! of an offer's canonical bytes, and BLS signature verification.
use vstd::prelude::*;

use chia_wallet_sdk::chia::bls::{PublicKey, Signature};
use chia_wallet_sdk::chia::sha2::Sha256;

verus! {

/// The SHA-256 digest of a byte string.
pub uninterp spec fn sha256_of(bytes: Seq<u8>) -> Seq<u8>;

/// Whether a BLS signature (96 bytes) verifies a message under a public key
/// (48 bytes).
pub uninterp spec fn bls_verifies(signature: Seq<u8>, public_key: Seq<u8>, message: Seq<u8>) -> bool;

/// Relies on chia's `Sha256` (`new`, `update`, `finalize`): the SHA-256
/// digest of the bytes, a function of the bytes alone.
#[verifier::external_body]
pub(crate) fn content_hash(payload: &Vec<u8>) -> (r: [u8; 32])
    ensures
        r@ == sha256_of(payload@),
{
    let mut hasher = Sha256::new();
    hasher.update(payload);
    hasher.finalize()
}

/// Relies on `chia_bls::verify`, after `Signature::from_bytes` and
/// `PublicKey::from_bytes`: `true` exactly when both parse and the signature
/// verifies the message; malformed bytes give `false`, never a panic.
#[verifier::external_body]
pub(crate) fn signature_verifies(signature: &[u8; 96], public_key: &[u8; 48], message: &[u8; 32]) -> (r: bool)
    ensures
        r == bls_verifies(signature@, public_key@, message@),
{
    match (Signature::from_bytes(signature), PublicKey::from_bytes(public_key)) {
        (Ok(sig), Ok(pk)) => chia_wallet_sdk::chia::bls::verify(&sig, &pk, message),
        _ => false,
    }
}

} // verus!
