use chia_wallet_sdk::chia::bls::{sign, SecretKey, Signature};
use chia_wallet_sdk::chia::protocol::SpendBundle;
use chia_wallet_sdk::chia::sha2::Sha256;
use chia_wallet_sdk::chia::traits::Streamable;
use offer_exchange::code::derive_code;
use offer_exchange::exchange::{OfferExchange, SubmitError};

fn secret_key() -> SecretKey {
    SecretKey::from_seed(&[7u8; 32])
}

fn exchange() -> OfferExchange {
    OfferExchange::new(secret_key().public_key().to_bytes())
}

/// The canonical bytes of an offer: an empty spend bundle, optionally with a
/// distinguishing aggregated signature.
fn offer_bytes(seed: u8) -> Vec<u8> {
    let aggregated = if seed == 0 {
        Signature::default()
    } else {
        sign(&SecretKey::from_seed(&[seed; 32]), b"offer1")
    };
    SpendBundle::new(vec![], aggregated).to_bytes().unwrap()
}

fn sha256(bytes: &[u8]) -> [u8; 32] {
    let mut hasher = Sha256::new();
    hasher.update(bytes);
    hasher.finalize()
}

fn signature_for(bytes: &[u8]) -> [u8; 96] {
    sign(&secret_key(), sha256(bytes)).to_bytes()
}

#[test]
fn valid_submission_is_stored_and_fetched_back() {
    let mut ex = exchange();
    let payload = offer_bytes(0);
    let code = ex.submit(Some(payload.clone()), &signature_for(&payload)).unwrap();
    let hash = sha256(&payload);
    assert_eq!(&code[..], &hash[..12]);
    let bundle = SpendBundle::from_bytes(&payload).unwrap();
    assert_eq!(bundle.hash(), hash);
    assert_eq!(ex.fetch(&code), Some(payload));
    assert_eq!(ex.len(), 1);
}

#[test]
fn signature_over_other_hash_is_unauthorized() {
    let mut ex = exchange();
    let payload = offer_bytes(0);
    let other = offer_bytes(3);
    let r = ex.submit(Some(payload.clone()), &signature_for(&other));
    assert_eq!(r, Err(SubmitError::Unauthorized));
    assert_eq!(ex.fetch(&derive_code(&sha256(&payload))), None);
    assert_eq!(ex.len(), 0);
}

#[test]
fn signature_under_other_key_is_unauthorized() {
    let mut ex = exchange();
    let payload = offer_bytes(0);
    let foreign = sign(&SecretKey::from_seed(&[9u8; 32]), sha256(&payload)).to_bytes();
    assert_eq!(ex.submit(Some(payload), &foreign), Err(SubmitError::Unauthorized));
    assert_eq!(ex.len(), 0);
}

#[test]
fn malformed_signature_is_unauthorized() {
    let mut ex = exchange();
    let payload = offer_bytes(0);
    assert_eq!(ex.submit(Some(payload), &[0xffu8; 96]), Err(SubmitError::Unauthorized));
    assert_eq!(ex.len(), 0);
}

#[test]
fn undecodable_offer_is_a_decode_error() {
    let mut ex = exchange();
    let payload = offer_bytes(0);
    assert_eq!(ex.submit(None, &signature_for(&payload)), Err(SubmitError::Decode));
    assert_eq!(ex.len(), 0);
}

#[test]
fn duplicate_submission_answers_same_code_with_one_record() {
    let mut ex = exchange();
    let payload = offer_bytes(0);
    let sig = signature_for(&payload);
    let first = ex.submit(Some(payload.clone()), &sig).unwrap();
    let second = ex.submit(Some(payload.clone()), &sig).unwrap();
    assert_eq!(first, second);
    assert_eq!(ex.len(), 1);
    assert_eq!(ex.fetch(&first), Some(payload));
}

#[test]
fn code_does_not_depend_on_store_state() {
    let mut a = exchange();
    let mut b = exchange();
    let other = offer_bytes(4);
    b.submit(Some(other.clone()), &signature_for(&other)).unwrap();
    let payload = offer_bytes(0);
    let sig = signature_for(&payload);
    let ca = a.submit(Some(payload.clone()), &sig).unwrap();
    let cb = b.submit(Some(payload), &sig).unwrap();
    assert_eq!(ca, cb);
    assert_eq!(b.len(), 2);
}

#[test]
fn unknown_code_fetches_none() {
    let ex = exchange();
    assert_eq!(ex.fetch(&[5u8; 12]), None);
}

#[test]
fn distinct_offers_get_distinct_codes() {
    let mut ex = exchange();
    let first_offer = offer_bytes(0);
    let second_offer = offer_bytes(5);
    let first_code = ex.submit(Some(first_offer.clone()), &signature_for(&first_offer)).unwrap();
    let second_code = ex.submit(Some(second_offer.clone()), &signature_for(&second_offer)).unwrap();
    assert_ne!(first_code, second_code);
    assert_eq!(ex.fetch(&first_code), Some(first_offer));
    assert_eq!(ex.fetch(&second_code), Some(second_offer));
}

#[test]
fn public_key_is_kept() {
    let key = secret_key().public_key().to_bytes();
    assert_eq!(exchange().public_key(), key);
}

#[test]
fn statuses_of_submit_errors() {
    assert_eq!(SubmitError::Decode.status(), 500);
    assert_eq!(SubmitError::Unauthorized.status(), 401);
    assert_eq!(SubmitError::Collision.status(), 409);
}
