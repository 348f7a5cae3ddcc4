//! The service façade: submit a signed offer, fetch it back by its code.
use vstd::prelude::*;

use crate::code::{code_of, derive_code};
use crate::crypto::{bls_verifies, content_hash, sha256_of, signature_verifies};
use crate::store::{OfferStore, PutOutcome};

verus! {

/// Why a submission failed.
#[derive(PartialEq, Eq, Structural, Debug, Clone, Copy)]
pub enum SubmitError {
    /// The offer text could not be decoded to canonical bytes.
    Decode,
    /// The signature does not verify the content hash under the trusted key.
    Unauthorized,
    /// The code is already held by other bytes; the first writer wins.
    Collision,
}

impl SubmitError {
    /// The boundary status of the failure: an undecodable offer is a server
    /// fault (500), a bad signature is unauthorized (401), a collision is a
    /// conflict (409).
    pub fn status(&self) -> (r: u16)
        ensures
            r == match self {
                SubmitError::Decode => 500u16,
                SubmitError::Unauthorized => 401u16,
                SubmitError::Collision => 409u16,
            },
    {
        match self {
            SubmitError::Decode => 500,
            SubmitError::Unauthorized => 401,
            SubmitError::Collision => 409,
        }
    }
}

/// The code of an offer's canonical bytes.
pub open spec fn code_for(payload: Seq<u8>) -> Seq<u8> {
    code_of(sha256_of(payload))
}

/// The view of a decoded payload.
pub open spec fn payload_view(decoded: Option<Vec<u8>>) -> Option<Seq<u8>> {
    match decoded {
        Some(p) => Some(p@),
        None => None,
    }
}

/// What a submission answers, given the store's contents, the trusted key,
/// the signature and the decoded offer (`None` when decoding failed).
pub open spec fn submit_result(
    store: Map<Seq<u8>, Seq<u8>>,
    public_key: Seq<u8>,
    signature: Seq<u8>,
    decoded: Option<Seq<u8>>,
) -> Result<Seq<u8>, SubmitError> {
    match decoded {
        None => Err(SubmitError::Decode),
        Some(p) => if !bls_verifies(signature, public_key, sha256_of(p)) {
            Err(SubmitError::Unauthorized)
        } else if store.contains_key(code_for(p)) && store[code_for(p)] != p {
            Err(SubmitError::Collision)
        } else {
            Ok(code_for(p))
        },
    }
}

/// The store's contents after a submission: the payload is added under its
/// code on success, and nothing changes otherwise.
pub open spec fn store_after_submit(
    store: Map<Seq<u8>, Seq<u8>>,
    public_key: Seq<u8>,
    signature: Seq<u8>,
    decoded: Option<Seq<u8>>,
) -> Map<Seq<u8>, Seq<u8>> {
    match submit_result(store, public_key, signature, decoded) {
        Ok(c) => store.insert(c, decoded->Some_0),
        Err(_) => store,
    }
}

/// What a fetch answers: the payload under the code, or `None`.
pub open spec fn fetch_result(store: Map<Seq<u8>, Seq<u8>>, code: Seq<u8>) -> Option<Seq<u8>> {
    if store.contains_key(code) {
        Some(store[code])
    } else {
        None
    }
}

/// The exchange: one trusted public key, fixed at construction, and the
/// store of accepted offers.
pub struct OfferExchange {
    public_key: [u8; 48],
    store: OfferStore,
}

impl View for OfferExchange {
    type V = Map<Seq<u8>, Seq<u8>>;

    closed spec fn view(&self) -> Map<Seq<u8>, Seq<u8>> {
        self.store@
    }
}

impl OfferExchange {
    /// The trusted public key.
    pub closed spec fn key(&self) -> Seq<u8> {
        self.public_key@
    }

    pub closed spec fn wf(&self) -> bool {
        self.store.wf()
    }

    /// An exchange that trusts `public_key` and holds no offers.
    pub fn new(public_key: [u8; 48]) -> (r: Self)
        ensures
            r.wf(),
            r.key() == public_key@,
            r@ == Map::<Seq<u8>, Seq<u8>>::empty(),
    {
        OfferExchange { public_key, store: OfferStore::new() }
    }

    /// The trusted public key.
    pub fn public_key(&self) -> (r: [u8; 48])
        ensures
            r@ == self.key(),
    {
        self.public_key
    }

    /// Number of stored offers.
    pub fn len(&self) -> (r: usize)
        requires
            self.wf(),
        ensures
            r == self@.dom().len(),
    {
        self.store.len()
    }

    /// Submits an offer, given as its decoded canonical bytes (`None` when
    /// the text did not decode), with a signature over its content hash.
    /// On success the offer is stored under its code and the code returned.
    pub fn submit(&mut self, decoded: Option<Vec<u8>>, signature: &[u8; 96]) -> (r: Result<
        [u8; 12],
        SubmitError,
    >)
        requires
            old(self).wf(),
        ensures
            final(self).wf(),
            final(self).key() == old(self).key(),
            match r {
                Ok(c) => submit_result(old(self)@, old(self).key(), signature@, payload_view(decoded))
                    == Ok::<Seq<u8>, SubmitError>(c@),
                Err(e) => submit_result(old(self)@, old(self).key(), signature@, payload_view(decoded))
                    == Err::<Seq<u8>, SubmitError>(e),
            },
            final(self)@ == store_after_submit(
                old(self)@,
                old(self).key(),
                signature@,
                payload_view(decoded),
            ),
    {
        let payload = match decoded {
            Some(p) => p,
            None => return Err(SubmitError::Decode),
        };
        let hash = content_hash(&payload);
        if !signature_verifies(signature, &self.public_key, &hash) {
            return Err(SubmitError::Unauthorized);
        }
        let code = derive_code(&hash);
        let ghost before = self.store@;
        let ghost p = payload@;
        match self.store.put(code, payload) {
            PutOutcome::Collision => Err(SubmitError::Collision),
            _ => {
                assert(self.store@ =~= before.insert(code@, p));
                Ok(code)
            },
        }
    }

    /// Fetches the canonical bytes stored under `code`; an unknown code
    /// gives `None`, which is no error.
    pub fn fetch(&self, code: &[u8; 12]) -> (r: Option<Vec<u8>>)
        requires
            self.wf(),
        ensures
            payload_view(r) == fetch_result(self@, code@),
    {
        self.store.get(code)
    }
}

} // verus!
