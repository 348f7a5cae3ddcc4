//! Laws of the exchange, stated over the models that `submit` and `fetch`
//! are proved against.
use vstd::prelude::*;

use crate::crypto::{bls_verifies, sha256_of};
use crate::exchange::{code_for, fetch_result, store_after_submit, submit_result, SubmitError};

verus! {

/// The code of an accepted offer depends on its content alone: whatever the
/// store holds and whichever valid signature came with it, every successful
/// submission of the same bytes answers the same code, the code of the bytes.
pub proof fn code_is_function_of_content(
    store1: Map<Seq<u8>, Seq<u8>>,
    store2: Map<Seq<u8>, Seq<u8>>,
    public_key: Seq<u8>,
    signature1: Seq<u8>,
    signature2: Seq<u8>,
    payload: Seq<u8>,
)
    requires
        submit_result(store1, public_key, signature1, Some(payload)) is Ok,
        submit_result(store2, public_key, signature2, Some(payload)) is Ok,
    ensures
        submit_result(store1, public_key, signature1, Some(payload)) == submit_result(
            store2,
            public_key,
            signature2,
            Some(payload),
        ),
        submit_result(store1, public_key, signature1, Some(payload)) == Ok::<
            Seq<u8>,
            SubmitError,
        >(code_for(payload)),
{
}

/// Submitting the same signed offer a second time answers the same code and
/// leaves the store as the first submission left it, holding that one record.
pub proof fn resubmission_is_idempotent(
    store: Map<Seq<u8>, Seq<u8>>,
    public_key: Seq<u8>,
    signature: Seq<u8>,
    payload: Seq<u8>,
)
    requires
        submit_result(store, public_key, signature, Some(payload)) is Ok,
    ensures
        ({
            let after = store_after_submit(store, public_key, signature, Some(payload));
            &&& submit_result(after, public_key, signature, Some(payload)) == submit_result(
                store,
                public_key,
                signature,
                Some(payload),
            )
            &&& store_after_submit(after, public_key, signature, Some(payload)) == after
            &&& after.contains_key(code_for(payload))
            &&& after[code_for(payload)] == payload
            &&& after.remove(code_for(payload)) == store.remove(code_for(payload))
        }),
{
    let after = store_after_submit(store, public_key, signature, Some(payload));
    assert(after.insert(code_for(payload), payload) =~= after);
    assert(after.remove(code_for(payload)) =~= store.remove(code_for(payload)));
}

/// A signature that does not verify the content hash under the trusted key
/// is refused as unauthorized, and the store is left as it was.
pub proof fn unauthorized_submission_never_writes(
    store: Map<Seq<u8>, Seq<u8>>,
    public_key: Seq<u8>,
    signature: Seq<u8>,
    payload: Seq<u8>,
)
    requires
        !bls_verifies(signature, public_key, sha256_of(payload)),
    ensures
        submit_result(store, public_key, signature, Some(payload)) == Err::<Seq<u8>, SubmitError>(
            SubmitError::Unauthorized,
        ),
        store_after_submit(store, public_key, signature, Some(payload)) == store,
{
}

/// After a successful submission, fetching the answered code gives back the
/// submitted bytes.
pub proof fn submitted_offer_round_trips(
    store: Map<Seq<u8>, Seq<u8>>,
    public_key: Seq<u8>,
    signature: Seq<u8>,
    payload: Seq<u8>,
)
    requires
        submit_result(store, public_key, signature, Some(payload)) is Ok,
    ensures
        fetch_result(
            store_after_submit(store, public_key, signature, Some(payload)),
            submit_result(store, public_key, signature, Some(payload))->Ok_0,
        ) == Some(payload),
{
}

/// Fetching a code that the store does not hold gives `None`, and a
/// submission that does not answer that code leaves it absent: a code never
/// submitted is never found.
pub proof fn unsubmitted_code_is_absent(
    store: Map<Seq<u8>, Seq<u8>>,
    public_key: Seq<u8>,
    signature: Seq<u8>,
    decoded: Option<Seq<u8>>,
    code: Seq<u8>,
)
    requires
        !store.contains_key(code),
        submit_result(store, public_key, signature, decoded) != Ok::<Seq<u8>, SubmitError>(code),
    ensures
        fetch_result(store, code) == None::<Seq<u8>>,
        !store_after_submit(store, public_key, signature, decoded).contains_key(code),
        fetch_result(store_after_submit(store, public_key, signature, decoded), code) == None::<
            Seq<u8>,
        >,
{
}

} // verus!
