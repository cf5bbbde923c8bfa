//! What holds of the operations on the state, whatever the state and the
//! caller: facts about one operation, and about several in a row.

use vstd::prelude::*;
use crate::documents::documents_of;
use crate::error::Error;
use crate::identity::anonymous_bytes;
use crate::recovery::{address_of_digest, is_standard_signature, keccak256, normalized_recovery_id, recovered_address, recovered_public_key, SIGNATURE_LENGTH};
use crate::state::{authentication, authorized, listed, storage_address, stored, StateView};

verus! {

/// The state after `caller` stored each of `documents` in turn.
pub open spec fn stored_all(state: StateView, caller: Seq<u8>, documents: Seq<Seq<u8>>) -> StateView
    decreases documents.len(),
{
    if documents.len() == 0 {
        state
    } else {
        stored(stored_all(state, caller, documents.drop_last()), caller, documents.last())
    }
}

/// A caller that is not anonymous and presents a 65-byte signature whose
/// compact part is within the curve order, whose recovery indicator is valid
/// and from which a key is recovered over the digest of its identity, is
/// bound to the rightmost 20 bytes of the digest of that key.
pub proof fn law_authentication_binds_key_address(
    state: StateView,
    caller: Seq<u8>,
    signature: Seq<u8>,
    id: u8,
    key: Seq<u8>,
)
    requires
        signature.len() == SIGNATURE_LENGTH,
        caller != anonymous_bytes(),
        is_standard_signature(signature.subrange(0, 64)),
        normalized_recovery_id(signature[64]) == Some(id),
        recovered_public_key(keccak256(caller), signature.subrange(0, 64), id) == Some(key),
    ensures
        authentication(caller, signature) == Ok::<Seq<u8>, Error>(keccak256(key).subrange(12, 32)),
        authorized(state, caller, signature).users.contains_key(caller),
        authorized(state, caller, signature).users[caller] == keccak256(key).subrange(12, 32),
{
    assert(address_of_digest(keccak256(key)) == keccak256(key).subrange(12, 32));
}

/// A signature that is not 65 bytes long is refused for its length, whoever
/// presents it, and the state stays as it was.
pub proof fn law_wrong_length_is_refused(state: StateView, caller: Seq<u8>, signature: Seq<u8>)
    requires
        signature.len() != SIGNATURE_LENGTH,
    ensures
        authentication(caller, signature) == Err::<Seq<u8>, Error>(Error::InvalidSignatureLength),
        recovered_address(caller, signature) == Err::<Seq<u8>, Error>(Error::InvalidSignatureLength),
        authorized(state, caller, signature) == state,
{
}

/// A failed authentication changes nothing, and a successful one changes the
/// address of the caller and nothing else.
pub proof fn law_authentication_touches_one_binding(state: StateView, caller: Seq<u8>, signature: Seq<u8>)
    ensures
        authentication(caller, signature) is Err ==> authorized(state, caller, signature) == state,
        authorized(state, caller, signature).documents == state.documents,
        forall|other: Seq<u8>| other != caller ==> (
            authorized(state, caller, signature).users.contains_key(other) == state.users.contains_key(other)
        ),
        forall|other: Seq<u8>| other != caller && state.users.contains_key(other) ==> (
            authorized(state, caller, signature).users[other] == state.users[other]
        ),
{
}

/// The indicators 27 and 28 stand for the ids 0 and 1, the indicators 0 and 1
/// for themselves, and no other indicator stands for an id.
pub proof fn law_recovery_id_normalization(indicator: u8)
    ensures
        indicator == 27 ==> normalized_recovery_id(indicator) == Some(0u8),
        indicator == 28 ==> normalized_recovery_id(indicator) == Some(1u8),
        indicator == 0 ==> normalized_recovery_id(indicator) == Some(0u8),
        indicator == 1 ==> normalized_recovery_id(indicator) == Some(1u8),
        indicator != 0 && indicator != 1 && indicator != 27 && indicator != 28 ==> normalized_recovery_id(indicator) is None,
{
}

/// An indicator that stands for no id makes a signature of the right length
/// and a standard compact part fail for its recovery id.
pub proof fn law_invalid_recovery_id_is_refused(caller: Seq<u8>, signature: Seq<u8>)
    requires
        signature.len() == SIGNATURE_LENGTH,
        is_standard_signature(signature.subrange(0, 64)),
        normalized_recovery_id(signature[64]) is None,
    ensures
        recovered_address(caller, signature) == Err::<Seq<u8>, Error>(Error::InvalidRecoveryId),
{
}

/// When an identity authenticates twice, the second address is the one on
/// file. The documents of every address, the first among them, stay as they
/// were; the identity sees those of the second address.
pub proof fn law_last_authentication_wins(
    state: StateView,
    caller: Seq<u8>,
    first: Seq<u8>,
    second: Seq<u8>,
)
    requires
        authentication(caller, first) is Ok,
        authentication(caller, second) is Ok,
    ensures
        ({
            let address = authentication(caller, second)->Ok_0;
            let after = authorized(authorized(state, caller, first), caller, second);
            &&& after.users == state.users.insert(caller, address)
            &&& after.users[caller] == address
            &&& after.documents == state.documents
            &&& listed(after, caller) == documents_of(state.documents, address)
        }),
{
    let old_address = authentication(caller, first)->Ok_0;
    let address = authentication(caller, second)->Ok_0;
    let after = authorized(authorized(state, caller, first), caller, second);
    assert(after.users =~= state.users.insert(caller, address));
}

/// A caller without an address cannot store: the anonymous caller is refused
/// as unauthenticated, any other as not authenticated, and the state stays as
/// it was.
pub proof fn law_store_needs_address(state: StateView, caller: Seq<u8>, document: Seq<u8>)
    requires
        !state.users.contains_key(caller),
    ensures
        caller == anonymous_bytes() ==> storage_address(state, caller) == Err::<Seq<u8>, Error>(Error::Unauthenticated),
        caller != anonymous_bytes() ==> storage_address(state, caller) == Err::<Seq<u8>, Error>(Error::NotAuthenticated),
        stored(state, caller, document) == state,
{
}

/// Storing never changes who is bound to which address, and under every
/// address the documents that were there stay, in their order, at the front.
pub proof fn law_documents_append_only(state: StateView, caller: Seq<u8>, document: Seq<u8>, address: Seq<u8>)
    ensures
        stored(state, caller, document).users == state.users,
        documents_of(state.documents, address).is_prefix_of(
            documents_of(stored(state, caller, document).documents, address),
        ),
{
    let before = documents_of(state.documents, address);
    let after = documents_of(stored(state, caller, document).documents, address);
    if storage_address(state, caller) is Ok && storage_address(state, caller)->Ok_0 == address {
        assert(after == before.push(document));
        assert(before =~= after.subrange(0, before.len() as int));
    } else {
        assert(after == before);
        assert(before =~= after.subrange(0, before.len() as int));
    }
}

/// After an authenticated caller has stored documents one after another, it
/// sees what it saw before followed by exactly those documents, in the order
/// in which it stored them.
pub proof fn law_list_returns_stored(state: StateView, caller: Seq<u8>, documents: Seq<Seq<u8>>)
    requires
        caller != anonymous_bytes(),
        state.users.contains_key(caller),
    ensures
        stored_all(state, caller, documents).users == state.users,
        listed(stored_all(state, caller, documents), caller) == listed(state, caller) + documents,
        listed(state, caller).len() == 0 ==> listed(stored_all(state, caller, documents), caller) == documents,
    decreases documents.len(),
{
    if documents.len() == 0 {
        assert(listed(state, caller) + documents =~= listed(state, caller));
    } else {
        let earlier = documents.drop_last();
        law_list_returns_stored(state, caller, earlier);
        let middle = stored_all(state, caller, earlier);
        assert(listed(stored(middle, caller, documents.last()), caller) == listed(middle, caller).push(
            documents.last(),
        ));
        assert((listed(state, caller) + earlier).push(documents.last()) =~= listed(state, caller) + documents);
    }
    if listed(state, caller).len() == 0 {
        assert(listed(state, caller) + documents =~= documents);
    }
}

/// An identity without an address sees no documents, and neither storing nor
/// listing gives it an address.
pub proof fn law_unknown_identity_lists_nothing(state: StateView, caller: Seq<u8>, document: Seq<u8>)
    requires
        !state.users.contains_key(caller),
    ensures
        listed(state, caller) == Seq::<Seq<u8>>::empty(),
        !stored(state, caller, document).users.contains_key(caller),
        listed(stored(state, caller, document), caller) == Seq::<Seq<u8>>::empty(),
{
}

} // verus!
