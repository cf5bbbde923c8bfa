//! The requests sent to the threshold key-derivation service, and what is
//! taken from its replies.
//!
//! A request says which key is meant (a derivation path and a key identifier)
//! and, for an encrypted key, for whom (the caller's address). The one outbound
//! call between building the request and reading the reply is the business of
//! the host; nothing here keeps or changes state on either side of it.

use vstd::prelude::*;
use crate::bytes::{copy_bytes, documents_view};
use crate::error::Error;
use crate::identity::{principal_of_text, Identity};
use crate::state::State;
use crate::types::{CanisterId, EncryptedKeyRequestView, KeyIdView, PublicKeyRequestView, VetKDCurve, VetKDEncryptedKeyReply, VetKDEncryptedKeyRequest, VetKDKeyId, VetKDPublicKeyReply, VetKDPublicKeyRequest};

verus! {

/// The textual form of the identifier of the key-derivation service.
pub const VETKD_SYSTEM_API_CANISTER_ID: &'static str = "s55qq-oqaaa-aaaaa-aaakq-cai";

/// The method of the service that answers a public-key request.
pub const PUBLIC_KEY_METHOD: &'static str = "vetkd_public_key";

/// The method of the service that answers an encrypted-key request.
pub const ENCRYPTED_KEY_METHOD: &'static str = "vetkd_encrypted_key";

/// The one key identifier in use: the test key on BLS12-381.
pub open spec fn test_key_id() -> KeyIdView {
    KeyIdView { curve: VetKDCurve::Bls12_381, name: "test_key_1"@ }
}

/// The label `symmetric_key`, in ASCII.
pub open spec fn symmetric_key_label() -> Seq<u8> {
    seq![115u8, 121u8, 109u8, 109u8, 101u8, 116u8, 114u8, 105u8, 99u8, 95u8, 107u8, 101u8, 121u8]
}

/// The derivation path of the symmetric key: the one label `symmetric_key`.
pub open spec fn symmetric_key_derivation_path() -> Seq<Seq<u8>> {
    seq![symmetric_key_label()]
}

/// The public-key request for a derivation path, asked on behalf of
/// `canister_id`, or on the asker's own where that is `None`.
pub open spec fn public_key_request_view(
    canister_id: Option<Seq<u8>>,
    derivation_path: Seq<Seq<u8>>,
) -> PublicKeyRequestView {
    PublicKeyRequestView { canister_id, derivation_path, key_id: test_key_id() }
}

/// An optional identifier taken by its view.
pub open spec fn canister_view(canister_id: Option<CanisterId>) -> Option<Seq<u8>> {
    match canister_id {
        Some(id) => Some(id@),
        None => None,
    }
}

/// The encrypted-key request that binds the key to `derivation_id`.
pub open spec fn encrypted_key_request_view(
    derivation_id: Seq<u8>,
    derivation_path: Seq<Seq<u8>>,
    encryption_public_key: Seq<u8>,
) -> EncryptedKeyRequestView {
    EncryptedKeyRequestView {
        public_key_derivation_path: derivation_path,
        derivation_id,
        key_id: test_key_id(),
        encryption_public_key,
    }
}

/// The identifier of the test key on BLS12-381.
pub fn bls12_381_test_key_1() -> (key_id: VetKDKeyId)
    ensures
        key_id@ == test_key_id(),
{
    VetKDKeyId { curve: VetKDCurve::Bls12_381, name: "test_key_1".to_owned() }
}

/// The identifier of the key-derivation service, parsed from its textual form;
/// `None` where that form does not parse.
pub fn vetkd_system_api_canister_id() -> (id: Option<CanisterId>)
    ensures
        id matches Some(found) ==> principal_of_text(VETKD_SYSTEM_API_CANISTER_ID@) == Some(found@),
        id is None ==> principal_of_text(VETKD_SYSTEM_API_CANISTER_ID@) is None,
{
    Identity::from_text(VETKD_SYSTEM_API_CANISTER_ID)
}

/// The derivation path of the symmetric key.
pub fn symmetric_key_path() -> (path: Vec<Vec<u8>>)
    ensures
        documents_view(path@) == symmetric_key_derivation_path(),
{
    let label: Vec<u8> = vec![115u8, 121u8, 109u8, 109u8, 101u8, 116u8, 114u8, 105u8, 99u8, 95u8, 107u8, 101u8, 121u8];
    assert(label@ =~= symmetric_key_label());
    let path: Vec<Vec<u8>> = vec![label];
    assert(documents_view(path@) =~= symmetric_key_derivation_path());
    path
}

/// Builds the request for the public key derived along `derivation_path` for
/// `canister_id`, or for the asker itself where that is `None`.
///
/// It carries no secret of the caller, and may be made before the caller has
/// authenticated.
pub fn public_key_request(
    canister_id: Option<CanisterId>,
    derivation_path: Vec<Vec<u8>>,
) -> (request: VetKDPublicKeyRequest)
    ensures
        request@ == public_key_request_view(canister_view(canister_id), documents_view(derivation_path@)),
{
    VetKDPublicKeyRequest { canister_id, derivation_path, key_id: bls12_381_test_key_1() }
}

/// Builds the request for the key derived for `derivation_id` along
/// `derivation_path`, to be encrypted under `encryption_public_key`.
pub fn encrypted_key_request(
    derivation_id: &[u8],
    derivation_path: Vec<Vec<u8>>,
    encryption_public_key: Vec<u8>,
) -> (request: VetKDEncryptedKeyRequest)
    ensures
        request@ == encrypted_key_request_view(
            derivation_id@,
            documents_view(derivation_path@),
            encryption_public_key@,
        ),
{
    VetKDEncryptedKeyRequest {
        public_key_derivation_path: derivation_path,
        derivation_id: copy_bytes(derivation_id),
        key_id: bls12_381_test_key_1(),
        encryption_public_key,
    }
}

/// The request for the public key that verifies the symmetric key.
pub fn symmetric_key_verification_key() -> (request: VetKDPublicKeyRequest)
    ensures
        request@ == public_key_request_view(None, symmetric_key_derivation_path()),
{
    public_key_request(None, symmetric_key_path())
}

/// What is asked for on behalf of `caller`: the symmetric key of its address,
/// or the refusal of a caller that has no address.
pub open spec fn symmetric_key_request_for(
    users: Map<Seq<u8>, Seq<u8>>,
    caller: Seq<u8>,
    encryption_public_key: Seq<u8>,
) -> Result<EncryptedKeyRequestView, Error> {
    if users.contains_key(caller) {
        Ok(encrypted_key_request_view(users[caller], symmetric_key_derivation_path(), encryption_public_key))
    } else {
        Err(Error::NotAuthenticated)
    }
}

/// A built request, or its refusal, with the request taken by its view.
pub open spec fn request_view(outcome: Result<VetKDEncryptedKeyRequest, Error>) -> Result<EncryptedKeyRequestView, Error> {
    match outcome {
        Ok(request) => Ok(request@),
        Err(e) => Err(e),
    }
}

/// Builds the request for the symmetric key of `caller`, bound to the address
/// that `caller` has on file and encrypted under `encryption_public_key`.
pub fn encrypted_symmetric_key_for_caller(
    state: &State,
    caller: &Identity,
    encryption_public_key: Vec<u8>,
) -> (outcome: Result<VetKDEncryptedKeyRequest, Error>)
    ensures
        request_view(outcome) == symmetric_key_request_for(state@.users, caller@, encryption_public_key@),
{
    match state.address_of(caller) {
        None => Err(Error::NotAuthenticated),
        Some(user_address) => Ok(
            encrypted_key_request(user_address.as_slice(), symmetric_key_path(), encryption_public_key),
        ),
    }
}

/// The public key that the service answered with; a call that brought no
/// reply has failed.
pub fn public_key_of_reply(reply: Option<VetKDPublicKeyReply>) -> (outcome: Result<Vec<u8>, Error>)
    ensures
        outcome == match reply {
            Some(answer) => Ok::<Vec<u8>, Error>(answer.public_key),
            None => Err(Error::DelegationFailed),
        },
{
    match reply {
        Some(answer) => Ok(answer.public_key),
        None => Err(Error::DelegationFailed),
    }
}

/// The encrypted key that the service answered with; a call that brought no
/// reply has failed.
pub fn encrypted_key_of_reply(reply: Option<VetKDEncryptedKeyReply>) -> (outcome: Result<Vec<u8>, Error>)
    ensures
        outcome == match reply {
            Some(answer) => Ok::<Vec<u8>, Error>(answer.encrypted_key),
            None => Err(Error::DelegationFailed),
        },
{
    match reply {
        Some(answer) => Ok(answer.encrypted_key),
        None => Err(Error::DelegationFailed),
    }
}

} // verus!
