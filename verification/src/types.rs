//! The messages exchanged with the threshold key-derivation service.

use vstd::prelude::*;
use crate::bytes::documents_view;
use crate::identity::Identity;

verus! {

/// The identifier of a service.
pub type CanisterId = Identity;

/// A signature as it arrives: 64 compact bytes and a recovery indicator.
pub type EcdsaSignature = Vec<u8>;

/// A ciphertext that clients produce and consume; never inspected here.
pub type EncryptedDocument = Vec<u8>;

/// The 20-byte address derived from a public key.
pub type Web3Address = [u8; 20];

/// The curves on which the service derives keys.
#[allow(non_camel_case_types)]
#[derive(Clone, Copy, Debug, PartialEq, Eq, Structural)]
pub enum VetKDCurve {
    Bls12_381,
}

/// Names a master key of the service: its curve and its name.
#[derive(Debug)]
pub struct VetKDKeyId {
    pub curve: VetKDCurve,
    pub name: String,
}

/// A key identifier as plain values.
pub struct KeyIdView {
    pub curve: VetKDCurve,
    pub name: Seq<char>,
}

impl View for VetKDKeyId {
    type V = KeyIdView;

    open spec fn view(&self) -> KeyIdView {
        KeyIdView { curve: self.curve, name: self.name@ }
    }
}

/// Asks for the public key derived along a path, for the asking service itself
/// where `canister_id` is `None`.
#[derive(Debug)]
pub struct VetKDPublicKeyRequest {
    pub canister_id: Option<CanisterId>,
    pub derivation_path: Vec<Vec<u8>>,
    pub key_id: VetKDKeyId,
}

/// A public-key request as plain values.
pub struct PublicKeyRequestView {
    pub canister_id: Option<Seq<u8>>,
    pub derivation_path: Seq<Seq<u8>>,
    pub key_id: KeyIdView,
}

impl View for VetKDPublicKeyRequest {
    type V = PublicKeyRequestView;

    open spec fn view(&self) -> PublicKeyRequestView {
        PublicKeyRequestView {
            canister_id: match self.canister_id {
                Some(id) => Some(id@),
                None => None,
            },
            derivation_path: documents_view(self.derivation_path@),
            key_id: self.key_id@,
        }
    }
}

/// The service's answer to a public-key request.
#[derive(Debug)]
pub struct VetKDPublicKeyReply {
    pub public_key: Vec<u8>,
}

/// Asks for the key derived for `derivation_id` along a path, encrypted under
/// the transport key of the one who asks.
#[derive(Debug)]
pub struct VetKDEncryptedKeyRequest {
    pub public_key_derivation_path: Vec<Vec<u8>>,
    pub derivation_id: Vec<u8>,
    pub key_id: VetKDKeyId,
    pub encryption_public_key: Vec<u8>,
}

/// An encrypted-key request as plain values.
pub struct EncryptedKeyRequestView {
    pub public_key_derivation_path: Seq<Seq<u8>>,
    pub derivation_id: Seq<u8>,
    pub key_id: KeyIdView,
    pub encryption_public_key: Seq<u8>,
}

impl View for VetKDEncryptedKeyRequest {
    type V = EncryptedKeyRequestView;

    open spec fn view(&self) -> EncryptedKeyRequestView {
        EncryptedKeyRequestView {
            public_key_derivation_path: documents_view(self.public_key_derivation_path@),
            derivation_id: self.derivation_id@,
            key_id: self.key_id@,
            encryption_public_key: self.encryption_public_key@,
        }
    }
}

/// The service's answer to an encrypted-key request.
#[derive(Debug)]
pub struct VetKDEncryptedKeyReply {
    pub encrypted_key: Vec<u8>,
}

} // verus!
