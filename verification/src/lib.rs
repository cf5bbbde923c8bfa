//! Signature-based authentication, per-address storage of encrypted documents,
//! and the request protocol for delegated key derivation.
//!
//! An actor proves control of a secp256k1 key by signing the Keccak-256 digest
//! of its own identity. The address recovered from that signature owns an
//! append-only sequence of opaque ciphertexts, and scopes the key material that
//! a threshold key-derivation service is asked for.

pub mod assoc;
pub mod bytes;
pub mod delegation;
pub mod directory;
pub mod documents;
pub mod error;
pub mod identity;
pub mod laws;
pub mod recovery;
pub mod state;
pub mod types;

pub use error::Error;
pub use identity::Identity;
pub use state::State;
pub use types::{
    CanisterId, EcdsaSignature, EncryptedDocument, VetKDCurve, VetKDEncryptedKeyReply,
    VetKDEncryptedKeyRequest, VetKDKeyId, VetKDPublicKeyReply, VetKDPublicKeyRequest, Web3Address,
};
