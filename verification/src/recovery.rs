//! Recovery of a 20-byte address from a signature over an identity.

use vstd::prelude::*;
use vstd::slice::slice_subrange;
use crate::error::Error;

verus! {

/// Length of a signature: 64 bytes of compact ECDSA and one recovery indicator.
pub const SIGNATURE_LENGTH: usize = 65;

/// Length of the compact part of a signature.
pub const COMPACT_LENGTH: usize = 64;

/// The recovery indicator as `id`, when it is valid: 27 and 28 stand for 0 and
/// 1, and 0 and 1 stand for themselves.
pub open spec fn normalized_recovery_id(indicator: u8) -> Option<u8> {
    let id = if indicator >= 27 { indicator - 27 } else { indicator as int };
    if id <= 1 {
        Some(id as u8)
    } else {
        None
    }
}

/// Normalizes a recovery indicator, or refuses it.
pub fn normalize_recovery_id(indicator: u8) -> (outcome: Result<u8, Error>)
    ensures
        outcome == match normalized_recovery_id(indicator) {
            Some(id) => Ok::<u8, Error>(id),
            None => Err(Error::InvalidRecoveryId),
        },
{
    let id: u8 = if indicator >= 27 { indicator - 27 } else { indicator };
    if id <= 1 {
        Ok(id)
    } else {
        Err(Error::InvalidRecoveryId)
    }
}

/// The rightmost 20 bytes of a 32-byte digest.
pub open spec fn address_of_digest(digest: Seq<u8>) -> Seq<u8> {
    digest.subrange(12, 32)
}

/// Takes the address out of the digest of a public key.
pub fn address_from_digest(digest: &[u8; 32]) -> (address: [u8; 20])
    ensures
        address@ == address_of_digest(digest@),
{
    let mut address = [0u8; 20];
    let mut i: usize = 0;
    while i < 20
        invariant
            i <= 20,
            forall|j: int| 0 <= j < i ==> address@[j] == digest@[12 + j],
        decreases 20 - i,
    {
        address[i] = digest[12 + i];
        i += 1;
    }
    assert(address@ =~= address_of_digest(digest@));
    address
}

/// The Keccak-256 digest of `data`.
pub uninterp spec fn keccak256(data: Seq<u8>) -> Seq<u8>;

/// The uncompressed serialization of the public key that signed `digest` with
/// the compact signature `compact`, as selected by `recovery_id`; `None` where
/// the curve has no such key.
pub uninterp spec fn recovered_public_key(digest: Seq<u8>, compact: Seq<u8>, recovery_id: u8) -> Option<Seq<u8>>;

/// The number that `bytes` spell, most significant byte first.
pub open spec fn big_endian(bytes: Seq<u8>) -> nat
    decreases bytes.len(),
{
    if bytes.len() == 0 {
        0
    } else {
        big_endian(bytes.drop_last()) * 256 + bytes.last() as nat
    }
}

/// The order of the group that secp256k1 generates.
pub open spec fn curve_order() -> nat {
    0xFFFFFFFFFFFFFFFFFFFFFFFFFFFFFFFEBAAEDCE6AF48A03BBFD25E8CD0364141nat
}

/// Whether `compact` is 64 bytes that hold two scalars, `r` then `s`, each
/// below the curve order.
pub open spec fn is_standard_signature(compact: Seq<u8>) -> bool {
    &&& compact.len() == COMPACT_LENGTH
    &&& big_endian(compact.subrange(0, 32)) < curve_order()
    &&& big_endian(compact.subrange(32, 64)) < curve_order()
}

/// Calls `keccak_hash::keccak_256` with a 32-byte output buffer. Trusted: the
/// bytes written are the Keccak-256 digest of `input`, which depends on
/// `input` alone.
#[verifier::external_body]
fn keccak_256(input: &[u8]) -> (digest: [u8; 32])
    ensures
        digest@ == keccak256(input@),
{
    let mut digest = [0u8; 32];
    keccak_hash::keccak_256(input, &mut digest);
    digest
}

/// Calls `libsecp256k1::Signature::parse_standard_slice` and tells whether it
/// accepted. Trusted: it accepts exactly the 64-byte inputs whose two
/// big-endian scalars are both below the curve order.
#[verifier::external_body]
fn parse_standard_slice(compact: &[u8]) -> (accepted: bool)
    ensures
        accepted == is_standard_signature(compact@),
{
    libsecp256k1::Signature::parse_standard_slice(compact).is_ok()
}

/// Calls `libsecp256k1::recover`. Its arguments are made from the bytes with
/// `Message::parse_slice`, `Signature::parse_standard_slice` and
/// `RecoveryId::parse`, and the key it returns is turned into its 65
/// uncompressed bytes with `PublicKey::serialize`. Trusted: whether a key
/// comes out, and which, depends on the three arguments alone.
#[verifier::external_body]
fn recover(digest: &[u8; 32], compact: &[u8], recovery_id: u8) -> (key: Option<[u8; 65]>)
    requires
        is_standard_signature(compact@),
        recovery_id < 4,
    ensures
        key matches Some(bytes) ==> recovered_public_key(digest@, compact@, recovery_id) == Some(bytes@),
        key is None ==> recovered_public_key(digest@, compact@, recovery_id) is None,
{
    let message = libsecp256k1::Message::parse_slice(digest).ok()?;
    let signature = libsecp256k1::Signature::parse_standard_slice(compact).ok()?;
    let id = libsecp256k1::RecoveryId::parse(recovery_id).ok()?;
    let key = libsecp256k1::recover(&message, &signature, &id).ok()?;
    Some(key.serialize())
}

/// What recovery yields for an identity and a signature: the address of the
/// key that signed the digest of the identity, or the first check that fails.
pub open spec fn recovered_address(identity: Seq<u8>, signature: Seq<u8>) -> Result<Seq<u8>, Error> {
    if signature.len() != SIGNATURE_LENGTH {
        Err(Error::InvalidSignatureLength)
    } else if !is_standard_signature(signature.subrange(0, 64)) {
        Err(Error::MalformedSignature)
    } else {
        match normalized_recovery_id(signature[64]) {
            None => Err(Error::InvalidRecoveryId),
            Some(id) => match recovered_public_key(keccak256(identity), signature.subrange(0, 64), id) {
                None => Err(Error::RecoveryFailed),
                Some(key) => Ok(address_of_digest(keccak256(key))),
            },
        }
    }
}

/// An outcome of recovery with the address taken by its view.
pub open spec fn outcome_view(outcome: Result<[u8; 20], Error>) -> Result<Seq<u8>, Error> {
    match outcome {
        Ok(address) => Ok(address@),
        Err(e) => Err(e),
    }
}

/// Recovers the address that signed the Keccak-256 digest of `identity_bytes`.
///
/// The checks run in a fixed order, and the first that fails names the error:
/// the length of the signature, its compact part, the recovery indicator, and
/// the recovery itself.
pub fn recover_address(identity_bytes: &[u8], signature: &[u8]) -> (outcome: Result<[u8; 20], Error>)
    ensures
        outcome_view(outcome) == recovered_address(identity_bytes@, signature@),
{
    if signature.len() != SIGNATURE_LENGTH {
        return Err(Error::InvalidSignatureLength);
    }
    let digest = keccak_256(identity_bytes);
    let compact = slice_subrange(signature, 0, COMPACT_LENGTH);
    if !parse_standard_slice(compact) {
        return Err(Error::MalformedSignature);
    }
    match normalize_recovery_id(signature[COMPACT_LENGTH]) {
        Err(e) => Err(e),
        Ok(id) => match recover(&digest, compact, id) {
            None => Err(Error::RecoveryFailed),
            Some(key) => {
                let key_digest = keccak_256(key.as_slice());
                Ok(address_from_digest(&key_digest))
            },
        },
    }
}

} // verus!
