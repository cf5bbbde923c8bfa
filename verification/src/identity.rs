//! The identity under which a caller acts.

use vstd::prelude::*;
use crate::bytes::{bytes_equal, copy_bytes};

verus! {

/// The bytes of the anonymous identity: the single byte 4.
pub open spec fn anonymous_bytes() -> Seq<u8> {
    seq![4u8]
}

/// The bytes of the identity that `text` spells, where it spells one.
pub uninterp spec fn principal_of_text(text: Seq<char>) -> Option<Seq<u8>>;

/// Calls `candid::Principal::anonymous` and hands out its bytes. Trusted: the
/// anonymous principal is the single byte 4.
#[verifier::external_body]
fn anonymous_principal() -> (bytes: Vec<u8>)
    ensures
        bytes@ == anonymous_bytes(),
{
    candid::Principal::anonymous().as_slice().to_vec()
}

/// Calls `candid::Principal::from_text` and hands out the bytes of the
/// principal it parsed. Trusted: the outcome depends on `text` alone.
#[verifier::external_body]
fn principal_from_text(text: &str) -> (bytes: Option<Vec<u8>>)
    ensures
        bytes matches Some(b) ==> principal_of_text(text@) == Some(b@),
        bytes is None ==> principal_of_text(text@) is None,
{
    match candid::Principal::from_text(text) {
        Ok(principal) => Some(principal.as_slice().to_vec()),
        Err(_) => None,
    }
}

/// An opaque identifier of an actor, compared by its bytes.
#[derive(Debug)]
pub struct Identity {
    pub bytes: Vec<u8>,
}

impl View for Identity {
    type V = Seq<u8>;

    open spec fn view(&self) -> Seq<u8> {
        self.bytes@
    }
}

impl Clone for Identity {
    fn clone(&self) -> (copy: Identity)
        ensures
            copy@ == self@,
    {
        Identity { bytes: copy_bytes(self.bytes.as_slice()) }
    }
}

impl Identity {
    /// The identity that holds a copy of `bytes`.
    pub fn from_slice(bytes: &[u8]) -> (identity: Identity)
        ensures
            identity@ == bytes@,
    {
        Identity { bytes: copy_bytes(bytes) }
    }

    /// The distinguished identity of a caller that has not identified itself.
    pub fn anonymous() -> (identity: Identity)
        ensures
            identity@ == anonymous_bytes(),
    {
        Identity { bytes: anonymous_principal() }
    }

    /// The identity written as `text`, in the textual form of a principal with
    /// its checksum and groups; `None` where `text` is no such form.
    pub fn from_text(text: &str) -> (identity: Option<Identity>)
        ensures
            identity matches Some(found) ==> principal_of_text(text@) == Some(found@),
            identity is None ==> principal_of_text(text@) is None,
    {
        match principal_from_text(text) {
            Some(bytes) => Some(Identity { bytes }),
            None => None,
        }
    }

    /// The bytes of this identity.
    pub fn as_slice(&self) -> (bytes: &[u8])
        ensures
            bytes@ == self@,
    {
        self.bytes.as_slice()
    }

    /// Whether this is the anonymous identity.
    pub fn is_anonymous(&self) -> (anonymous: bool)
        ensures
            anonymous == (self@ == anonymous_bytes()),
    {
        let anonymous = self.bytes.len() == 1 && self.bytes[0] == 4;
        assert(anonymous ==> self@ =~= anonymous_bytes());
        anonymous
    }

    /// Whether two identities are the same.
    pub fn same_as(&self, other: &Identity) -> (same: bool)
        ensures
            same == (self@ == other@),
    {
        bytes_equal(self.bytes.as_slice(), other.bytes.as_slice())
    }
}

} // verus!
