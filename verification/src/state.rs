//! The state that the operations share, and the operations that change it.

use vstd::prelude::*;
use crate::bytes::documents_view;
use crate::directory::IdentityDirectory;
use crate::documents::{documents_of, DocumentStore};
use crate::error::Error;
use crate::identity::{anonymous_bytes, Identity};
use crate::recovery::{recover_address, recovered_address, SIGNATURE_LENGTH};

verus! {

/// The two mappings of a state, as plain values.
pub struct StateView {
    /// The documents stored under each address, oldest first.
    pub documents: Map<Seq<u8>, Seq<Seq<u8>>>,
    /// The address that each authenticated identity last proved.
    pub users: Map<Seq<u8>, Seq<u8>>,
}

/// The address that `caller` proves with `signature`, or why it proves none.
///
/// A signature of the wrong length is refused before the caller is looked at;
/// the anonymous caller is refused before the signature is.
pub open spec fn authentication(caller: Seq<u8>, signature: Seq<u8>) -> Result<Seq<u8>, Error> {
    if signature.len() != SIGNATURE_LENGTH {
        Err(Error::InvalidSignatureLength)
    } else if caller == anonymous_bytes() {
        Err(Error::Unauthenticated)
    } else {
        recovered_address(caller, signature)
    }
}

/// The state after `caller` tried to authenticate with `signature`.
pub open spec fn authorized(state: StateView, caller: Seq<u8>, signature: Seq<u8>) -> StateView {
    match authentication(caller, signature) {
        Ok(address) => StateView { users: state.users.insert(caller, address), documents: state.documents },
        Err(_) => state,
    }
}

/// The address under which `caller` may store, or why it may not.
pub open spec fn storage_address(state: StateView, caller: Seq<u8>) -> Result<Seq<u8>, Error> {
    if caller == anonymous_bytes() {
        Err(Error::Unauthenticated)
    } else if !state.users.contains_key(caller) {
        Err(Error::NotAuthenticated)
    } else {
        Ok(state.users[caller])
    }
}

/// The state after `caller` tried to store `document`.
pub open spec fn stored(state: StateView, caller: Seq<u8>, document: Seq<u8>) -> StateView {
    match storage_address(state, caller) {
        Ok(address) => StateView {
            users: state.users,
            documents: state.documents.insert(address, documents_of(state.documents, address).push(document)),
        },
        Err(_) => state,
    }
}

/// The documents that `caller` sees: those under its address, oldest first,
/// and none where it has no address.
pub open spec fn listed(state: StateView, caller: Seq<u8>) -> Seq<Seq<u8>> {
    if state.users.contains_key(caller) {
        documents_of(state.documents, state.users[caller])
    } else {
        Seq::empty()
    }
}

/// The identities with their addresses, and the documents of each address.
/// It starts empty and lives as long as the process that owns it.
pub struct State {
    documents: DocumentStore,
    users: IdentityDirectory,
}

impl View for State {
    type V = StateView;

    closed spec fn view(&self) -> StateView {
        StateView { documents: self.documents@, users: self.users@ }
    }
}

impl Default for State {
    fn default() -> (state: State)
        ensures
            state@.users == Map::<Seq<u8>, Seq<u8>>::empty(),
            state@.documents == Map::<Seq<u8>, Seq<Seq<u8>>>::empty(),
    {
        State::new()
    }
}

impl State {
    #[verifier::type_invariant]
    spec fn well_formed(self) -> bool {
        !self.users@.contains_key(anonymous_bytes())
    }

    /// The state in which nobody has authenticated and nothing is stored.
    pub fn new() -> (state: State)
        ensures
            state@.users == Map::<Seq<u8>, Seq<u8>>::empty(),
            state@.documents == Map::<Seq<u8>, Seq<Seq<u8>>>::empty(),
    {
        State { documents: DocumentStore::new(), users: IdentityDirectory::new() }
    }

    /// The address on file for `caller`, if it has authenticated. The
    /// anonymous identity never has one.
    pub fn address_of(&self, caller: &Identity) -> (address: Option<[u8; 20]>)
        ensures
            address matches Some(found) ==> self@.users.contains_key(caller@) && self@.users[caller@] == found@,
            address is None ==> !self@.users.contains_key(caller@),
            !self@.users.contains_key(anonymous_bytes()),
    {
        proof {
            use_type_invariant(self);
        }
        self.users.get(caller)
    }

    /// Binds `caller` to the address that signed the digest of its identity.
    ///
    /// On success the address replaces any that `caller` had before. On
    /// failure nothing changes. The documents are never touched.
    pub fn authorize(&mut self, caller: &Identity, principal_signature: &[u8]) -> (outcome: Result<(), Error>)
        ensures
            outcome == match authentication(caller@, principal_signature@) {
                Ok(_) => Ok::<(), Error>(()),
                Err(e) => Err(e),
            },
            final(self)@ == authorized(old(self)@, caller@, principal_signature@),
    {
        if principal_signature.len() != SIGNATURE_LENGTH {
            return Err(Error::InvalidSignatureLength);
        }
        if caller.is_anonymous() {
            return Err(Error::Unauthenticated);
        }
        match recover_address(caller.as_slice(), principal_signature) {
            Err(e) => Err(e),
            Ok(user_address) => {
                proof {
                    use_type_invariant(&*self);
                }
                let mut users = IdentityDirectory::new();
                std::mem::swap(&mut users, &mut self.users);
                users.insert(caller.clone(), user_address);
                self.users = users;
                Ok(())
            },
        }
    }

    /// Appends `document` to the documents of the address of `caller`.
    ///
    /// The anonymous caller is refused as unauthenticated, and a caller
    /// without an address as not authenticated; then nothing changes.
    pub fn store_encrypted_document(&mut self, caller: &Identity, document: Vec<u8>) -> (outcome: Result<(), Error>)
        ensures
            outcome == match storage_address(old(self)@, caller@) {
                Ok(_) => Ok::<(), Error>(()),
                Err(e) => Err(e),
            },
            final(self)@ == stored(old(self)@, caller@, document@),
    {
        if caller.is_anonymous() {
            return Err(Error::Unauthenticated);
        }
        match self.users.get(caller) {
            None => Err(Error::NotAuthenticated),
            Some(user_web3_address) => {
                proof {
                    use_type_invariant(&*self);
                }
                let mut documents = DocumentStore::new();
                std::mem::swap(&mut documents, &mut self.documents);
                documents.append(user_web3_address, document);
                self.documents = documents;
                Ok(())
            },
        }
    }

    /// A copy of the documents of the address of `caller`, oldest first; empty
    /// where `caller` has no address, as the anonymous caller never has.
    pub fn list_my_documents(&self, caller: &Identity) -> (documents: Vec<Vec<u8>>)
        ensures
            documents_view(documents@) == listed(self@, caller@),
            caller@ == anonymous_bytes() ==> documents@.len() == 0,
    {
        proof {
            use_type_invariant(self);
        }
        match self.users.get(caller) {
            None => {
                let documents: Vec<Vec<u8>> = Vec::new();
                assert(documents_view(documents@) =~= Seq::<Seq<u8>>::empty());
                documents
            },
            Some(user_web3_address) => self.documents.get(&user_web3_address),
        }
    }
}

} // verus!
