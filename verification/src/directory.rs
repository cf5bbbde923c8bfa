//! The directory that binds each identity to the address it last proved.

use vstd::prelude::*;
use crate::assoc::{assoc_map, distinct_keys, key_absent, key_at, lemma_assoc_absent, lemma_assoc_lookup, lemma_assoc_push, lemma_assoc_update};
use crate::bytes::bytes_equal;
use crate::identity::Identity;

verus! {

/// One identity with its address.
struct UserEntry {
    identity: Identity,
    address: [u8; 20],
}

/// The identities of a sequence of entries, in order.
spec fn identities(entries: Seq<UserEntry>) -> Seq<Seq<u8>> {
    entries.map_values(|entry: UserEntry| entry.identity@)
}

/// The addresses of a sequence of entries, in order.
spec fn addresses(entries: Seq<UserEntry>) -> Seq<Seq<u8>> {
    entries.map_values(|entry: UserEntry| entry.address@)
}

/// A mapping from identity to address in which every identity occurs once.
pub struct IdentityDirectory {
    entries: Vec<UserEntry>,
}

impl View for IdentityDirectory {
    type V = Map<Seq<u8>, Seq<u8>>;

    closed spec fn view(&self) -> Map<Seq<u8>, Seq<u8>> {
        assoc_map(identities(self.entries@), addresses(self.entries@))
    }
}

/// Finds the position at which `identity` stands in `entries`.
fn position(entries: &Vec<UserEntry>, identity: &[u8]) -> (found: Option<usize>)
    ensures
        found matches Some(i) ==> key_at(identities(entries@), identity@, i as int),
        found is None ==> key_absent(identities(entries@), identity@),
{
    let mut i: usize = 0;
    while i < entries.len()
        invariant
            i <= entries.len(),
            forall|j: int| 0 <= j < i ==> !key_at(identities(entries@), identity@, j),
        decreases entries.len() - i,
    {
        if bytes_equal(entries[i].identity.as_slice(), identity) {
            return Some(i);
        }
        i += 1;
    }
    None
}

impl IdentityDirectory {
    #[verifier::type_invariant]
    spec fn well_formed(self) -> bool {
        distinct_keys(identities(self.entries@))
    }

    /// The directory that knows no identity.
    pub fn new() -> (directory: IdentityDirectory)
        ensures
            directory@ == Map::<Seq<u8>, Seq<u8>>::empty(),
    {
        let directory = IdentityDirectory { entries: Vec::new() };
        assert(directory@ =~= Map::<Seq<u8>, Seq<u8>>::empty());
        directory
    }

    /// The address on file for `identity`, if there is one.
    pub fn get(&self, identity: &Identity) -> (address: Option<[u8; 20]>)
        ensures
            address matches Some(found) ==> self@.contains_key(identity@) && self@[identity@] == found@,
            address is None ==> !self@.contains_key(identity@),
    {
        proof {
            use_type_invariant(self);
        }
        match position(&self.entries, identity.as_slice()) {
            Some(i) => {
                proof {
                    lemma_assoc_lookup(identities(self.entries@), addresses(self.entries@), identity@, i as int);
                }
                Some(self.entries[i].address)
            },
            None => {
                proof {
                    lemma_assoc_absent(identities(self.entries@), addresses(self.entries@), identity@);
                }
                None
            },
        }
    }

    /// Puts `address` on file for `identity`, in place of any earlier one.
    pub fn insert(&mut self, identity: Identity, address: [u8; 20])
        ensures
            final(self)@ == old(self)@.insert(identity@, address@),
    {
        proof {
            use_type_invariant(&*self);
        }
        let mut entries: Vec<UserEntry> = Vec::new();
        std::mem::swap(&mut entries, &mut self.entries);
        let ghost before = entries@;
        match position(&entries, identity.as_slice()) {
            Some(i) => {
                entries[i] = UserEntry { identity, address };
                proof {
                    lemma_assoc_update(identities(before), addresses(before), i as int, address@);
                    assert(identities(entries@) =~= identities(before));
                    assert(addresses(entries@) =~= addresses(before).update(i as int, address@));
                }
            },
            None => {
                entries.push(UserEntry { identity, address });
                proof {
                    lemma_assoc_push(identities(before), addresses(before), identity@, address@);
                    assert(identities(entries@) =~= identities(before).push(identity@));
                    assert(addresses(entries@) =~= addresses(before).push(address@));
                }
            },
        }
        self.entries = entries;
    }
}

} // verus!
