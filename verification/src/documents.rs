//! The store that keeps, for each address, its documents in the order in which
//! they came.

use vstd::prelude::*;
use crate::assoc::{assoc_map, distinct_keys, key_absent, key_at, lemma_assoc_absent, lemma_assoc_lookup, lemma_assoc_push, lemma_assoc_update};
use crate::bytes::{bytes_equal, copy_documents, documents_view};

verus! {

/// One address with the documents stored under it.
struct Shelf {
    address: [u8; 20],
    documents: Vec<Vec<u8>>,
}

/// The addresses of a sequence of shelves, in order.
spec fn owners(shelves: Seq<Shelf>) -> Seq<Seq<u8>> {
    shelves.map_values(|shelf: Shelf| shelf.address@)
}

/// The documents of a sequence of shelves, in order.
spec fn contents(shelves: Seq<Shelf>) -> Seq<Seq<Seq<u8>>> {
    shelves.map_values(|shelf: Shelf| documents_view(shelf.documents@))
}

/// The documents that `store` holds for `address`: none where the address is
/// unknown.
pub open spec fn documents_of(store: Map<Seq<u8>, Seq<Seq<u8>>>, address: Seq<u8>) -> Seq<Seq<u8>> {
    if store.contains_key(address) {
        store[address]
    } else {
        Seq::empty()
    }
}

/// A mapping from address to an append-only sequence of opaque documents.
pub struct DocumentStore {
    shelves: Vec<Shelf>,
}

impl View for DocumentStore {
    type V = Map<Seq<u8>, Seq<Seq<u8>>>;

    closed spec fn view(&self) -> Map<Seq<u8>, Seq<Seq<u8>>> {
        assoc_map(owners(self.shelves@), contents(self.shelves@))
    }
}

/// Finds the position at which the shelf of `address` stands.
fn position(shelves: &Vec<Shelf>, address: &[u8]) -> (found: Option<usize>)
    ensures
        found matches Some(i) ==> key_at(owners(shelves@), address@, i as int),
        found is None ==> key_absent(owners(shelves@), address@),
{
    let mut i: usize = 0;
    while i < shelves.len()
        invariant
            i <= shelves.len(),
            forall|j: int| 0 <= j < i ==> !key_at(owners(shelves@), address@, j),
        decreases shelves.len() - i,
    {
        if bytes_equal(shelves[i].address.as_slice(), address) {
            return Some(i);
        }
        i += 1;
    }
    None
}

impl DocumentStore {
    #[verifier::type_invariant]
    spec fn well_formed(self) -> bool {
        distinct_keys(owners(self.shelves@))
    }

    /// The store that holds nothing.
    pub fn new() -> (store: DocumentStore)
        ensures
            store@ == Map::<Seq<u8>, Seq<Seq<u8>>>::empty(),
    {
        let store = DocumentStore { shelves: Vec::new() };
        assert(store@ =~= Map::<Seq<u8>, Seq<Seq<u8>>>::empty());
        store
    }

    /// A copy of the documents stored under `address`, oldest first; empty
    /// where nothing was stored under it.
    pub fn get(&self, address: &[u8; 20]) -> (documents: Vec<Vec<u8>>)
        ensures
            documents_view(documents@) == documents_of(self@, address@),
    {
        proof {
            use_type_invariant(self);
        }
        match position(&self.shelves, address.as_slice()) {
            Some(i) => {
                proof {
                    lemma_assoc_lookup(owners(self.shelves@), contents(self.shelves@), address@, i as int);
                }
                copy_documents(&self.shelves[i].documents)
            },
            None => {
                proof {
                    lemma_assoc_absent(owners(self.shelves@), contents(self.shelves@), address@);
                }
                let documents: Vec<Vec<u8>> = Vec::new();
                assert(documents_view(documents@) =~= Seq::<Seq<u8>>::empty());
                documents
            },
        }
    }

    /// Appends `document` to the documents of `address`, after all that were
    /// stored under it before.
    pub fn append(&mut self, address: [u8; 20], document: Vec<u8>)
        ensures
            final(self)@ == old(self)@.insert(address@, documents_of(old(self)@, address@).push(document@)),
    {
        proof {
            use_type_invariant(&*self);
        }
        let mut shelves: Vec<Shelf> = Vec::new();
        std::mem::swap(&mut shelves, &mut self.shelves);
        let ghost before = shelves@;
        match position(&shelves, address.as_slice()) {
            Some(i) => {
                shelves[i].documents.push(document);
                proof {
                    let grown = documents_view(before[i as int].documents@).push(document@);
                    lemma_assoc_lookup(owners(before), contents(before), address@, i as int);
                    lemma_assoc_update(owners(before), contents(before), i as int, grown);
                    assert(documents_view(shelves@[i as int].documents@) =~= grown);
                    assert(owners(shelves@) =~= owners(before));
                    assert(contents(shelves@) =~= contents(before).update(i as int, grown));
                }
            },
            None => {
                let mut documents: Vec<Vec<u8>> = Vec::new();
                documents.push(document);
                shelves.push(Shelf { address, documents });
                proof {
                    let first = Seq::<Seq<u8>>::empty().push(document@);
                    lemma_assoc_absent(owners(before), contents(before), address@);
                    lemma_assoc_push(owners(before), contents(before), address@, first);
                    assert(documents_view(documents@) =~= first);
                    assert(owners(shelves@) =~= owners(before).push(address@));
                    assert(contents(shelves@) =~= contents(before).push(first));
                }
            },
        }
        self.shelves = shelves;
    }
}

} // verus!
