//! Comparing and copying byte strings.

use vstd::prelude::*;

verus! {

/// Tells whether two byte strings hold the same bytes.
pub fn bytes_equal(a: &[u8], b: &[u8]) -> (same: bool)
    ensures
        same == (a@ == b@),
{
    if a.len() != b.len() {
        return false;
    }
    let mut i: usize = 0;
    while i < a.len()
        invariant
            i <= a.len(),
            a.len() == b.len(),
            forall|j: int| 0 <= j < i ==> a@[j] == b@[j],
        decreases a.len() - i,
    {
        if a[i] != b[i] {
            return false;
        }
        i += 1;
    }
    assert(a@ =~= b@);
    true
}

/// Copies a byte string into a vector of its own.
pub fn copy_bytes(source: &[u8]) -> (copy: Vec<u8>)
    ensures
        copy@ == source@,
{
    let mut copy: Vec<u8> = Vec::with_capacity(source.len());
    let mut i: usize = 0;
    while i < source.len()
        invariant
            i <= source.len(),
            copy@ == source@.subrange(0, i as int),
        decreases source.len() - i,
    {
        copy.push(source[i]);
        assert(copy@ =~= source@.subrange(0, i + 1));
        i += 1;
    }
    assert(copy@ =~= source@);
    copy
}

/// The documents of a sequence, each taken as the bytes it holds.
pub open spec fn documents_view(documents: Seq<Vec<u8>>) -> Seq<Seq<u8>> {
    documents.map_values(|document: Vec<u8>| document@)
}

/// Copies a sequence of documents, each into a vector of its own.
pub fn copy_documents(source: &Vec<Vec<u8>>) -> (copy: Vec<Vec<u8>>)
    ensures
        documents_view(copy@) == documents_view(source@),
{
    let mut copy: Vec<Vec<u8>> = Vec::with_capacity(source.len());
    let mut i: usize = 0;
    while i < source.len()
        invariant
            i <= source.len(),
            copy@.len() == i,
            forall|j: int| 0 <= j < i ==> copy@[j]@ == source@[j]@,
        decreases source.len() - i,
    {
        let document = copy_bytes(source[i].as_slice());
        copy.push(document);
        i += 1;
    }
    assert(documents_view(copy@) =~= documents_view(source@));
    copy
}

} // verus!
