//! Hashes and identifiers, held as the bytes they are made of.

use vstd::prelude::*;

verus! {

/// Consensus level of a block.
pub type Level = i32;

/// Whether two byte strings have the same length and the same bytes.
pub fn bytes_equal(a: &Vec<u8>, b: &Vec<u8>) -> (same: bool)
    ensures
        same == (a@ == b@),
{
    if a.len() != b.len() {
        return false;
    }
    let mut i: usize = 0;
    while i < a.len()
        invariant
            a@.len() == b@.len(),
            i <= a@.len(),
            forall|j: int| 0 <= j < i ==> a@[j] == b@[j],
        decreases a@.len() - i,
    {
        if a[i] != b[i] {
            return false;
        }
        i += 1;
    }
    assert(a@ =~= b@);
    true
}

/// A fresh vector with the bytes of `a`.
pub fn bytes_copy(a: &Vec<u8>) -> (copy: Vec<u8>)
    ensures
        copy@ == a@,
{
    let mut out: Vec<u8> = Vec::new();
    let mut i: usize = 0;
    while i < a.len()
        invariant
            i <= a@.len(),
            out@ == a@.subrange(0, i as int),
        decreases a@.len() - i,
    {
        out.push(a[i]);
        assert(out@ =~= a@.subrange(0, i + 1));
        i += 1;
    }
    assert(out@ =~= a@);
    out
}

/// Hash of an operation's content.
#[derive(Debug)]
pub struct OperationHash {
    pub bytes: Vec<u8>,
}

/// Hash of a block.
#[derive(Debug)]
pub struct BlockHash {
    pub bytes: Vec<u8>,
}

/// Identifier of a chain.
#[derive(Debug)]
pub struct ChainId {
    pub bytes: Vec<u8>,
}

impl View for OperationHash {
    type V = Seq<u8>;

    open spec fn view(&self) -> Seq<u8> {
        self.bytes@
    }
}

impl View for BlockHash {
    type V = Seq<u8>;

    open spec fn view(&self) -> Seq<u8> {
        self.bytes@
    }
}

impl View for ChainId {
    type V = Seq<u8>;

    open spec fn view(&self) -> Seq<u8> {
        self.bytes@
    }
}

impl OperationHash {
    pub fn new(bytes: Vec<u8>) -> (hash: Self)
        ensures
            hash@ == bytes@,
    {
        OperationHash { bytes }
    }

    pub fn same_as(&self, other: &OperationHash) -> (same: bool)
        ensures
            same == (self@ == other@),
    {
        bytes_equal(&self.bytes, &other.bytes)
    }

    pub fn copy(&self) -> (hash: Self)
        ensures
            hash@ == self@,
    {
        OperationHash { bytes: bytes_copy(&self.bytes) }
    }
}

impl BlockHash {
    pub fn new(bytes: Vec<u8>) -> (hash: Self)
        ensures
            hash@ == bytes@,
    {
        BlockHash { bytes }
    }

    pub fn same_as(&self, other: &BlockHash) -> (same: bool)
        ensures
            same == (self@ == other@),
    {
        bytes_equal(&self.bytes, &other.bytes)
    }

    pub fn copy(&self) -> (hash: Self)
        ensures
            hash@ == self@,
    {
        BlockHash { bytes: bytes_copy(&self.bytes) }
    }
}

impl ChainId {
    pub fn new(bytes: Vec<u8>) -> (id: Self)
        ensures
            id@ == bytes@,
    {
        ChainId { bytes }
    }

    pub fn copy(&self) -> (id: Self)
        ensures
            id@ == self@,
    {
        ChainId { bytes: bytes_copy(&self.bytes) }
    }
}

} // verus!
