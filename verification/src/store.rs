//! An in-memory content-addressed store with the interface the push protocol
//! needs: existence probing and uploads that return the store-computed
//! content identifier.
//!
//! The store models the remote service deterministically: the identifier it
//! computes for uploaded bytes is a fixed injective function of the bytes, so
//! a verification failure can only come from a wrong local record, exactly as
//! a hashing disagreement would on the real service. Every upload is kept in
//! an append-only log, which is what the idempotence results are stated over.

use vstd::prelude::*;

use crate::content_id::ContentId;

verus! {

/// The identifier this store computes for uploaded content: an injective,
/// deterministic function of the bytes alone.
pub open spec fn store_cid_of(b: Seq<u8>) -> Seq<u8> {
    seq![1u8] + b
}

/// Mathematical value of a [`MemoryContentStore`]: the identifiers of the
/// blocks it holds, and the log of every upload it has served.
#[verifier::ext_equal]
pub struct StoreV {
    pub blocks: Seq<Seq<u8>>,
    pub uploads: Seq<Seq<u8>>,
}

/// In-memory content-addressed store.
pub struct MemoryContentStore {
    blocks: Vec<ContentId>,
    uploads: Vec<ContentId>,
}

impl View for MemoryContentStore {
    type V = StoreV;

    closed spec fn view(&self) -> StoreV {
        StoreV {
            blocks: Seq::new(self.blocks@.len(), |i: int| self.blocks@[i]@),
            uploads: Seq::new(self.uploads@.len(), |i: int| self.uploads@[i]@),
        }
    }
}

impl MemoryContentStore {
    /// A store holding nothing.
    pub fn new() -> (r: MemoryContentStore)
        ensures
            r@.blocks.len() == 0,
            r@.uploads.len() == 0,
    {
        MemoryContentStore { blocks: Vec::new(), uploads: Vec::new() }
    }

    /// Place a block directly, as if some earlier writer had uploaded it.
    pub fn seed_block(&mut self, cid: ContentId)
        ensures
            final(self)@.blocks =~= old(self)@.blocks.push(cid@),
            final(self)@.uploads == old(self)@.uploads,
    {
        self.blocks.push(cid);
        proof {
            assert(final(self)@.uploads =~= old(self)@.uploads);
        }
    }

    /// Existence probe: does the store hold a block with this identifier?
    pub fn contains_block(&self, cid: &ContentId) -> (r: bool)
        ensures
            r == self@.blocks.contains(cid@),
    {
        let mut i: usize = 0;
        while i < self.blocks.len()
            invariant
                i <= self.blocks.len(),
                self@.blocks.len() == self.blocks@.len(),
                forall|j: int| 0 <= j < i ==> self@.blocks[j] != cid@,
            decreases self.blocks.len() - i,
        {
            if self.blocks[i].same_as(cid) {
                proof {
                    assert(self@.blocks[i as int] == cid@);
                }
                return true;
            }
            i = i + 1;
        }
        false
    }

    /// Upload bytes; the store computes, records and returns their content
    /// identifier.
    pub fn upload(&mut self, bytes: &Vec<u8>) -> (r: ContentId)
        ensures
            r@ == store_cid_of(bytes@),
            final(self)@.blocks =~= old(self)@.blocks.push(r@),
            final(self)@.uploads =~= old(self)@.uploads.push(r@),
    {
        let mut id: Vec<u8> = Vec::new();
        id.push(1u8);
        crate::manifest::push_bytes(&mut id, bytes.as_slice());
        proof {
            assert(id@ =~= store_cid_of(bytes@));
        }
        let cid = ContentId::from_bytes(id);
        let r = cid.clone();
        self.blocks.push(cid);
        let cid2 = r.clone();
        self.uploads.push(cid2);
        r
    }

    /// How many uploads this store has served.
    pub fn upload_count(&self) -> (r: usize)
        ensures
            r == self@.uploads.len(),
    {
        self.uploads.len()
    }
}

} // verus!
