//! Blocks that were applied, remembered by hash and written once.

use vstd::prelude::*;
use crate::hash::{BlockHash, ChainId, Level};

verus! {

/// What the prechecker keeps of a block's header.
#[derive(Debug)]
pub struct BlockHeader {
    pub level: Level,
    pub proto: u8,
    pub predecessor: BlockHash,
}

/// One applied block.
#[derive(Debug)]
pub struct AppliedBlock {
    pub block_hash: BlockHash,
    pub chain_id: ChainId,
    pub block_header: BlockHeader,
}

#[derive(Debug)]
pub struct AppliedBlockCache {
    pub blocks: Vec<AppliedBlock>,
}

impl AppliedBlockCache {
    /// A block with this hash was recorded.
    pub open spec fn applied(&self, hash: Seq<u8>) -> bool {
        exists|i: int| 0 <= i < self.blocks@.len() && #[trigger] self.blocks@[i].block_hash@ == hash
    }

    /// A block of this level was recorded.
    pub open spec fn applied_at(&self, level: Level) -> bool {
        exists|i: int| 0 <= i < self.blocks@.len() && #[trigger] self.blocks@[i].block_header.level == level
    }

    pub fn new() -> (cache: Self)
        ensures
            cache.blocks@.len() == 0,
    {
        AppliedBlockCache { blocks: Vec::new() }
    }

    pub fn is_applied(&self, block_hash: &BlockHash) -> (yes: bool)
        ensures
            yes == self.applied(block_hash@),
    {
        let mut i: usize = 0;
        while i < self.blocks.len()
            invariant
                i <= self.blocks@.len(),
                forall|j: int| 0 <= j < i ==> self.blocks@[j].block_hash@ != block_hash@,
            decreases self.blocks@.len() - i,
        {
            if self.blocks[i].block_hash.same_as(block_hash) {
                return true;
            }
            i += 1;
        }
        false
    }

    pub fn is_applied_at(&self, level: Level) -> (yes: bool)
        ensures
            yes == self.applied_at(level),
    {
        let mut i: usize = 0;
        while i < self.blocks.len()
            invariant
                i <= self.blocks@.len(),
                forall|j: int| 0 <= j < i ==> self.blocks@[j].block_header.level != level,
            decreases self.blocks@.len() - i,
        {
            if self.blocks[i].block_header.level == level {
                return true;
            }
            i += 1;
        }
        false
    }

    /// Records an applied block. A hash that was recorded before keeps what
    /// was recorded with it. True where the block is new.
    pub fn record(&mut self, block_hash: BlockHash, chain_id: ChainId, block_header: BlockHeader) -> (fresh: bool)
        ensures
            fresh == !old(self).applied(block_hash@),
            fresh ==> final(self).blocks@ == old(self).blocks@.push(
                (AppliedBlock { block_hash, chain_id, block_header }),
            ),
            !fresh ==> *final(self) == *old(self),
            forall|h: Seq<u8>| final(self).applied(h) == (old(self).applied(h) || h == block_hash@),
    {
        if self.is_applied(&block_hash) {
            return false;
        }
        let ghost before = self.blocks@;
        let ghost added = block_hash@;
        self.blocks.push(AppliedBlock { block_hash, chain_id, block_header });
        proof {
            let after = self.blocks@;
            assert forall|h: Seq<u8>| final(self).applied(h) == (old(self).applied(h) || h == added) by {
                if old(self).applied(h) {
                    let i = choose|i: int| 0 <= i < before.len() && #[trigger] before[i].block_hash@ == h;
                    assert(after[i].block_hash@ == h);
                }
                if h == added {
                    assert(after[before.len() as int].block_hash@ == h);
                }
                if final(self).applied(h) {
                    let i = choose|i: int| 0 <= i < after.len() && #[trigger] after[i].block_hash@ == h;
                    if i < before.len() {
                        assert(before[i].block_hash@ == h);
                    }
                }
            }
        }
        true
    }
    /// Forgets the blocks below `level`; the others stay, in their order.
    pub fn forget_below(&mut self, level: Level)
        ensures
            final(self).blocks@ == old(self).blocks@.filter(|b: AppliedBlock| b.block_header.level >= level),
    {
        let ghost before = self.blocks@;
        let ghost keep = |b: AppliedBlock| b.block_header.level >= level;
        let mut kept: Vec<AppliedBlock> = Vec::new();
        let ghost mut seen: int = 0;
        proof {
            assert(before.subrange(0, 0) =~= Seq::<AppliedBlock>::empty());
            assert(self.blocks@ =~= before.subrange(0, before.len() as int));
        }
        while self.blocks.len() > 0
            invariant
                0 <= seen <= before.len(),
                self.blocks@ == before.subrange(seen, before.len() as int),
                kept@ == before.subrange(0, seen).filter(keep),
                keep == |b: AppliedBlock| b.block_header.level >= level,
            decreases self.blocks@.len(),
        {
            let block = self.blocks.remove(0);
            proof {
                assert(block == before[seen]);
                assert(before.subrange(0, seen + 1).drop_last() =~= before.subrange(0, seen));
                assert(before.subrange(0, seen + 1).last() == before[seen]);
                reveal(Seq::filter);
                assert(self.blocks@ =~= before.subrange(seen + 1, before.len() as int));
            }
            if block.block_header.level >= level {
                kept.push(block);
            }
            proof {
                seen = seen + 1;
            }
        }
        proof {
            assert(before.subrange(0, before.len() as int) =~= before);
        }
        self.blocks = kept;
    }
}

} // verus!
