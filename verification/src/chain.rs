//! The chain: an ordered ledger of blocks that grows by validated appends and
//! is replaced only by a longer valid chain.

use crate::block::{genesis, has_leading_zeros, meets_difficulty, Block, BlockView};
use vstd::prelude::*;

verus! {

/// The mathematical value of a sequence of blocks.
pub open spec fn blocks_view(blocks: Seq<Block>) -> Seq<BlockView> {
    Seq::new(blocks.len(), |i: int| blocks[i]@)
}

/// Whether `candidate` may be appended behind `tail`: its index is the next
/// one, it names the tail's hash as its previous hash, and it is sealed.
/// The difficulty plays no part here.
pub open spec fn accepts(tail: BlockView, candidate: BlockView) -> bool {
    &&& candidate.index == tail.index + 1
    &&& candidate.previous_hash == tail.hash
    &&& candidate.is_sealed()
}

/// Whether `cur` is a valid successor of `prev` in a chain of the given
/// difficulty: it names the hash of `prev`, it is sealed, and its hash meets
/// the difficulty. Indices play no part here.
pub open spec fn valid_link(prev: BlockView, cur: BlockView, difficulty: nat) -> bool {
    &&& cur.previous_hash == prev.hash
    &&& cur.is_sealed()
    &&& meets_difficulty(cur.hash, difficulty)
}

/// A chain is valid when it is not empty and every block but the first is a
/// valid successor of the block before it. Nothing is asked of the first
/// block.
pub open spec fn valid_chain(chain: Seq<BlockView>, difficulty: nat) -> bool {
    &&& chain.len() > 0
    &&& forall|i: int| 1 <= i < chain.len() ==> valid_link(#[trigger] chain[i - 1], chain[i], difficulty)
}

/// Whether `chain` is the genesis block followed by blocks that were each
/// accepted behind the block before them.
pub open spec fn grown_by_appends(chain: Seq<BlockView>) -> bool
    decreases chain.len(),
{
    if chain.len() <= 1 {
        chain =~= seq![genesis()]
    } else {
        &&& grown_by_appends(chain.drop_last())
        &&& accepts(chain[chain.len() - 2], chain.last())
    }
}

/// A valid chain stays valid when a block is put behind it that its last
/// block accepts and whose hash meets the difficulty.
pub proof fn lemma_append_keeps_valid(chain: Seq<BlockView>, block: BlockView, difficulty: nat)
    requires
        valid_chain(chain, difficulty),
        accepts(chain.last(), block),
        meets_difficulty(block.hash, difficulty),
    ensures
        valid_chain(chain.push(block), difficulty),
{
    let grown = chain.push(block);
    assert forall|i: int| 1 <= i < grown.len() implies valid_link(
        #[trigger] grown[i - 1],
        grown[i],
        difficulty,
    ) by {
        if i < chain.len() {
            assert(valid_link(chain[i - 1], chain[i], difficulty));
        }
    }
}

/// A chain that grew from the genesis block by accepted appends alone is
/// valid at every difficulty that the hashes of its appended blocks meet (so
/// always at difficulty zero), and its blocks are numbered from zero without
/// a gap.
pub proof fn lemma_grown_chain_is_valid(chain: Seq<BlockView>, difficulty: nat)
    requires
        grown_by_appends(chain),
        forall|i: int| 1 <= i < chain.len() ==> meets_difficulty(#[trigger] chain[i].hash, difficulty),
    ensures
        valid_chain(chain, difficulty),
        chain[0] == genesis(),
        forall|i: int| 0 <= i < chain.len() ==> #[trigger] chain[i].index == i,
    decreases chain.len(),
{
    if chain.len() > 1 {
        let front = chain.drop_last();
        assert forall|i: int| 1 <= i < front.len() implies meets_difficulty(
            #[trigger] front[i].hash,
            difficulty,
        ) by {
            assert(front[i] == chain[i]);
        }
        lemma_grown_chain_is_valid(front, difficulty);
        lemma_append_keeps_valid(front, chain.last(), difficulty);
        assert(front.push(chain.last()) =~= chain);
        assert forall|i: int| 0 <= i < chain.len() implies #[trigger] chain[i].index == i by {
            if i < front.len() {
                assert(front[i] == chain[i]);
            }
        }
        assert(front[0] == chain[0]);
    }
}

/// One node's ledger: its blocks, oldest first, and the difficulty that the
/// node asks of a chain it adopts.
pub struct Blockchain {
    chain: Vec<Block>,
    difficulty: usize,
}

impl View for Blockchain {
    type V = Seq<BlockView>;

    closed spec fn view(&self) -> Seq<BlockView> {
        blocks_view(self.chain@)
    }
}

impl Blockchain {
    /// The difficulty that the ledger was made with.
    pub closed spec fn spec_difficulty(&self) -> usize {
        self.difficulty
    }

    /// What holds of every ledger that was made by [`Blockchain::new`] and
    /// changed by the methods below: it is not empty, and every block but the
    /// first is sealed and names the hash of the block before it.
    pub open spec fn well_formed(&self) -> bool {
        valid_chain(self@, 0)
    }

    /// A ledger that holds the genesis block alone.
    pub fn new(difficulty: usize) -> (ledger: Self)
        ensures
            ledger@ == seq![genesis()],
            ledger.spec_difficulty() == difficulty,
            ledger.well_formed(),
    {
        let mut chain: Vec<Block> = Vec::new();
        chain.push(Block::genesis_block());
        assert(blocks_view(chain@) =~= seq![genesis()]);
        Blockchain { chain, difficulty }
    }

    /// The difficulty that the ledger was made with.
    #[verifier::when_used_as_spec(spec_difficulty)]
    pub fn difficulty(&self) -> (difficulty: usize)
        ensures
            difficulty == self.spec_difficulty(),
    {
        self.difficulty
    }

    /// The number of blocks.
    pub fn len(&self) -> (len: usize)
        ensures
            len == self@.len(),
    {
        self.chain.len()
    }

    /// The blocks, oldest first.
    pub fn blocks(&self) -> (blocks: &[Block])
        ensures
            blocks_view(blocks@) == self@,
    {
        self.chain.as_slice()
    }

    /// A copy of the blocks, oldest first.
    pub fn snapshot(&self) -> (copy: Vec<Block>)
        ensures
            blocks_view(copy@) == self@,
    {
        let copy = self.chain.clone();
        assert(blocks_view(copy@) =~= blocks_view(self.chain@));
        copy
    }

    /// The newest block.
    pub fn last_block(&self) -> (tail: &Block)
        requires
            self@.len() > 0,
        ensures
            tail@ == self@.last(),
    {
        &self.chain[self.chain.len() - 1]
    }

    /// Appends `block` if the newest block accepts it, and says whether it
    /// did. A block that is refused leaves the ledger as it was. Whether the
    /// block's hash meets the difficulty is not looked at.
    pub fn add_block(&mut self, block: Block) -> (added: bool)
        requires
            old(self)@.len() > 0,
        ensures
            added == accepts(old(self)@.last(), block@),
            added ==> final(self)@ == old(self)@.push(block@),
            !added ==> final(self)@ == old(self)@,
            final(self).spec_difficulty() == old(self).spec_difficulty(),
            old(self).well_formed() ==> final(self).well_formed(),
    {
        let last = self.last_block();
        if last.index == u64::MAX || block.index != last.index + 1 {
            return false;
        }
        if block.previous_hash != last.hash {
            return false;
        }
        let hash_expected = Block::compute_hash(
            block.index,
            block.timestamp,
            block.data.as_str(),
            block.previous_hash.as_str(),
            block.nonce,
        );
        if hash_expected != block.hash {
            return false;
        }
        self.chain.push(block);
        assert(self@ =~= old(self)@.push(block@));
        true
    }

    /// Whether `chain` is a valid chain of the given difficulty.
    pub fn is_valid_chain(chain: &[Block], difficulty: usize) -> (valid: bool)
        ensures
            valid == valid_chain(blocks_view(chain@), difficulty as nat),
    {
        if chain.len() == 0 {
            return false;
        }
        let ghost view = blocks_view(chain@);
        let mut i: usize = 1;
        while i < chain.len()
            invariant
                1 <= i <= chain@.len(),
                view == blocks_view(chain@),
                forall|j: int|
                    1 <= j < i ==> valid_link(#[trigger] view[j - 1], view[j], difficulty as nat),
            decreases chain@.len() - i,
        {
            let prev = &chain[i - 1];
            let cur = &chain[i];
            assert(view[i - 1] == prev@ && view[i as int] == cur@);
            if cur.previous_hash != prev.hash {
                return false;
            }
            let recomputed = Block::compute_hash(
                cur.index,
                cur.timestamp,
                cur.data.as_str(),
                cur.previous_hash.as_str(),
                cur.nonce,
            );
            if recomputed != cur.hash {
                return false;
            }
            if !has_leading_zeros(recomputed.as_str(), difficulty) {
                return false;
            }
            i += 1;
        }
        true
    }

    /// Adopts `new_chain` in place of the ledger's blocks if it is longer
    /// than they are and valid at the ledger's difficulty, and says whether
    /// it did. A chain of the same length or shorter is never adopted.
    pub fn replace_chain(&mut self, new_chain: Vec<Block>) -> (replaced: bool)
        ensures
            replaced == (new_chain@.len() > old(self)@.len() && valid_chain(
                blocks_view(new_chain@),
                old(self).spec_difficulty() as nat,
            )),
            replaced ==> final(self)@ == blocks_view(new_chain@),
            !replaced ==> final(self)@ == old(self)@,
            final(self).spec_difficulty() == old(self).spec_difficulty(),
            old(self).well_formed() ==> final(self).well_formed(),
    {
        if new_chain.len() > self.chain.len() && Blockchain::is_valid_chain(
            new_chain.as_slice(),
            self.difficulty,
        ) {
            self.chain = new_chain;
            true
        } else {
            false
        }
    }
}

} // verus!
