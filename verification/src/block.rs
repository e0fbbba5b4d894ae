//! Blocks: the record, the hash that seals it, and the proof-of-work search.

use crate::hashing::{decimal, hex_encode, hex_lower, push_decimal, sha256, sha256_digest};
use vstd::prelude::*;
use vstd::std_specs::iter::IteratorSpec;
use vstd::utf8::encode_utf8;

verus! {

/// One record of the ledger. `hash` seals the other five fields; `nonce` is
/// the value varied by the proof-of-work search.
#[derive(Debug)]
pub struct Block {
    pub index: u64,
    pub timestamp: u128,
    pub data: String,
    pub previous_hash: String,
    pub hash: String,
    pub nonce: u64,
}

/// The mathematical value of a [`Block`]: its texts as character sequences.
pub struct BlockView {
    pub index: u64,
    pub timestamp: u128,
    pub data: Seq<char>,
    pub previous_hash: Seq<char>,
    pub hash: Seq<char>,
    pub nonce: u64,
}

impl View for Block {
    type V = BlockView;

    open spec fn view(&self) -> BlockView {
        BlockView {
            index: self.index,
            timestamp: self.timestamp,
            data: self.data@,
            previous_hash: self.previous_hash@,
            hash: self.hash@,
            nonce: self.nonce,
        }
    }
}

/// The bytes that are hashed for a block: the decimal text of the index and
/// of the timestamp, the payload and the previous hash as UTF-8, and the
/// decimal text of the nonce, one after the other with nothing between them.
pub open spec fn hash_input(
    index: u64,
    timestamp: u128,
    data: Seq<char>,
    previous_hash: Seq<char>,
    nonce: u64,
) -> Seq<u8> {
    decimal(index as nat) + decimal(timestamp as nat) + encode_utf8(data) + encode_utf8(
        previous_hash,
    ) + decimal(nonce as nat)
}

/// The hash of a block with the given fields: the SHA-256 digest of
/// [`hash_input`] as lowercase hexadecimal text.
pub open spec fn block_hash(
    index: u64,
    timestamp: u128,
    data: Seq<char>,
    previous_hash: Seq<char>,
    nonce: u64,
) -> Seq<char> {
    hex_lower(sha256(hash_input(index, timestamp, data, previous_hash, nonce)))
}

/// A hash meets a difficulty when it starts with that many `'0'` characters.
pub open spec fn meets_difficulty(hash: Seq<char>, difficulty: nat) -> bool {
    &&& difficulty <= hash.len()
    &&& forall|i: int| 0 <= i < difficulty ==> hash[i] == '0'
}

/// Whether a block with the given fields and nonce has a hash that meets
/// the difficulty.
pub open spec fn qualifies(
    index: u64,
    timestamp: u128,
    data: Seq<char>,
    previous_hash: Seq<char>,
    nonce: u64,
    difficulty: nat,
) -> bool {
    meets_difficulty(block_hash(index, timestamp, data, previous_hash, nonce), difficulty)
}

/// What the proof-of-work search for a block with the given fields yields:
/// the block sealed with the least nonce that qualifies, or nothing if no
/// nonce does.
pub open spec fn search_yields(
    index: u64,
    timestamp: u128,
    data: Seq<char>,
    previous_hash: Seq<char>,
    difficulty: nat,
    mined: Option<Block>,
) -> bool {
    match mined {
        Some(block) => {
            &&& block@.index == index
            &&& block@.timestamp == timestamp
            &&& block@.data == data
            &&& block@.previous_hash == previous_hash
            &&& block@.is_sealed()
            &&& qualifies(index, timestamp, data, previous_hash, block@.nonce, difficulty)
            &&& forall|n: u64|
                n < block@.nonce ==> !#[trigger] qualifies(
                    index,
                    timestamp,
                    data,
                    previous_hash,
                    n,
                    difficulty,
                )
        },
        None => forall|n: u64|
            !#[trigger] qualifies(index, timestamp, data, previous_hash, n, difficulty),
    }
}

impl BlockView {
    /// The hash that the block's own fields give.
    pub open spec fn expected_hash(self) -> Seq<char> {
        block_hash(self.index, self.timestamp, self.data, self.previous_hash, self.nonce)
    }

    /// The stored hash is the hash of the block's own fields.
    pub open spec fn is_sealed(self) -> bool {
        self.hash == self.expected_hash()
    }
}

/// The first block of every chain.
pub open spec fn genesis() -> BlockView {
    BlockView {
        index: 0,
        timestamp: 0,
        data: "Hi There"@,
        previous_hash: "0"@,
        hash: block_hash(0, 0, "Hi There"@, "0"@, 0),
        nonce: 0,
    }
}

/// Whether `hash` starts with `difficulty` zeros.
pub fn has_leading_zeros(hash: &str, difficulty: usize) -> (yes: bool)
    ensures
        yes == meets_difficulty(hash@, difficulty as nat),
{
    let mut rest = hash.chars();
    let mut seen: usize = 0;
    while seen < difficulty
        invariant
            seen <= difficulty,
            seen <= hash@.len(),
            rest.remaining() == hash@.skip(seen as int),
            rest.obeys_prophetic_iter_laws(),
            forall|j: int| 0 <= j < seen ==> hash@[j] == '0',
        decreases difficulty - seen,
    {
        match rest.next() {
            Some(c) => {
                assert(c == hash@[seen as int]);
                if c != '0' {
                    return false;
                }
                assert(hash@.skip(seen as int).drop_first() =~= hash@.skip(seen + 1));
            },
            None => {
                return false;
            },
        }
        seen += 1;
    }
    true
}

impl Clone for Block {
    fn clone(&self) -> (copy: Self)
        ensures
            copy == *self,
    {
        Block {
            index: self.index,
            timestamp: self.timestamp,
            data: self.data.clone(),
            previous_hash: self.previous_hash.clone(),
            hash: self.hash.clone(),
            nonce: self.nonce,
        }
    }
}

impl Block {
    /// Computes the hash of a block with the given fields: 64 hexadecimal
    /// digits that depend on the five arguments alone.
    pub fn compute_hash(
        index: u64,
        timestamp: u128,
        data: &str,
        previous_hash: &str,
        nonce: u64,
    ) -> (hash: String)
        ensures
            hash@ == block_hash(index, timestamp, data@, previous_hash@, nonce),
            hash@.len() == 64,
    {
        let mut input: Vec<u8> = Vec::new();
        push_decimal(index as u128, &mut input);
        push_decimal(timestamp, &mut input);
        input.extend_from_slice(data.as_bytes());
        assert(input@ =~= decimal(index as nat) + decimal(timestamp as nat) + encode_utf8(data@));
        input.extend_from_slice(previous_hash.as_bytes());
        assert(input@ =~= decimal(index as nat) + decimal(timestamp as nat) + encode_utf8(data@)
            + encode_utf8(previous_hash@));
        push_decimal(nonce as u128, &mut input);
        let digest = sha256_digest(input.as_slice());
        hex_encode(digest.as_slice())
    }

    /// Builds the block with the given fields and seals it with its hash.
    pub fn new_block(
        index: u64,
        timestamp: u128,
        data: String,
        previous_hash: String,
        nonce: u64,
    ) -> (block: Self)
        ensures
            block@.index == index,
            block@.timestamp == timestamp,
            block@.data == data@,
            block@.previous_hash == previous_hash@,
            block@.nonce == nonce,
            block@.is_sealed(),
    {
        let hash = Block::compute_hash(index, timestamp, data.as_str(), previous_hash.as_str(), nonce);
        Block { index, timestamp, data, previous_hash, hash, nonce }
    }

    /// Searches for the proof of work of a block with the given fields: tries
    /// the nonces from zero upwards and seals the block with the first one
    /// whose hash meets `difficulty`.
    ///
    /// The search has no cap and no timeout: it ends only at a qualifying
    /// nonce or when all 2^64 nonces have been tried, in which case no block
    /// with these fields can meet the difficulty and the result is `None`.
    pub fn mine_block(
        index: u64,
        timestamp: u128,
        data: String,
        previous_hash: String,
        difficulty: usize,
    ) -> (mined: Option<Self>)
        ensures
            search_yields(index, timestamp, data@, previous_hash@, difficulty as nat, mined),
            mined is Some ==> meets_difficulty(mined->0@.hash, difficulty as nat),
            difficulty == 0 ==> mined is Some && mined->0@.nonce == 0,
    {
        let mut nonce: u64 = 0;
        loop
            invariant
                forall|n: u64|
                    n < nonce ==> !#[trigger] qualifies(
                        index,
                        timestamp,
                        data@,
                        previous_hash@,
                        n,
                        difficulty as nat,
                    ),
            decreases u64::MAX - nonce,
        {
            let hash = Block::compute_hash(
                index,
                timestamp,
                data.as_str(),
                previous_hash.as_str(),
                nonce,
            );
            if has_leading_zeros(hash.as_str(), difficulty) {
                assert(difficulty == 0 ==> nonce == 0) by {
                    if difficulty == 0 && nonce > 0 {
                        assert(qualifies(index, timestamp, data@, previous_hash@, 0, 0));
                    }
                }
                return Some(Block { index, timestamp, data, previous_hash, hash, nonce });
            }
            if nonce == u64::MAX {
                return None;
            }
            nonce = nonce + 1;
        }
    }

    /// Builds the first block of every chain.
    pub fn genesis_block() -> (block: Self)
        ensures
            block@ == genesis(),
    {
        Block::new_block(0, 0, "Hi There".to_owned(), "0".to_owned(), 0)
    }
}

} // verus!
