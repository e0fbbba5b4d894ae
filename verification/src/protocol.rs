//! What nodes say to each other, and what a node does in answer.

use crate::block::{meets_difficulty, search_yields, Block, BlockView};
use crate::chain::blocks_view;
use vstd::prelude::*;

verus! {

/// A message in a node's mailbox.
#[derive(Debug)]
pub enum Message {
    /// A request to mine a block that carries this payload.
    Mine(String),
    /// A block that a peer has accepted.
    NewBlock(Block),
    /// A request for the receiver's chain, with the identifier of the node
    /// that asks.
    RequestChain(usize),
    /// A copy of a peer's chain.
    Chain(Vec<Block>),
}

/// The mathematical value of a [`Message`].
pub enum MessageView {
    Mine(Seq<char>),
    NewBlock(BlockView),
    RequestChain(usize),
    Chain(Seq<BlockView>),
}

impl View for Message {
    type V = MessageView;

    open spec fn view(&self) -> MessageView {
        match self {
            Message::Mine(data) => MessageView::Mine(data@),
            Message::NewBlock(block) => MessageView::NewBlock(block@),
            Message::RequestChain(from) => MessageView::RequestChain(*from),
            Message::Chain(blocks) => MessageView::Chain(blocks_view(blocks@)),
        }
    }
}

impl Clone for Message {
    fn clone(&self) -> (copy: Self)
        ensures
            copy@ == self@,
    {
        match self {
            Message::Mine(data) => Message::Mine(data.clone()),
            Message::NewBlock(block) => Message::NewBlock(block.clone()),
            Message::RequestChain(from) => Message::RequestChain(*from),
            Message::Chain(blocks) => {
                let copy = blocks.clone();
                assert(blocks_view(copy@) =~= blocks_view(blocks@));
                Message::Chain(copy)
            },
        }
    }
}

/// What a node has fixed of the block it wants mined: everything but the
/// timestamp and the nonce.
#[derive(Debug)]
pub struct MiningJob {
    pub index: u64,
    pub previous_hash: String,
    pub difficulty: usize,
    pub data: String,
}

/// The mathematical value of a [`MiningJob`].
pub struct MiningJobView {
    pub index: u64,
    pub previous_hash: Seq<char>,
    pub difficulty: usize,
    pub data: Seq<char>,
}

impl View for MiningJob {
    type V = MiningJobView;

    open spec fn view(&self) -> MiningJobView {
        MiningJobView {
            index: self.index,
            previous_hash: self.previous_hash@,
            difficulty: self.difficulty,
            data: self.data@,
        }
    }
}

impl MiningJob {
    /// Runs the proof-of-work search for this job with the given timestamp.
    /// This is the long computation: a node runs it away from its mailbox and
    /// without holding its ledger.
    pub fn mine(self, timestamp: u128) -> (mined: Option<Block>)
        ensures
            search_yields(
                self@.index,
                timestamp,
                self@.data,
                self@.previous_hash,
                self@.difficulty as nat,
                mined,
            ),
            mined is Some ==> meets_difficulty(mined->0@.hash, self@.difficulty as nat),
            self@.difficulty == 0 ==> mined is Some && mined->0@.nonce == 0,
    {
        Block::mine_block(self.index, timestamp, self.data, self.previous_hash, self.difficulty)
    }
}

/// What a node asks of its surroundings after it has taken a decision.
#[derive(Debug)]
pub enum Action {
    /// Start a proof-of-work search for this job, and hand the block found
    /// back to the node.
    Mine(MiningJob),
    /// Send this message to every peer.
    Broadcast(Message),
    /// Nothing.
    Idle,
}

/// The mathematical value of an [`Action`].
pub enum ActionView {
    Mine(MiningJobView),
    Broadcast(MessageView),
    Idle,
}

impl View for Action {
    type V = ActionView;

    open spec fn view(&self) -> ActionView {
        match self {
            Action::Mine(job) => ActionView::Mine(job@),
            Action::Broadcast(message) => ActionView::Broadcast(message@),
            Action::Idle => ActionView::Idle,
        }
    }
}

} // verus!
