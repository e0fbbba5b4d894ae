//! A node: one ledger and the decisions taken for each message. A node never
//! waits and never sends; it says what is to be done, and whoever runs it
//! does the waiting, the mining and the sending.

use crate::block::{Block, BlockView};
use crate::chain::{accepts, valid_chain, Blockchain};
use crate::protocol::{Action, ActionView, Message, MessageView, MiningJob, MiningJobView};
use vstd::prelude::*;

verus! {

/// The ledger after a node with the given ledger and difficulty has handled
/// `message`.
pub open spec fn chain_after(
    chain: Seq<BlockView>,
    difficulty: usize,
    message: MessageView,
) -> Seq<BlockView> {
    match message {
        MessageView::Mine(_) => chain,
        MessageView::NewBlock(block) => if accepts(chain.last(), block) {
            chain.push(block)
        } else {
            chain
        },
        MessageView::RequestChain(_) => chain,
        MessageView::Chain(candidate) => if candidate.len() > chain.len() && valid_chain(
            candidate,
            difficulty as nat,
        ) {
            candidate
        } else {
            chain
        },
    }
}

/// What the node `id` with the given ledger and difficulty asks for when it
/// handles `message`.
///
/// A request to mine is answered with a job for the block behind the newest
/// one (or with nothing where the newest block has the largest index there
/// is). A new block is passed on to every peer if it was accepted; if it was
/// refused, every peer is asked for its chain. A request for the chain is
/// answered with the whole ledger, sent to every peer and not to the asker
/// alone. A chain is adopted or not, and nothing is sent.
pub open spec fn reaction(
    id: usize,
    chain: Seq<BlockView>,
    difficulty: usize,
    message: MessageView,
) -> ActionView {
    match message {
        MessageView::Mine(data) => if chain.last().index < u64::MAX {
            ActionView::Mine(
                MiningJobView {
                    index: (chain.last().index + 1) as u64,
                    previous_hash: chain.last().hash,
                    difficulty,
                    data,
                },
            )
        } else {
            ActionView::Idle
        },
        MessageView::NewBlock(block) => if accepts(chain.last(), block) {
            ActionView::Broadcast(MessageView::NewBlock(block))
        } else {
            ActionView::Broadcast(MessageView::RequestChain(id))
        },
        MessageView::RequestChain(_) => ActionView::Broadcast(MessageView::Chain(chain)),
        MessageView::Chain(_) => ActionView::Idle,
    }
}

/// One participant of the network: an identifier and a ledger.
pub struct Node {
    id: usize,
    blockchain: Blockchain,
}

/// The mathematical value of a [`Node`].
pub struct NodeView {
    pub id: usize,
    pub difficulty: usize,
    pub chain: Seq<BlockView>,
}

impl View for Node {
    type V = NodeView;

    closed spec fn view(&self) -> NodeView {
        NodeView {
            id: self.id,
            difficulty: self.blockchain.spec_difficulty(),
            chain: self.blockchain@,
        }
    }
}

impl Node {
    /// What holds of every node that was made by [`Node::new`] and changed by
    /// the methods below: its ledger is not empty, and every block but the
    /// first is sealed and names the hash of the block before it.
    pub open spec fn well_formed(&self) -> bool {
        valid_chain(self@.chain, 0)
    }

    /// A node whose ledger holds the genesis block alone.
    pub fn new(id: usize, difficulty: usize) -> (node: Self)
        ensures
            node@.id == id,
            node@.difficulty == difficulty,
            node@.chain == seq![crate::block::genesis()],
            node.well_formed(),
    {
        Node { id, blockchain: Blockchain::new(difficulty) }
    }

    /// The node's identifier.
    pub fn id(&self) -> (id: usize)
        ensures
            id == self@.id,
    {
        self.id
    }

    /// The node's ledger.
    pub fn blockchain(&self) -> (ledger: &Blockchain)
        ensures
            ledger@ == self@.chain,
            ledger.spec_difficulty() == self@.difficulty,
    {
        &self.blockchain
    }

    /// Handles one message from the mailbox: changes the ledger as the
    /// message asks and says what is to be done next.
    pub fn handle_message(&mut self, message: Message) -> (action: Action)
        requires
            old(self)@.chain.len() > 0,
        ensures
            final(self)@.id == old(self)@.id,
            final(self)@.difficulty == old(self)@.difficulty,
            final(self)@.chain == chain_after(old(self)@.chain, old(self)@.difficulty, message@),
            action@ == reaction(old(self)@.id, old(self)@.chain, old(self)@.difficulty, message@),
            final(self)@.chain.len() > 0,
            old(self).well_formed() ==> final(self).well_formed(),
    {
        match message {
            Message::Mine(data) => {
                let last = self.blockchain.last_block();
                if last.index == u64::MAX {
                    Action::Idle
                } else {
                    Action::Mine(
                        MiningJob {
                            index: last.index + 1,
                            previous_hash: last.hash.clone(),
                            difficulty: self.blockchain.difficulty(),
                            data,
                        },
                    )
                }
            },
            Message::NewBlock(block) => {
                if self.blockchain.add_block(block.clone()) {
                    Action::Broadcast(Message::NewBlock(block))
                } else {
                    Action::Broadcast(Message::RequestChain(self.id))
                }
            },
            Message::RequestChain(_) => Action::Broadcast(Message::Chain(self.blockchain.snapshot())),
            Message::Chain(candidate) => {
                self.blockchain.replace_chain(candidate);
                Action::Idle
            },
        }
    }

    /// Takes the block that a search started by this node has found. The
    /// ledger may have grown since the job was handed out: a block that no
    /// longer fits is dropped, and nothing is sent. A block that fits is
    /// appended and announced to every peer.
    pub fn mining_finished(&mut self, block: Block) -> (action: Action)
        requires
            old(self)@.chain.len() > 0,
        ensures
            final(self)@.id == old(self)@.id,
            final(self)@.difficulty == old(self)@.difficulty,
            final(self)@.chain == if accepts(old(self)@.chain.last(), block@) {
                old(self)@.chain.push(block@)
            } else {
                old(self)@.chain
            },
            action@ == if accepts(old(self)@.chain.last(), block@) {
                ActionView::Broadcast(MessageView::NewBlock(block@))
            } else {
                ActionView::Idle
            },
            final(self)@.chain.len() > 0,
            old(self).well_formed() ==> final(self).well_formed(),
    {
        if self.blockchain.add_block(block.clone()) {
            Action::Broadcast(Message::NewBlock(block))
        } else {
            Action::Idle
        }
    }
}

} // verus!
