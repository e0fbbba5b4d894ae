use hashchain::block::Block;
use hashchain::node::Node;
use hashchain::protocol::{Action, Message, MiningJob};

fn hashes(blocks: &[Block]) -> Vec<String> {
    blocks.iter().map(|block| block.hash.clone()).collect()
}

fn job_of(action: Action) -> MiningJob {
    match action {
        Action::Mine(job) => job,
        other => panic!("expected a mining job, got {:?}", other),
    }
}

fn broadcast_of(action: Action) -> Message {
    match action {
        Action::Broadcast(message) => message,
        other => panic!("expected a broadcast, got {:?}", other),
    }
}

fn mine_one(node: &mut Node, payload: &str, timestamp: u128) -> Message {
    let job = job_of(node.handle_message(Message::Mine(String::from(payload))));
    let block = job.mine(timestamp).expect("a nonce qualifies");
    broadcast_of(node.mining_finished(block))
}

#[test]
fn new_node_starts_from_the_genesis_block() {
    let node = Node::new(3, 2);
    assert_eq!(node.id(), 3);
    assert_eq!(node.blockchain().difficulty(), 2);
    assert_eq!(node.blockchain().len(), 1);
    assert_eq!(node.blockchain().last_block().hash, Block::genesis_block().hash);
}

#[test]
fn mine_request_gives_a_job_for_the_next_block() {
    let mut node = Node::new(0, 2);
    let job = job_of(node.handle_message(Message::Mine(String::from("transaction: 7"))));
    assert_eq!(job.index, 1);
    assert_eq!(job.previous_hash, Block::genesis_block().hash);
    assert_eq!(job.difficulty, 2);
    assert_eq!(job.data, "transaction: 7");
    assert_eq!(node.blockchain().len(), 1);
}

#[test]
fn mined_block_is_appended_and_announced() {
    let mut node = Node::new(0, 1);
    let job = job_of(node.handle_message(Message::Mine(String::from("x"))));
    let block = job.mine(1000).expect("a nonce qualifies");
    assert_eq!(block.nonce, 7);
    match node.mining_finished(block.clone()) {
        Action::Broadcast(Message::NewBlock(sent)) => assert_eq!(sent.hash, block.hash),
        other => panic!("expected the block to be announced, got {:?}", other),
    }
    assert_eq!(node.blockchain().len(), 2);
    assert_eq!(node.blockchain().last_block().hash, block.hash);
}

#[test]
fn stale_mined_block_is_dropped_in_silence() {
    let mut node = Node::new(0, 0);
    let first = job_of(node.handle_message(Message::Mine(String::from("first"))));
    let second = job_of(node.handle_message(Message::Mine(String::from("second"))));
    assert_eq!(first.index, 1);
    assert_eq!(second.index, 1);
    let winner = second.mine(2000).expect("a nonce qualifies");
    let loser = first.mine(1000).expect("a nonce qualifies");
    assert!(matches!(node.mining_finished(winner.clone()), Action::Broadcast(Message::NewBlock(_))));
    assert!(matches!(node.mining_finished(loser), Action::Idle));
    assert_eq!(node.blockchain().len(), 2);
    assert_eq!(node.blockchain().last_block().hash, winner.hash);
}

#[test]
fn accepted_block_is_passed_on_unchanged() {
    let mut sender = Node::new(0, 0);
    let mut receiver = Node::new(1, 0);
    let announced = mine_one(&mut sender, "x", 1000);
    let sent_hash = match &announced {
        Message::NewBlock(block) => block.hash.clone(),
        other => panic!("expected a new block, got {:?}", other),
    };
    match receiver.handle_message(announced) {
        Action::Broadcast(Message::NewBlock(block)) => {
            assert_eq!(block.hash, sent_hash);
            assert_eq!(block.data, "x");
            assert_eq!(block.index, 1);
        }
        other => panic!("expected the block to be passed on, got {:?}", other),
    }
    assert_eq!(receiver.blockchain().len(), 2);
}

#[test]
fn block_already_held_is_refused_and_the_chain_is_asked_for() {
    let mut sender = Node::new(0, 0);
    let mut receiver = Node::new(4, 0);
    let announced = mine_one(&mut sender, "x", 1000);
    let again = announced.clone();
    assert!(matches!(receiver.handle_message(announced), Action::Broadcast(Message::NewBlock(_))));
    match receiver.handle_message(again) {
        Action::Broadcast(Message::RequestChain(from)) => assert_eq!(from, 4),
        other => panic!("expected a request for the chain, got {:?}", other),
    }
    assert_eq!(receiver.blockchain().len(), 2);
}

#[test]
fn chain_request_is_answered_with_the_whole_ledger() {
    let mut node = Node::new(2, 0);
    mine_one(&mut node, "x", 1000);
    match node.handle_message(Message::RequestChain(999)) {
        Action::Broadcast(Message::Chain(blocks)) => {
            assert_eq!(hashes(&blocks), hashes(node.blockchain().blocks()));
            assert_eq!(blocks.len(), 2);
        }
        other => panic!("expected the chain to be sent, got {:?}", other),
    }
    assert_eq!(node.blockchain().len(), 2);
}

#[test]
fn competing_blocks_leave_the_fork_open() {
    let mut a = Node::new(0, 1);
    let mut b = Node::new(1, 1);
    let from_a = mine_one(&mut a, "from a", 1000);
    mine_one(&mut b, "from b", 1000);
    let b_tail = b.blockchain().last_block().hash.clone();
    assert!(a.blockchain().last_block().hash != b_tail);
    assert_eq!(a.blockchain().last_block().previous_hash, b.blockchain().last_block().previous_hash);

    let request = broadcast_of(b.handle_message(from_a));
    match &request {
        Message::RequestChain(from) => assert_eq!(*from, 1),
        other => panic!("expected a request for the chain, got {:?}", other),
    }
    assert_eq!(b.blockchain().len(), 2);

    let reply = broadcast_of(a.handle_message(request));
    match &reply {
        Message::Chain(blocks) => assert_eq!(blocks.len(), 2),
        other => panic!("expected a chain, got {:?}", other),
    }
    assert!(matches!(b.handle_message(reply), Action::Idle));
    assert_eq!(b.blockchain().len(), 2);
    assert_eq!(b.blockchain().last_block().hash, b_tail);
}

#[test]
fn longer_chain_settles_the_fork() {
    let mut a = Node::new(0, 1);
    let mut b = Node::new(1, 1);
    mine_one(&mut a, "from a", 1000);
    mine_one(&mut b, "from b", 1000);
    mine_one(&mut a, "from a again", 2000);
    assert_eq!(a.blockchain().len(), 3);
    assert_eq!(b.blockchain().len(), 2);

    let gossip = broadcast_of(a.handle_message(Message::RequestChain(1)));
    assert!(matches!(b.handle_message(gossip), Action::Idle));
    assert_eq!(b.blockchain().len(), 3);
    assert_eq!(hashes(b.blockchain().blocks()), hashes(a.blockchain().blocks()));
    assert_eq!(b.blockchain().blocks()[1].data, "from a");
    assert_eq!(b.blockchain().blocks()[2].data, "from a again");
}

#[test]
fn no_job_is_handed_out_behind_the_largest_index() {
    let mut node = Node::new(0, 0);
    let genesis = Block::genesis_block();
    let last = Block::new_block(u64::MAX, 5, String::from("end"), genesis.hash.clone(), 0);
    assert!(matches!(node.handle_message(Message::Chain(vec![genesis, last])), Action::Idle));
    assert_eq!(node.blockchain().len(), 2);
    assert!(matches!(node.handle_message(Message::Mine(String::from("x"))), Action::Idle));
    assert_eq!(node.blockchain().len(), 2);
}

#[test]
fn message_clone_keeps_what_it_carries() {
    let block = Block::new_block(1, 2, String::from("d"), String::from("p"), 3);
    match Message::NewBlock(block.clone()).clone() {
        Message::NewBlock(copy) => assert_eq!(copy.hash, block.hash),
        other => panic!("expected a new block, got {:?}", other),
    }
    match Message::Chain(vec![Block::genesis_block(), block.clone()]).clone() {
        Message::Chain(copy) => assert_eq!(hashes(&copy), vec![Block::genesis_block().hash, block.hash]),
        other => panic!("expected a chain, got {:?}", other),
    }
    assert!(matches!(Message::Mine(String::from("m")).clone(), Message::Mine(data) if data == "m"));
    assert!(matches!(Message::RequestChain(8).clone(), Message::RequestChain(8)));
}
