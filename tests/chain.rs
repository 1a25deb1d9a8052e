use pow_chain::block::{Block, MineError};
use pow_chain::chain::{adjusted_difficulty, block_follows, Blockchain};

fn chain_with(blocks: usize, difficulty: usize) -> Blockchain {
    let mut c = Blockchain::new(difficulty, 10, 3).expect("clock");
    for k in 1..=blocks {
        c.add_block(format!("Block {}", k)).expect("mined");
    }
    c
}

fn bare_chain(difficulty: usize, last: u64) -> Blockchain {
    Blockchain {
        chain: Vec::new(),
        difficulty,
        time_target: 10,
        adjustment_interval: 3,
        last_adjustment_time: last,
    }
}

#[test]
fn genesis_block_is_mined_and_chain_is_valid() {
    let c = Blockchain::new(4, 10, 3).expect("clock");
    assert_eq!(c.len(), 1);
    let g = &c.chain[0];
    assert_eq!(g.index, 0);
    assert_eq!(g.data, "Genesis Block");
    assert_eq!(g.previous_hash, "0");
    assert_eq!(g.difficulty, 4);
    assert_eq!(g.hash.len(), 64);
    assert!(g.hash.starts_with("0000"));
    assert_eq!(g.calculate_hash(), g.hash);
    assert!(c.is_valid());
}

#[test]
fn added_blocks_link_to_their_predecessors() {
    let c = chain_with(4, 1);
    assert_eq!(c.len(), 5);
    for i in 1..c.len() {
        assert_eq!(c.chain[i].previous_hash, c.chain[i - 1].hash);
        assert_eq!(c.chain[i].index, i as u64);
        assert_eq!(c.chain[i].data, format!("Block {}", i));
    }
    assert!(c.is_valid());
}

#[test]
fn stored_hashes_are_reproduced() {
    let c = chain_with(3, 1);
    for b in &c.chain {
        assert_eq!(b.calculate_hash(), b.hash);
        assert_eq!(b.calculate_hash(), b.calculate_hash());
    }
}

#[test]
fn hashes_meet_their_difficulty() {
    let c = chain_with(4, 2);
    for b in &c.chain {
        assert!(b.difficulty >= 1);
        assert!(b.hash.starts_with(&"0".repeat(b.difficulty)));
    }
}

#[test]
fn rapid_blocks_raise_difficulty_at_period_boundaries() {
    let c = chain_with(5, 1);
    assert_eq!(c.len(), 6);
    // the adjustment runs before the block added at length 3
    assert_eq!(c.chain[1].difficulty, 1);
    assert_eq!(c.chain[2].difficulty, 1);
    assert_eq!(c.chain[3].difficulty, 2);
    assert_eq!(c.chain[4].difficulty, 2);
    assert_eq!(c.chain[5].difficulty, 2);
    assert_eq!(c.difficulty, 2);
    assert!(c.is_valid());
}

#[test]
fn controller_steps_up_when_period_is_fast() {
    let mut c = bare_chain(4, 1000);
    c.adjust_difficulty_at(1005);
    assert_eq!(c.difficulty, 5);
    assert_eq!(c.last_adjustment_time, 1005);
    c.adjust_difficulty_at(1010);
    assert_eq!(c.difficulty, 6);
}

#[test]
fn controller_steps_down_when_period_is_slow() {
    let mut c = bare_chain(4, 1000);
    c.adjust_difficulty_at(1030);
    assert_eq!(c.difficulty, 3);
    c.adjust_difficulty_at(1100);
    assert_eq!(c.difficulty, 2);
}

#[test]
fn difficulty_never_falls_below_one() {
    let mut c = bare_chain(1, 0);
    c.adjust_difficulty_at(500);
    assert_eq!(c.difficulty, 1);
    assert_eq!(adjusted_difficulty(1, 100, 30), 1);
    assert_eq!(adjusted_difficulty(2, 30, 30), 1);
    assert_eq!(adjusted_difficulty(4, 29, 30), 5);
    assert_eq!(adjusted_difficulty(usize::MAX, 0, 30), usize::MAX);
}

#[test]
fn backwards_clock_counts_as_fast_period() {
    let mut c = bare_chain(3, 1000);
    c.adjust_difficulty_at(900);
    assert_eq!(c.difficulty, 4);
    assert_eq!(c.last_adjustment_time, 900);
}

#[test]
fn tampered_payload_is_rejected() {
    let mut c = chain_with(2, 1);
    c.chain[1].data = String::from("forged");
    assert!(!c.is_valid());
}

#[test]
fn tampered_nonce_is_rejected() {
    let mut c = chain_with(2, 1);
    c.chain[2].nonce += 1;
    assert!(!c.is_valid());
}

#[test]
fn tampered_previous_hash_is_rejected() {
    let mut c = chain_with(2, 1);
    c.chain[1].previous_hash = String::from("0");
    assert!(!c.is_valid());
}

#[test]
fn tampered_hash_breaks_the_next_link() {
    let mut c = chain_with(2, 1);
    let mut h = c.chain[1].hash.clone();
    h.replace_range(63..64, if h.ends_with('a') { "b" } else { "a" });
    c.chain[1].hash = h;
    assert!(!c.is_valid());
}

#[test]
fn single_block_chain_is_valid() {
    let c = Blockchain::new(1, 10, 3).expect("clock");
    assert!(c.is_valid());
}

#[test]
fn total_mining_time_sums_all_blocks() {
    let mut c = chain_with(2, 1);
    c.chain[0].mining_time = 3;
    c.chain[1].mining_time = 5;
    c.chain[2].mining_time = 10;
    assert_eq!(c.total_mining_time(), 18);
    let average = c.total_mining_time() as f64 / c.len() as f64;
    assert_eq!(average, 6.0);
}

#[test]
fn total_mining_time_of_large_values() {
    let mut c = chain_with(1, 1);
    c.chain[0].mining_time = u64::MAX;
    c.chain[1].mining_time = u64::MAX;
    assert_eq!(c.total_mining_time(), 2 * u64::MAX as u128);
}

#[test]
fn mining_stats_are_comma_separated() {
    let b = Block {
        index: 0,
        timestamp: 7,
        data: String::from("x"),
        previous_hash: String::from("0"),
        nonce: 3,
        hash: String::from("00ab"),
        mining_time: 12,
        difficulty: 2,
    };
    let mut c = bare_chain(2, 0);
    c.chain.push(b.clone());
    let mut b2 = b;
    b2.index = 1;
    b2.mining_time = 0;
    b2.hash = String::from("0f");
    c.chain.push(b2);
    let csv = c.mining_stats_csv();
    assert_eq!(
        String::from_utf8(csv).unwrap(),
        "Index,Mining Time (ms),Hash\n0,12,00ab\n1,0,0f\n"
    );
}

#[test]
fn mining_stats_of_empty_chain_is_header() {
    let c = bare_chain(1, 0);
    assert_eq!(c.mining_stats_csv(), b"Index,Mining Time (ms),Hash\n".to_vec());
}

#[test]
fn mine_finds_least_nonce() {
    let b = Block::mine(1, 1_700_000_000, String::from("payload"), String::from("0"), 1, u64::MAX)
        .expect("mined");
    assert!(b.hash.starts_with('0'));
    assert_eq!(b.mining_time, 0);
    assert_eq!(b.calculate_hash(), b.hash);
    for n in 0..b.nonce {
        let mut probe = b.clone();
        probe.nonce = n;
        assert!(!probe.calculate_hash().starts_with('0'));
    }
}

#[test]
fn mine_with_zero_difficulty_takes_first_nonce() {
    let b = Block::mine(0, 5, String::from("a"), String::from("b"), 0, 0).expect("mined");
    assert_eq!(b.nonce, 0);
}

#[test]
fn mine_reports_exhausted_nonce_range() {
    let r = Block::mine(0, 5, String::from("a"), String::from("b"), 65, 20);
    assert_eq!(r.unwrap_err(), MineError::NonceSpaceExhausted);
}

#[test]
fn block_new_stamps_and_mines() {
    let b = Block::new(3, String::from("d"), String::from("prev"), 2).expect("clock");
    assert_eq!(b.index, 3);
    assert_eq!(b.data, "d");
    assert_eq!(b.previous_hash, "prev");
    assert!(b.timestamp > 1_600_000_000);
    assert!(b.hash.starts_with("00"));
    assert_eq!(b.calculate_hash(), b.hash);
}

#[test]
fn block_follows_checks_link_digest_and_target() {
    let c = chain_with(1, 1);
    let prev = &c.chain[0];
    let cur = &c.chain[1];
    let digest = cur.calculate_hash();
    assert!(block_follows(cur, prev, &digest));
    assert!(!block_follows(cur, cur, &digest));
    assert!(!block_follows(cur, prev, &String::from("0abc")));
    let mut harder = cur.clone();
    harder.difficulty = 65;
    assert!(!block_follows(&harder, prev, &digest));
}
