use vstd::prelude::*;

use crate::clock::{clock_start, millis_since, unix_seconds};
use crate::digest::{has_zero_prefix, meets_difficulty, sha256_hex, sha256_hex_of};
use crate::encoding::{block_preimage, block_preimage_bytes};

verus! {

/// Why a block could not be produced.
#[derive(Debug, Clone, Copy, PartialEq, Eq, Structural)]
pub enum MineError {
    /// The system clock reads a time before the Unix epoch.
    ClockFailure,
    /// No nonce in the searched range gives a digest that meets the target.
    NonceSpaceExhausted,
}

/// One ledger entry.
#[derive(Debug, Clone)]
pub struct Block {
    /// Position in the chain; the genesis block has index 0.
    pub index: u64,
    /// Seconds since the Unix epoch, read once before mining started.
    pub timestamp: u64,
    /// The caller's payload.
    pub data: String,
    /// Digest of the preceding block, or the sentinel `"0"` for genesis.
    pub previous_hash: String,
    /// The value found by the proof-of-work search.
    pub nonce: u64,
    /// Digest of the fields above.
    pub hash: String,
    /// Milliseconds the search took; informational only.
    pub mining_time: u64,
    /// Number of leading zero characters the block was mined against.
    pub difficulty: usize,
}

/// The digest of a block with the given fields.
pub open spec fn digest_of(
    index: u64,
    timestamp: u64,
    data: Seq<char>,
    previous_hash: Seq<char>,
    nonce: u64,
) -> Seq<char> {
    sha256_hex_of(block_preimage(index, timestamp, data, previous_hash, nonce))
}

/// `nonce` solves the proof-of-work puzzle for the given fields.
pub open spec fn solves(
    index: u64,
    timestamp: u64,
    data: Seq<char>,
    previous_hash: Seq<char>,
    nonce: u64,
    difficulty: usize,
) -> bool {
    has_zero_prefix(digest_of(index, timestamp, data, previous_hash, nonce), difficulty as nat)
}

impl Block {
    /// The digest recomputed from the block's own fields.
    pub open spec fn digest(&self) -> Seq<char> {
        digest_of(self.index, self.timestamp, self.data@, self.previous_hash@, self.nonce)
    }

    /// The stored hash is the block's digest and meets its difficulty.
    pub open spec fn is_mined(&self) -> bool {
        &&& self.hash@ == self.digest()
        &&& has_zero_prefix(self.hash@, self.difficulty as nat)
    }

    /// `nonce` is the least one that solves the puzzle for this block's
    /// other fields.
    pub open spec fn has_least_nonce(&self) -> bool {
        forall|n: u64|
            n < self.nonce ==> !solves(
                self.index,
                self.timestamp,
                self.data@,
                self.previous_hash@,
                n,
                self.difficulty,
            )
    }

    /// Recomputes the digest of the block from its fields.
    pub fn calculate_hash(&self) -> (r: String)
        ensures
            r@ == self.digest(),
    {
        let input = block_preimage_bytes(
            self.index,
            self.timestamp,
            self.data.as_str(),
            self.previous_hash.as_str(),
            self.nonce,
        );
        sha256_hex(&input)
    }

    /// Searches the nonces `0..=max_nonce` in order for the first whose
    /// digest meets `difficulty`, and builds the block from it. The mining
    /// time is left at 0.
    pub fn mine(
        index: u64,
        timestamp: u64,
        data: String,
        previous_hash: String,
        difficulty: usize,
        max_nonce: u64,
    ) -> (r: Result<Block, MineError>)
        ensures
            match r {
                Ok(b) => {
                    &&& b.index == index
                    &&& b.timestamp == timestamp
                    &&& b.data@ == data@
                    &&& b.previous_hash@ == previous_hash@
                    &&& b.difficulty == difficulty
                    &&& b.mining_time == 0
                    &&& b.nonce <= max_nonce
                    &&& b.is_mined()
                    &&& b.has_least_nonce()
                },
                Err(e) => {
                    &&& e == MineError::NonceSpaceExhausted
                    &&& forall|n: u64|
                        n <= max_nonce ==> !solves(
                            index,
                            timestamp,
                            data@,
                            previous_hash@,
                            n,
                            difficulty,
                        )
                },
            },
    {
        let mut nonce: u64 = 0;
        loop
            invariant
                nonce <= max_nonce,
                forall|n: u64|
                    n < nonce ==> !solves(index, timestamp, data@, previous_hash@, n, difficulty),
            decreases max_nonce - nonce,
        {
            let input = block_preimage_bytes(
                index,
                timestamp,
                data.as_str(),
                previous_hash.as_str(),
                nonce,
            );
            let hash = sha256_hex(&input);
            if meets_difficulty(hash.as_str(), difficulty) {
                return Ok(
                    Block {
                        index,
                        timestamp,
                        data,
                        previous_hash,
                        nonce,
                        hash,
                        mining_time: 0,
                        difficulty,
                    },
                );
            }
            if nonce == max_nonce {
                return Err(MineError::NonceSpaceExhausted);
            }
            nonce = nonce + 1;
        }
    }

    /// Mines a block over the whole nonce range, stamped with the current
    /// time and carrying the time the search took.
    pub fn new(index: u64, data: String, previous_hash: String, difficulty: usize) -> (r: Result<
        Block,
        MineError,
    >)
        ensures
            r matches Ok(b) ==> {
                &&& b.index == index
                &&& b.data@ == data@
                &&& b.previous_hash@ == previous_hash@
                &&& b.difficulty == difficulty
                &&& b.is_mined()
                &&& b.has_least_nonce()
            },
    {
        let timestamp = match unix_seconds() {
            Some(t) => t,
            None => return Err(MineError::ClockFailure),
        };
        let start = clock_start();
        let mut block = Block::mine(index, timestamp, data, previous_hash, difficulty, u64::MAX)?;
        block.mining_time = millis_since(&start);
        Ok(block)
    }
}

} // verus!
