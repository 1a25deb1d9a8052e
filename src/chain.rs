use vstd::prelude::*;
use vstd::utf8::encode_utf8;

use crate::block::{Block, MineError};
use crate::clock::unix_seconds;
use crate::digest::{has_zero_prefix, meets_difficulty};
use crate::encoding::{decimal, push_decimal};

verus! {

/// Block `i` names the hash of block `i - 1` as its predecessor.
pub open spec fn linked(blocks: Seq<Block>, i: int) -> bool {
    blocks[i].previous_hash@ == blocks[i - 1].hash@
}

/// Block `i` passes validation: it is linked to its predecessor, its stored
/// hash is the digest of its fields, and that hash meets its difficulty.
pub open spec fn accepted(blocks: Seq<Block>, i: int) -> bool {
    &&& linked(blocks, i)
    &&& blocks[i].is_mined()
}

/// Every block after the genesis block passes validation.
pub open spec fn blocks_valid(blocks: Seq<Block>) -> bool {
    forall|i: int| 1 <= i < blocks.len() ==> #[trigger] accepted(blocks, i)
}

/// Block `i` sits at its own index, was mined against a positive difficulty
/// and still matches its digest.
pub open spec fn well_placed(blocks: Seq<Block>, i: int) -> bool {
    &&& blocks[i].index == i
    &&& blocks[i].difficulty >= 1
    &&& blocks[i].is_mined()
}

/// The difficulty after one adjustment: one more when the period took less
/// time than expected, else one less but never below 1.
pub open spec fn next_difficulty(difficulty: usize, elapsed: nat, expected: nat) -> usize {
    if elapsed < expected {
        if difficulty < usize::MAX {
            (difficulty + 1) as usize
        } else {
            difficulty
        }
    } else if difficulty > 1 {
        (difficulty - 1) as usize
    } else {
        difficulty
    }
}

/// Seconds from `last` to `now`; a clock that went backwards counts as 0.
pub open spec fn elapsed_since(last: u64, now: u64) -> nat {
    if now >= last {
        (now - last) as nat
    } else {
        0
    }
}

/// Seconds that one adjustment period is meant to take.
pub open spec fn expected_span(time_target: u64, adjustment_interval: usize) -> nat {
    time_target as nat * adjustment_interval as nat
}

/// The byte of a comma.
pub const COMMA: u8 = 44;

/// The byte of a line feed.
pub const NEWLINE: u8 = 10;

/// One statistics row: index, mining time and hash, comma separated.
pub open spec fn stats_row(b: Block) -> Seq<u8> {
    decimal(b.index as nat) + seq![COMMA] + decimal(b.mining_time as nat) + seq![COMMA]
        + encode_utf8(b.hash@) + seq![NEWLINE]
}

/// The rows of `blocks`, in order.
pub open spec fn stats_rows(blocks: Seq<Block>) -> Seq<u8>
    decreases blocks.len(),
{
    if blocks.len() == 0 {
        seq![]
    } else {
        stats_rows(blocks.drop_last()) + stats_row(blocks.last())
    }
}

/// The statistics file: a header row, then one row per block.
pub open spec fn stats_csv(blocks: Seq<Block>) -> Seq<u8> {
    encode_utf8("Index,Mining Time (ms),Hash\n"@) + stats_rows(blocks)
}

/// Sum of the mining times of `blocks`.
pub open spec fn total_mining(blocks: Seq<Block>) -> nat
    decreases blocks.len(),
{
    if blocks.len() == 0 {
        0
    } else {
        total_mining(blocks.drop_last()) + blocks.last().mining_time as nat
    }
}

/// Computes one difficulty adjustment.
pub fn adjusted_difficulty(difficulty: usize, elapsed: u64, expected: u128) -> (r: usize)
    ensures
        r == next_difficulty(difficulty, elapsed as nat, expected as nat),
{
    if (elapsed as u128) < expected {
        if difficulty < usize::MAX {
            difficulty + 1
        } else {
            difficulty
        }
    } else if difficulty > 1 {
        difficulty - 1
    } else {
        difficulty
    }
}

/// Decides whether `current` may follow `previous`, given `recomputed`, the
/// digest of `current`'s fields: it names `previous`'s hash, its stored hash
/// equals `recomputed`, and that hash meets `current`'s difficulty.
pub fn block_follows(current: &Block, previous: &Block, recomputed: &String) -> (r: bool)
    ensures
        r == {
            &&& current.previous_hash@ == previous.hash@
            &&& current.hash@ == recomputed@
            &&& has_zero_prefix(current.hash@, current.difficulty as nat)
        },
{
    current.previous_hash == previous.hash && current.hash == *recomputed && meets_difficulty(current.hash.as_str(), current.difficulty)
}

/// An append-only sequence of mined blocks and the controller that sets
/// the difficulty of the next one.
#[derive(Debug)]
pub struct Blockchain {
    /// The blocks, genesis first.
    pub chain: Vec<Block>,
    /// Leading zero characters required of the next block.
    pub difficulty: usize,
    /// Seconds each block is meant to take.
    pub time_target: u64,
    /// Number of blocks between two difficulty adjustments.
    pub adjustment_interval: usize,
    /// Seconds since the Unix epoch at the last adjustment.
    pub last_adjustment_time: u64,
}

impl Blockchain {
    /// The chain holds a genesis block, every block is mined and in place,
    /// consecutive blocks are linked, and the difficulty is positive.
    pub open spec fn wf(&self) -> bool {
        &&& self.chain@.len() >= 1
        &&& self.difficulty >= 1
        &&& self.adjustment_interval >= 1
        &&& forall|i: int| 0 <= i < self.chain@.len() ==> #[trigger] well_placed(self.chain@, i)
        &&& blocks_valid(self.chain@)
    }

    /// Creates a chain whose genesis block, with payload `"Genesis Block"`
    /// and previous hash `"0"`, is mined at once against `difficulty`.
    pub fn new(difficulty: usize, time_target: u64, adjustment_interval: usize) -> (r: Result<
        Blockchain,
        MineError,
    >)
        requires
            difficulty >= 1,
            adjustment_interval >= 1,
        ensures
            r matches Ok(c) ==> {
                &&& c.wf()
                &&& c.chain@.len() == 1
                &&& c.chain@[0].data@ == "Genesis Block"@
                &&& c.chain@[0].previous_hash@ == "0"@
                &&& c.chain@[0].difficulty == difficulty
                &&& c.difficulty == difficulty
                &&& c.time_target == time_target
                &&& c.adjustment_interval == adjustment_interval
            },
    {
        let genesis = Block::new(
            0,
            String::from_str("Genesis Block"),
            String::from_str("0"),
            difficulty,
        )?;
        let now = match unix_seconds() {
            Some(t) => t,
            None => return Err(MineError::ClockFailure),
        };
        let chain = vec![genesis];
        let c = Blockchain {
            chain,
            difficulty,
            time_target,
            adjustment_interval,
            last_adjustment_time: now,
        };
        assert(well_placed(c.chain@, 0));
        Ok(c)
    }

    /// Applies one difficulty adjustment at time `now`.
    pub fn adjust_difficulty_at(&mut self, now: u64)
        ensures
            final(self).difficulty == next_difficulty(
                old(self).difficulty,
                elapsed_since(old(self).last_adjustment_time, now),
                expected_span(old(self).time_target, old(self).adjustment_interval),
            ),
            final(self).last_adjustment_time == now,
            final(self).chain@ == old(self).chain@,
            final(self).time_target == old(self).time_target,
            final(self).adjustment_interval == old(self).adjustment_interval,
    {
        let elapsed: u64 = if now >= self.last_adjustment_time {
            now - self.last_adjustment_time
        } else {
            0
        };
        assert(self.time_target as nat * self.adjustment_interval as nat <= u64::MAX as nat
            * u64::MAX as nat) by (nonlinear_arith)
            requires
                self.time_target <= u64::MAX,
                self.adjustment_interval <= u64::MAX,
        ;
        let expected: u128 = self.time_target as u128 * self.adjustment_interval as u128;
        self.difficulty = adjusted_difficulty(self.difficulty, elapsed, expected);
        self.last_adjustment_time = now;
    }

    /// Reads the clock and applies one difficulty adjustment; on a clock
    /// failure nothing changes.
    pub fn adjust_difficulty(&mut self) -> (r: Result<(), MineError>)
        ensures
            r matches Ok(_) ==> final(self).difficulty == next_difficulty(
                old(self).difficulty,
                elapsed_since(old(self).last_adjustment_time, final(self).last_adjustment_time),
                expected_span(old(self).time_target, old(self).adjustment_interval),
            ),
            r matches Err(e) ==> e == MineError::ClockFailure && *final(self) == *old(self),
            final(self).chain@ == old(self).chain@,
            final(self).time_target == old(self).time_target,
            final(self).adjustment_interval == old(self).adjustment_interval,
    {
        match unix_seconds() {
            Some(now) => {
                self.adjust_difficulty_at(now);
                Ok(())
            },
            None => Err(MineError::ClockFailure),
        }
    }

    /// Mines a block with `data` on top of the chain and appends it. When
    /// the chain's length is a multiple of the adjustment interval, the
    /// difficulty is adjusted first. On an error no block is appended.
    pub fn add_block(&mut self, data: String) -> (r: Result<(), MineError>)
        requires
            old(self).wf(),
        ensures
            final(self).wf(),
            final(self).time_target == old(self).time_target,
            final(self).adjustment_interval == old(self).adjustment_interval,
            old(self).chain@.len() % old(self).adjustment_interval as nat != 0 ==> {
                &&& final(self).difficulty == old(self).difficulty
                &&& final(self).last_adjustment_time == old(self).last_adjustment_time
            },
            old(self).chain@.len() % old(self).adjustment_interval as nat == 0 ==> {
                ||| final(self).difficulty == next_difficulty(
                    old(self).difficulty,
                    elapsed_since(old(self).last_adjustment_time, final(self).last_adjustment_time),
                    expected_span(old(self).time_target, old(self).adjustment_interval),
                )
                ||| {
                    &&& r == Err::<(), MineError>(MineError::ClockFailure)
                    &&& final(self).difficulty == old(self).difficulty
                    &&& final(self).last_adjustment_time == old(self).last_adjustment_time
                }
            },
            r matches Err(_) ==> final(self).chain@ == old(self).chain@,
            r matches Ok(_) ==> {
                let n = old(self).chain@.len();
                let b = final(self).chain@[n as int];
                &&& final(self).chain@ == old(self).chain@.push(b)
                &&& b.index == n
                &&& b.data@ == data@
                &&& b.previous_hash@ == old(self).chain@[n - 1].hash@
                &&& b.difficulty == final(self).difficulty
                &&& b.is_mined()
                &&& b.has_least_nonce()
            },
    {
        if self.chain.len() % self.adjustment_interval == 0 {
            self.adjust_difficulty()?;
        }
        let len = self.chain.len();
        let previous_hash = self.chain[len - 1].hash.clone();
        assert(well_placed(self.chain@, len - 1));
        let index = self.chain[len - 1].index + 1;
        let block = Block::new(index, data, previous_hash, self.difficulty)?;
        let ghost before = self.chain@;
        self.chain.push(block);
        assert forall|i: int| 0 <= i < self.chain@.len() implies #[trigger] well_placed(
            self.chain@,
            i,
        ) by {
            if i < len {
                assert(well_placed(before, i));
            }
        }
        assert forall|i: int| 1 <= i < self.chain@.len() implies #[trigger] accepted(
            self.chain@,
            i,
        ) by {
            if i < len {
                assert(accepted(before, i));
            }
        }
        Ok(())
    }

    /// Checks every block after the genesis block: its previous hash is the
    /// hash of the block before it, its stored hash equals the digest
    /// recomputed from its fields, and that hash meets the difficulty the
    /// block was mined against.
    pub fn is_valid(&self) -> (r: bool)
        ensures
            r == blocks_valid(self.chain@),
            self.wf() ==> r,
    {
        let mut i: usize = 1;
        while i < self.chain.len()
            invariant
                1 <= i,
                i <= self.chain@.len() || self.chain@.len() == 0,
                forall|j: int| 1 <= j < i && j < self.chain@.len() ==> #[trigger] accepted(
                    self.chain@,
                    j,
                ),
            decreases self.chain@.len() - i,
        {
            let recalculated = self.chain[i].calculate_hash();
            if !block_follows(&self.chain[i], &self.chain[i - 1], &recalculated) {
                assert(!accepted(self.chain@, i as int));
                return false;
            }
            assert(accepted(self.chain@, i as int));
            i = i + 1;
        }
        true
    }

    /// Sum of the mining times of all blocks, genesis included. Divided by
    /// the number of blocks it gives the average mining time.
    pub fn total_mining_time(&self) -> (r: u128)
        ensures
            r == total_mining(self.chain@),
    {
        let mut sum: u128 = 0;
        let mut i: usize = 0;
        while i < self.chain.len()
            invariant
                i <= self.chain@.len(),
                sum == total_mining(self.chain@.take(i as int)),
                sum <= i as nat * u64::MAX as nat,
            decreases self.chain@.len() - i,
        {
            assert(self.chain@.take(i + 1).drop_last() =~= self.chain@.take(i as int));
            assert(sum + u64::MAX as nat <= (i + 1) as nat * u64::MAX as nat) by (nonlinear_arith)
                requires
                    sum <= i as nat * u64::MAX as nat,
            ;
            assert((i + 1) as nat * u64::MAX as nat <= u64::MAX as nat * u64::MAX as nat)
                by (nonlinear_arith)
                requires
                    i < u64::MAX,
            ;
            sum = sum + self.chain[i].mining_time as u128;
            i = i + 1;
        }
        assert(self.chain@.take(i as int) =~= self.chain@);
        sum
    }

    /// Number of blocks in the chain, genesis included.
    pub fn len(&self) -> (r: usize)
        ensures
            r == self.chain@.len(),
    {
        self.chain.len()
    }

    /// The mining statistics as comma-separated text: a header row, then
    /// one row per block with its index, mining time and hash.
    pub fn mining_stats_csv(&self) -> (r: Vec<u8>)
        ensures
            r@ == stats_csv(self.chain@),
    {
        let mut out = "Index,Mining Time (ms),Hash\n".as_bytes_vec();
        let ghost header = out@;
        let mut i: usize = 0;
        while i < self.chain.len()
            invariant
                i <= self.chain@.len(),
                out@ == header + stats_rows(self.chain@.take(i as int)),
                header == encode_utf8("Index,Mining Time (ms),Hash\n"@),
            decreases self.chain@.len() - i,
        {
            let block = &self.chain[i];
            let ghost before = out@;
            push_decimal(&mut out, block.index);
            out.push(COMMA);
            push_decimal(&mut out, block.mining_time);
            out.push(COMMA);
            let mut hash_bytes = block.hash.as_str().as_bytes_vec();
            out.append(&mut hash_bytes);
            out.push(NEWLINE);
            assert(self.chain@.take(i + 1).drop_last() =~= self.chain@.take(i as int));
            assert(out@ =~= before + stats_row(self.chain@[i as int]));
            assert(out@ =~= header + stats_rows(self.chain@.take(i + 1)));
            i = i + 1;
        }
        assert(self.chain@.take(i as int) =~= self.chain@);
        out
    }
}

} // verus!
