use vstd::prelude::*;
use vstd::utf8::{encode_utf8, encode_utf8_decode_utf8};

use crate::block::Block;
use crate::chain::{Blockchain, accepted, blocks_valid, linked, next_difficulty, well_placed};
use crate::digest::{has_zero_prefix, sha256_hex_of};
use crate::encoding::{DIGIT_ZERO, SEPARATOR, block_preimage, decimal, text_field};

verus! {

/// A well-formed chain passes validation.
pub proof fn lemma_well_formed_chain_is_valid(c: &Blockchain)
    requires
        c.wf(),
    ensures
        blocks_valid(c.chain@),
{
}

/// In a well-formed chain every block after the genesis block names the
/// hash of the block before it.
pub proof fn lemma_blocks_linked(c: &Blockchain, i: int)
    requires
        c.wf(),
        1 <= i < c.chain@.len(),
    ensures
        c.chain@[i].previous_hash@ == c.chain@[i - 1].hash@,
{
    assert(accepted(c.chain@, i));
}

/// In a well-formed chain the stored hash of every block, genesis included,
/// is the digest recomputed from the block's fields.
pub proof fn lemma_hash_reproducible(c: &Blockchain, i: int)
    requires
        c.wf(),
        0 <= i < c.chain@.len(),
    ensures
        c.chain@[i].hash@ == c.chain@[i].digest(),
{
    assert(well_placed(c.chain@, i));
}

/// In a well-formed chain the hash of every block starts with at least as
/// many zero characters as the positive difficulty it was mined against.
pub proof fn lemma_hash_meets_difficulty(c: &Blockchain, i: int)
    requires
        c.wf(),
        0 <= i < c.chain@.len(),
    ensures
        c.chain@[i].difficulty >= 1,
        has_zero_prefix(c.chain@[i].hash@, c.chain@[i].difficulty as nat),
{
    assert(well_placed(c.chain@, i));
}

/// An adjustment never takes a positive difficulty below 1.
pub proof fn lemma_difficulty_stays_positive(difficulty: usize, elapsed: nat, expected: nat)
    requires
        difficulty >= 1,
    ensures
        next_difficulty(difficulty, elapsed, expected) >= 1,
{
}

/// Replacing a block after genesis by one that names another predecessor
/// makes the chain fail validation.
pub proof fn lemma_changed_link_rejected(blocks: Seq<Block>, i: int, tampered: Block)
    requires
        blocks_valid(blocks),
        1 <= i < blocks.len(),
        tampered.previous_hash@ != blocks[i].previous_hash@,
    ensures
        !blocks_valid(blocks.update(i, tampered)),
{
    assert(accepted(blocks, i));
    if blocks_valid(blocks.update(i, tampered)) {
        assert(accepted(blocks.update(i, tampered), i));
        assert(linked(blocks.update(i, tampered), i));
    }
}

/// Replacing a block after genesis by one with the same stored hash but
/// other fields passes validation only if the two field sets have the same
/// digest.
pub proof fn lemma_changed_fields_need_equal_digest(blocks: Seq<Block>, i: int, tampered: Block)
    requires
        blocks_valid(blocks),
        1 <= i < blocks.len(),
        tampered.hash@ == blocks[i].hash@,
        blocks_valid(blocks.update(i, tampered)),
    ensures
        tampered.digest() == blocks[i].digest(),
{
    assert(accepted(blocks, i));
    assert(accepted(blocks.update(i, tampered), i));
}

proof fn lemma_decimal_digits(n: nat)
    ensures
        decimal(n).len() >= 1,
        n >= 10 ==> decimal(n).len() >= 2,
        forall|k: int| 0 <= k < decimal(n).len() ==> #[trigger] decimal(n)[k] != SEPARATOR,
    decreases n,
{
    if n >= 10 {
        lemma_decimal_digits(n / 10);
    }
}

proof fn lemma_decimal_injective(a: nat, b: nat)
    requires
        decimal(a) == decimal(b),
    ensures
        a == b,
    decreases a,
{
    lemma_decimal_digits(a);
    lemma_decimal_digits(b);
    if a >= 10 && b >= 10 {
        assert(decimal(a).drop_last() =~= decimal(a / 10));
        assert(decimal(b).drop_last() =~= decimal(b / 10));
        lemma_decimal_injective(a / 10, b / 10);
        assert(decimal(a).last() == decimal(b).last());
        assert(decimal(a).last() == (DIGIT_ZERO as nat + a % 10) as u8);
        assert(decimal(b).last() == (DIGIT_ZERO as nat + b % 10) as u8);
        assert(a % 10 == b % 10);
        assert(a == 10 * (a / 10) + a % 10);
        assert(b == 10 * (b / 10) + b % 10);
    } else if a >= 10 {
        assert(decimal(b).len() == 1);
    } else if b >= 10 {
        assert(decimal(a).len() == 1);
    } else if a < 10 && b < 10 {
        assert(decimal(a)[0] == (DIGIT_ZERO as nat + a) as u8);
        assert(decimal(b)[0] == (DIGIT_ZERO as nat + b) as u8);
        assert(decimal(a)[0] == decimal(b)[0]);
    }
}

proof fn lemma_prefixed_split(a: nat, x: Seq<u8>, b: nat, y: Seq<u8>)
    requires
        decimal(a) + seq![SEPARATOR] + x == decimal(b) + seq![SEPARATOR] + y,
    ensures
        a == b,
        x == y,
{
    let l = decimal(a) + seq![SEPARATOR] + x;
    let r = decimal(b) + seq![SEPARATOR] + y;
    lemma_decimal_digits(a);
    lemma_decimal_digits(b);
    let la = decimal(a).len() as int;
    let lb = decimal(b).len() as int;
    if la < lb {
        assert(l[la] == SEPARATOR);
        assert(r[la] == decimal(b)[la]);
    } else if lb < la {
        assert(r[lb] == SEPARATOR);
        assert(l[lb] == decimal(a)[lb]);
    }
    assert(decimal(a) =~= l.subrange(0, la));
    assert(decimal(b) =~= r.subrange(0, lb));
    lemma_decimal_injective(a, b);
    assert(x =~= l.subrange(la + 1, l.len() as int));
    assert(y =~= r.subrange(lb + 1, r.len() as int));
}

/// Different nonces give different digest inputs, all other fields equal.
pub proof fn lemma_nonce_changes_preimage(
    index: u64,
    timestamp: u64,
    data: Seq<char>,
    previous_hash: Seq<char>,
    n1: u64,
    n2: u64,
)
    requires
        n1 != n2,
    ensures
        block_preimage(index, timestamp, data, previous_hash, n1) != block_preimage(
            index,
            timestamp,
            data,
            previous_hash,
            n2,
        ),
{
    let p = decimal(index as nat) + seq![SEPARATOR] + decimal(timestamp as nat) + seq![SEPARATOR]
        + text_field(data) + text_field(previous_hash);
    let l = block_preimage(index, timestamp, data, previous_hash, n1);
    let r = block_preimage(index, timestamp, data, previous_hash, n2);
    if l == r {
        assert(decimal(n1 as nat) =~= l.subrange(p.len() as int, l.len() as int));
        assert(decimal(n2 as nat) =~= r.subrange(p.len() as int, r.len() as int));
        lemma_decimal_injective(n1 as nat, n2 as nat);
    }
}

/// Different payloads give different digest inputs, all other fields equal.
pub proof fn lemma_payload_changes_preimage(
    index: u64,
    timestamp: u64,
    d1: Seq<char>,
    d2: Seq<char>,
    previous_hash: Seq<char>,
    nonce: u64,
)
    requires
        d1 != d2,
    ensures
        block_preimage(index, timestamp, d1, previous_hash, nonce) != block_preimage(
            index,
            timestamp,
            d2,
            previous_hash,
            nonce,
        ),
{
    let p = decimal(index as nat) + seq![SEPARATOR] + decimal(timestamp as nat) + seq![SEPARATOR];
    let rest = text_field(previous_hash) + decimal(nonce as nat);
    let l = block_preimage(index, timestamp, d1, previous_hash, nonce);
    let r = block_preimage(index, timestamp, d2, previous_hash, nonce);
    if l == r {
        let e1 = encode_utf8(d1);
        let e2 = encode_utf8(d2);
        assert(l =~= p + (decimal(e1.len()) + seq![SEPARATOR] + (e1 + rest)));
        assert(r =~= p + (decimal(e2.len()) + seq![SEPARATOR] + (e2 + rest)));
        assert(l.subrange(p.len() as int, l.len() as int) =~= decimal(e1.len()) + seq![SEPARATOR]
            + (e1 + rest));
        assert(r.subrange(p.len() as int, r.len() as int) =~= decimal(e2.len()) + seq![SEPARATOR]
            + (e2 + rest));
        lemma_prefixed_split(e1.len(), e1 + rest, e2.len(), e2 + rest);
        assert(e1 =~= (e1 + rest).subrange(0, e1.len() as int));
        assert(e2 =~= (e2 + rest).subrange(0, e2.len() as int));
        encode_utf8_decode_utf8(d1);
        encode_utf8_decode_utf8(d2);
    }
}

/// Replacing a block after genesis by one that differs only in its payload
/// or only in its nonce, its stored hash kept, passes validation only if
/// SHA-256 gives the same digest for two different inputs.
pub proof fn lemma_changed_payload_or_nonce_needs_collision(
    blocks: Seq<Block>,
    i: int,
    tampered: Block,
)
    requires
        blocks_valid(blocks),
        1 <= i < blocks.len(),
        tampered.index == blocks[i].index,
        tampered.timestamp == blocks[i].timestamp,
        tampered.previous_hash@ == blocks[i].previous_hash@,
        tampered.hash@ == blocks[i].hash@,
        (tampered.data@ != blocks[i].data@ && tampered.nonce == blocks[i].nonce) || (
        tampered.data@ == blocks[i].data@ && tampered.nonce != blocks[i].nonce),
        blocks_valid(blocks.update(i, tampered)),
    ensures
        ({
            let p1 = block_preimage(
                tampered.index,
                tampered.timestamp,
                tampered.data@,
                tampered.previous_hash@,
                tampered.nonce,
            );
            let p2 = block_preimage(
                blocks[i].index,
                blocks[i].timestamp,
                blocks[i].data@,
                blocks[i].previous_hash@,
                blocks[i].nonce,
            );
            p1 != p2 && sha256_hex_of(p1) == sha256_hex_of(p2)
        }),
{
    lemma_changed_fields_need_equal_digest(blocks, i, tampered);
    let b = blocks[i];
    if tampered.nonce == b.nonce {
        lemma_payload_changes_preimage(
            b.index,
            b.timestamp,
            tampered.data@,
            b.data@,
            b.previous_hash@,
            b.nonce,
        );
    } else {
        lemma_nonce_changes_preimage(
            b.index,
            b.timestamp,
            b.data@,
            b.previous_hash@,
            tampered.nonce,
            b.nonce,
        );
    }
}

} // verus!
