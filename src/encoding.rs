use vstd::prelude::*;
use vstd::utf8::encode_utf8;

verus! {

/// The ASCII byte of the digit `0`.
pub const DIGIT_ZERO: u8 = 48;

/// The byte that ends a decimal number or a length prefix.
pub const SEPARATOR: u8 = 58;

/// The canonical decimal rendering of `n`, most significant digit first,
/// as ASCII bytes.
pub open spec fn decimal(n: nat) -> Seq<u8>
    decreases n,
{
    if n < 10 {
        seq![(DIGIT_ZERO as nat + n) as u8]
    } else {
        decimal(n / 10).push((DIGIT_ZERO as nat + n % 10) as u8)
    }
}

/// A text field: the byte length of its UTF-8 form in decimal, the
/// separator, then the UTF-8 bytes themselves.
pub open spec fn text_field(s: Seq<char>) -> Seq<u8> {
    let b = encode_utf8(s);
    decimal(b.len()) + seq![SEPARATOR] + b
}

/// The bytes that a block's digest is taken over: index and timestamp in
/// decimal, each closed by the separator, then payload and previous hash as
/// length-prefixed text fields, then the nonce in decimal.
pub open spec fn block_preimage(
    index: u64,
    timestamp: u64,
    data: Seq<char>,
    previous_hash: Seq<char>,
    nonce: u64,
) -> Seq<u8> {
    decimal(index as nat) + seq![SEPARATOR] + decimal(timestamp as nat) + seq![SEPARATOR]
        + text_field(data) + text_field(previous_hash) + decimal(nonce as nat)
}

/// Appends the decimal rendering of `n` to `out`.
pub fn push_decimal(out: &mut Vec<u8>, n: u64)
    ensures
        final(out)@ == old(out)@ + decimal(n as nat),
    decreases n,
{
    if n >= 10 {
        push_decimal(out, n / 10);
    }
    out.push(DIGIT_ZERO + (n % 10) as u8);
    proof {
        assert(final(out)@ =~= old(out)@ + decimal(n as nat));
    }
}

/// Appends the length-prefixed UTF-8 form of `s` to `out`.
pub fn push_text_field(out: &mut Vec<u8>, s: &str)
    ensures
        final(out)@ == old(out)@ + text_field(s@),
{
    let mut bytes = s.as_bytes_vec();
    push_decimal(out, bytes.len() as u64);
    out.push(SEPARATOR);
    out.append(&mut bytes);
    proof {
        assert(final(out)@ =~= old(out)@ + text_field(s@));
    }
}

/// Builds the digest input of a block from its fields.
pub fn block_preimage_bytes(
    index: u64,
    timestamp: u64,
    data: &str,
    previous_hash: &str,
    nonce: u64,
) -> (r: Vec<u8>)
    ensures
        r@ == block_preimage(index, timestamp, data@, previous_hash@, nonce),
{
    let mut out: Vec<u8> = Vec::new();
    push_decimal(&mut out, index);
    out.push(SEPARATOR);
    push_decimal(&mut out, timestamp);
    out.push(SEPARATOR);
    push_text_field(&mut out, data);
    push_text_field(&mut out, previous_hash);
    push_decimal(&mut out, nonce);
    proof {
        assert(out@ =~= block_preimage(index, timestamp, data@, previous_hash@, nonce));
    }
    out
}

} // verus!
