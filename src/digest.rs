use vstd::prelude::*;

verus! {

/// The lowercase hexadecimal SHA-256 digest of `input`.
pub uninterp spec fn sha256_hex_of(input: Seq<u8>) -> Seq<char>;

/// Relies on `sha2::Sha256::digest` for the 32-byte SHA-256 digest of the
/// input, rendered by generic_array's `LowerHex` as two lowercase hex
/// digits per byte. The result depends on the input bytes alone.
#[verifier::external_body]
pub(crate) fn sha256_hex(input: &Vec<u8>) -> (r: String)
    ensures
        r@ == sha256_hex_of(input@),
{
    format!("{:x}", <sha2::Sha256 as sha2::Digest>::digest(input.as_slice()))
}

/// `h` starts with at least `difficulty` zero characters.
pub open spec fn has_zero_prefix(h: Seq<char>, difficulty: nat) -> bool {
    &&& difficulty <= h.len()
    &&& forall|i: int| 0 <= i < difficulty ==> h[i] == '0'
}

/// Tells whether `hash` meets a proof-of-work target of `difficulty`
/// leading zero characters.
pub fn meets_difficulty(hash: &str, difficulty: usize) -> (r: bool)
    ensures
        r == has_zero_prefix(hash@, difficulty as nat),
{
    let len = hash.unicode_len();
    if difficulty > len {
        return false;
    }
    let mut i: usize = 0;
    while i < difficulty
        invariant
            difficulty <= len == hash@.len(),
            i <= difficulty,
            forall|j: int| 0 <= j < i ==> hash@[j] == '0',
        decreases difficulty - i,
    {
        if hash.get_char(i) != '0' {
            return false;
        }
        i = i + 1;
    }
    true
}

} // verus!
