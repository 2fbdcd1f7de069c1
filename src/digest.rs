//! The digest of a whole message: padding, then compression of each block
//! in order, then the hash value as 32 big-endian bytes.
use vstd::prelude::*;
use crate::compress::{compress, compress_block, initial_hash, initial_hash_value, round_constant_table};
use crate::padding::{len_ok, pad, padded, DigestError};
use crate::schedule::block_at;

verus! {

/// The hash value after compressing the first `n` blocks of `p`.
pub open spec fn hash_blocks(p: Seq<u8>, n: nat) -> Seq<u32>
    decreases n,
{
    if n == 0 {
        initial_hash()
    } else {
        compress(hash_blocks(p, (n - 1) as nat), block_at(p, 64 * (n - 1)))
    }
}

/// Byte `i` of the words `h` laid out big-endian.
pub open spec fn word_byte(h: Seq<u32>, i: int) -> u8 {
    ((h[i / 4] >> ((24 - 8 * (i % 4)) as u32)) & 0xff) as u8
}

/// The words `h` as big-endian bytes.
pub open spec fn words_to_bytes(h: Seq<u32>) -> Seq<u8> {
    Seq::new(4 * h.len(), |i: int| word_byte(h, i))
}

/// The final hash value of `msg`.
pub open spec fn hash_value(msg: Seq<u8>) -> Seq<u32> {
    hash_blocks(padded(msg), padded(msg).len() / 64)
}

/// The SHA-256 digest of `msg`, as 32 bytes.
pub open spec fn sha256_of(msg: Seq<u8>) -> Seq<u8> {
    words_to_bytes(hash_value(msg))
}

/// Compresses every block of the padded message `p`, in order.
pub fn hash_padded(p: &[u8]) -> (h: [u32; 8])
    requires
        p@.len() % 64 == 0,
    ensures
        h@ == hash_blocks(p@, p@.len() / 64),
{
    let k = round_constant_table();
    let mut h = initial_hash_value();
    let mut offset: usize = 0;
    while offset < p.len()
        invariant
            k@ == crate::compress::round_constants(),
            p@.len() % 64 == 0,
            offset % 64 == 0,
            offset <= p@.len(),
            h@ == hash_blocks(p@, offset as nat / 64),
        decreases p@.len() - offset,
    {
        h = compress_block(h, &k, p, offset);
        offset += 64;
    }
    h
}

/// The SHA-256 digest of `msg`, or `InputTooLarge` where its padded form
/// cannot be represented.
pub fn digest(msg: &[u8]) -> (r: Result<[u8; 32], DigestError>)
    ensures
        match r {
            Ok(d) => len_ok(msg@.len()) && d@ == sha256_of(msg@),
            Err(e) => !len_ok(msg@.len()) && e == DigestError::InputTooLarge,
        },
{
    let p = match pad(msg) {
        Ok(p) => p,
        Err(e) => return Err(e),
    };
    proof {
        crate::padding::lemma_padded_len(msg@.len());
    }
    let h = hash_padded(p.as_slice());
    let mut out = [0u8; 32];
    let mut i: usize = 0;
    while i < 32
        invariant
            i <= 32,
            h@ == hash_value(msg@),
            forall|j: int| 0 <= j < i ==> out@[j] == word_byte(h@, j),
        decreases 32 - i,
    {
        let shift = (24 - 8 * (i % 4)) as u32;
        out[i] = ((h[i / 4] >> shift) & 0xff) as u8;
        i += 1;
    }
    assert(out@ =~= sha256_of(msg@));
    Ok(out)
}

} // verus!
