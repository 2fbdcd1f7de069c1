//! Properties of the digest that relate several calls or hold of every input.
use vstd::prelude::*;
use crate::digest::{hash_blocks, hash_value, sha256_of};
use crate::padding::{be_u64_bytes, bit_len, len_ok, padded, padded_len, MAX_MESSAGE_LEN};

verus! {

/// The digest depends on the message bytes alone: equal messages have equal
/// digests, so repeated calls on one message agree.
pub proof fn lemma_digest_deterministic(m1: Seq<u8>, m2: Seq<u8>)
    requires
        m1 == m2,
    ensures
        sha256_of(m1) == sha256_of(m2),
{
}

/// The padded message has `padded_len` bytes: one block beyond the
/// message's whole blocks when its last partial block has room for the
/// marker and the 8-byte length (at most 55 bytes used), two otherwise.
pub proof fn lemma_block_count(msg: Seq<u8>)
    ensures
        padded(msg).len() == padded_len(msg.len()),
        padded(msg).len() % 64 == 0,
        padded(msg).len() / 64 == if msg.len() % 64 < 56 {
            msg.len() / 64 + 1
        } else {
            msg.len() / 64 + 2
        },
{
    crate::padding::lemma_padded_len(msg.len());
}

/// The padded message starts with the message and the 0x80 marker and ends
/// with the exact bit length, with no truncation, on every accepted length.
pub proof fn lemma_length_field(msg: Seq<u8>)
    requires
        len_ok(msg.len()),
    ensures
        bit_len(msg) as int == msg.len() * 8,
        padded(msg).subrange(0, msg.len() as int) == msg,
        padded(msg)[msg.len() as int] == 0x80u8,
        padded(msg).subrange(padded(msg).len() - 8, padded(msg).len() as int) == be_u64_bytes(
            bit_len(msg),
        ),
{
    crate::padding::lemma_padded_len(msg.len());
    assert(msg.len() * 8 <= MAX_MESSAGE_LEN * 8);
    let p = padded(msg);
    assert(p.subrange(0, msg.len() as int) =~= msg);
    assert(p.subrange(p.len() - 8, p.len() as int) =~= be_u64_bytes(bit_len(msg)));
}

/// Every hash value along the way has eight words.
pub proof fn lemma_hash_blocks_len(p: Seq<u8>, n: nat)
    ensures
        hash_blocks(p, n).len() == 8,
    decreases n,
{
    if n > 0 {
        lemma_hash_blocks_len(p, (n - 1) as nat);
    }
}

/// A digest is 32 bytes, a length that is always accepted: hashing a
/// digest is an ordinary call whose result is the digest of those 32 bytes.
pub proof fn lemma_rehash(msg: Seq<u8>)
    ensures
        sha256_of(msg).len() == 32,
        len_ok(sha256_of(msg).len()),
{
    let p = padded(msg);
    lemma_hash_blocks_len(p, p.len() / 64);
    assert(hash_value(msg).len() == 8);
    assert(padded_len(32) == 64);
}

} // verus!
