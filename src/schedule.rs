//! The message schedule: 64 words derived from one 64-byte block.
use vstd::prelude::*;
use crate::word::{add32, small_sigma0, small_sigma1, wrapping_add32, exec_small_sigma0, exec_small_sigma1};

verus! {

/// Word `j` of `block`: bytes `4j .. 4j + 4` read big-endian.
pub open spec fn be_word(block: Seq<u8>, j: int) -> u32 {
    ((block[4 * j] as u32) << 24u32) | ((block[4 * j + 1] as u32) << 16u32) | ((block[4 * j
        + 2] as u32) << 8u32) | (block[4 * j + 3] as u32)
}

/// Word `i` of the schedule of `block`.
pub open spec fn schedule_word(block: Seq<u8>, i: nat) -> u32
    decreases i,
{
    if i < 16 {
        be_word(block, i as int)
    } else {
        add32(
            add32(
                add32(
                    schedule_word(block, (i - 16) as nat),
                    small_sigma0(schedule_word(block, (i - 15) as nat)),
                ),
                schedule_word(block, (i - 7) as nat),
            ),
            small_sigma1(schedule_word(block, (i - 2) as nat)),
        )
    }
}

/// The 64-word schedule of `block`.
pub open spec fn schedule(block: Seq<u8>) -> Seq<u32> {
    Seq::new(64, |i: int| schedule_word(block, i as nat))
}

/// The 64-byte block of `buf` that starts at `offset`.
pub open spec fn block_at(buf: Seq<u8>, offset: int) -> Seq<u8> {
    buf.subrange(offset, offset + 64)
}

/// Builds the schedule of the block of `buf` at `offset`.
pub fn message_schedule(buf: &[u8], offset: usize) -> (w: Vec<u32>)
    requires
        offset + 64 <= buf@.len(),
    ensures
        w@ == schedule(block_at(buf@, offset as int)),
{
    let ghost block = block_at(buf@, offset as int);
    let mut w: Vec<u32> = Vec::with_capacity(64);
    let mut t: usize = 0;
    while t < 16
        invariant
            t <= 16,
            offset + 64 <= buf.len(),
            block == block_at(buf@, offset as int),
            w@.len() == t,
            forall|j: int| 0 <= j < t ==> w@[j] == schedule_word(block, j as nat),
        decreases 16 - t,
    {
        let p = offset + 4 * t;
        let word = ((buf[p] as u32) << 24u32) | ((buf[p + 1] as u32) << 16u32) | ((buf[p
            + 2] as u32) << 8u32) | (buf[p + 3] as u32);
        assert(word == be_word(block, t as int));
        w.push(word);
        t += 1;
    }
    while t < 64
        invariant
            16 <= t <= 64,
            w@.len() == t,
            forall|j: int| 0 <= j < t ==> w@[j] == schedule_word(block, j as nat),
        decreases 64 - t,
    {
        let s0 = exec_small_sigma0(w[t - 15]);
        let s1 = exec_small_sigma1(w[t - 2]);
        let word = wrapping_add32(wrapping_add32(wrapping_add32(w[t - 16], s0), w[t - 7]), s1);
        w.push(word);
        t += 1;
    }
    assert(w@ =~= schedule(block));
    w
}

} // verus!
