//! The compression function: 64 rounds over one block's schedule, added
//! into the running hash value.
use vstd::prelude::*;
use crate::schedule::{block_at, message_schedule, schedule};
use crate::word::{
    add32, big_sigma0, big_sigma1, choice, majority, wrapping_add32, exec_big_sigma0,
    exec_big_sigma1, exec_choice, exec_majority,
};

verus! {

/// The 64 round constants.
pub open spec fn round_constants() -> Seq<u32> {
    seq![
        0x428a2f98u32, 0x71374491, 0xb5c0fbcf, 0xe9b5dba5, 0x3956c25b, 0x59f111f1, 0x923f82a4, 0xab1c5ed5,
        0xd807aa98, 0x12835b01, 0x243185be, 0x550c7dc3, 0x72be5d74, 0x80deb1fe, 0x9bdc06a7, 0xc19bf174,
        0xe49b69c1, 0xefbe4786, 0x0fc19dc6, 0x240ca1cc, 0x2de92c6f, 0x4a7484aa, 0x5cb0a9dc, 0x76f988da,
        0x983e5152, 0xa831c66d, 0xb00327c8, 0xbf597fc7, 0xc6e00bf3, 0xd5a79147, 0x06ca6351, 0x14292967,
        0x27b70a85, 0x2e1b2138, 0x4d2c6dfc, 0x53380d13, 0x650a7354, 0x766a0abb, 0x81c2c92e, 0x92722c85,
        0xa2bfe8a1, 0xa81a664b, 0xc24b8b70, 0xc76c51a3, 0xd192e819, 0xd6990624, 0xf40e3585, 0x106aa070,
        0x19a4c116, 0x1e376c08, 0x2748774c, 0x34b0bcb5, 0x391c0cb3, 0x4ed8aa4a, 0x5b9cca4f, 0x682e6ff3,
        0x748f82ee, 0x78a5636f, 0x84c87814, 0x8cc70208, 0x90befffa, 0xa4506ceb, 0xbef9a3f7, 0xc67178f2,
    ]
}

/// The initial hash value.
pub open spec fn initial_hash() -> Seq<u32> {
    seq![
        0x6a09e667u32, 0xbb67ae85, 0x3c6ef372, 0xa54ff53a, 0x510e527f, 0x9b05688c, 0x1f83d9ab, 0x5be0cd19,
    ]
}

/// One round on the working registers `s` (a .. h), with round constant `k`
/// and schedule word `w`.
pub open spec fn round(s: Seq<u32>, k: u32, w: u32) -> Seq<u32> {
    let t1 = add32(add32(add32(add32(s[7], big_sigma1(s[4])), choice(s[4], s[5], s[6])), k), w);
    let t2 = add32(big_sigma0(s[0]), majority(s[0], s[1], s[2]));
    seq![add32(t1, t2), s[0], s[1], s[2], add32(s[3], t1), s[4], s[5], s[6]]
}

/// The registers after the first `n` rounds from `s` over schedule `w`.
pub open spec fn rounds(s: Seq<u32>, w: Seq<u32>, n: nat) -> Seq<u32>
    decreases n,
{
    if n == 0 {
        s
    } else {
        round(rounds(s, w, (n - 1) as nat), round_constants()[n - 1], w[n - 1])
    }
}

/// The hash value after compressing `block` into `hv`.
pub open spec fn compress(hv: Seq<u32>, block: Seq<u8>) -> Seq<u32> {
    let s = rounds(hv, schedule(block), 64);
    Seq::new(8, |j: int| add32(hv[j], s[j]))
}

/// The round constants as an array.
pub fn round_constant_table() -> (k: [u32; 64])
    ensures
        k@ == round_constants(),
{
    let k: [u32; 64] = [
        0x428a2f98, 0x71374491, 0xb5c0fbcf, 0xe9b5dba5, 0x3956c25b, 0x59f111f1, 0x923f82a4, 0xab1c5ed5,
        0xd807aa98, 0x12835b01, 0x243185be, 0x550c7dc3, 0x72be5d74, 0x80deb1fe, 0x9bdc06a7, 0xc19bf174,
        0xe49b69c1, 0xefbe4786, 0x0fc19dc6, 0x240ca1cc, 0x2de92c6f, 0x4a7484aa, 0x5cb0a9dc, 0x76f988da,
        0x983e5152, 0xa831c66d, 0xb00327c8, 0xbf597fc7, 0xc6e00bf3, 0xd5a79147, 0x06ca6351, 0x14292967,
        0x27b70a85, 0x2e1b2138, 0x4d2c6dfc, 0x53380d13, 0x650a7354, 0x766a0abb, 0x81c2c92e, 0x92722c85,
        0xa2bfe8a1, 0xa81a664b, 0xc24b8b70, 0xc76c51a3, 0xd192e819, 0xd6990624, 0xf40e3585, 0x106aa070,
        0x19a4c116, 0x1e376c08, 0x2748774c, 0x34b0bcb5, 0x391c0cb3, 0x4ed8aa4a, 0x5b9cca4f, 0x682e6ff3,
        0x748f82ee, 0x78a5636f, 0x84c87814, 0x8cc70208, 0x90befffa, 0xa4506ceb, 0xbef9a3f7, 0xc67178f2,
    ];
    assert(k@ =~= round_constants());
    k
}

/// The initial hash value as an array.
pub fn initial_hash_value() -> (h: [u32; 8])
    ensures
        h@ == initial_hash(),
{
    let h: [u32; 8] = [
        0x6a09e667, 0xbb67ae85, 0x3c6ef372, 0xa54ff53a, 0x510e527f, 0x9b05688c, 0x1f83d9ab, 0x5be0cd19,
    ];
    assert(h@ =~= initial_hash());
    h
}

/// Compresses the block of `buf` at `offset` into the hash value `hv`.
pub fn compress_block(hv: [u32; 8], k: &[u32; 64], buf: &[u8], offset: usize) -> (r: [u32; 8])
    requires
        k@ == round_constants(),
        offset + 64 <= buf@.len(),
    ensures
        r@ == compress(hv@, block_at(buf@, offset as int)),
{
    let ghost block = block_at(buf@, offset as int);
    let w = message_schedule(buf, offset);
    let mut a = hv[0];
    let mut b = hv[1];
    let mut c = hv[2];
    let mut d = hv[3];
    let mut e = hv[4];
    let mut f = hv[5];
    let mut g = hv[6];
    let mut h = hv[7];
    assert(seq![a, b, c, d, e, f, g, h] =~= rounds(hv@, w@, 0));
    let mut i: usize = 0;
    while i < 64
        invariant
            i <= 64,
            k@ == round_constants(),
            w@ == schedule(block),
            seq![a, b, c, d, e, f, g, h] == rounds(hv@, w@, i as nat),
        decreases 64 - i,
    {
        let ghost s = seq![a, b, c, d, e, f, g, h];
        let sum1 = exec_big_sigma1(e);
        let ch = exec_choice(e, f, g);
        let t1 = wrapping_add32(wrapping_add32(wrapping_add32(wrapping_add32(h, sum1), ch), k[i]), w[i]);
        let sum0 = exec_big_sigma0(a);
        let maj = exec_majority(a, b, c);
        let t2 = wrapping_add32(sum0, maj);
        h = g;
        g = f;
        f = e;
        e = wrapping_add32(d, t1);
        d = c;
        c = b;
        b = a;
        a = wrapping_add32(t1, t2);
        assert(seq![a, b, c, d, e, f, g, h] =~= round(s, round_constants()[i as int], w@[i as int]));
        i += 1;
    }
    let r: [u32; 8] = [
        wrapping_add32(hv[0], a),
        wrapping_add32(hv[1], b),
        wrapping_add32(hv[2], c),
        wrapping_add32(hv[3], d),
        wrapping_add32(hv[4], e),
        wrapping_add32(hv[5], f),
        wrapping_add32(hv[6], g),
        wrapping_add32(hv[7], h),
    ];
    assert(r@ =~= compress(hv@, block));
    r
}

} // verus!
